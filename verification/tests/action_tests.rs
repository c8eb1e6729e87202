use interstellar_command::engine::actions::action_for;
use interstellar_command::engine::actions::parse_action;
use interstellar_command::engine::actions::ActionError;
use interstellar_command::engine::actions::ActionType;
use interstellar_command::engine::actions::AttackAction;
use interstellar_command::engine::actions::BuildAction;
use interstellar_command::engine::actions::ErrorKind;
use interstellar_command::engine::actions::MoveAction;
use interstellar_command::engine::actions::OrbitalStrikeAction;
use interstellar_command::engine::actions::ReinforceAction;
use interstellar_command::engine::actions::SabotageAction;
use interstellar_command::engine::actions::ScanAction;
use interstellar_command::engine::actions::ATTACK_COST;
use interstellar_command::engine::actions::BUILD_COST;
use interstellar_command::engine::actions::MOVE_COST;
use interstellar_command::engine::actions::ORBITAL_STRIKE_COST;
use interstellar_command::engine::actions::REINFORCE_COST;
use interstellar_command::engine::actions::SABOTAGE_COST;
use interstellar_command::engine::actions::SCAN_COST;
use interstellar_command::engine::game::GameState;

fn game() -> GameState {
    GameState::new_with_names("Cassia".to_string(), "Darrow".to_string(), true)
}

fn kind_of(result: Result<String, ActionError>) -> ErrorKind {
    result.unwrap_err().kind
}

#[test]
fn costs_and_levels_are_as_declared() {
    assert_eq!(MOVE_COST, 5);
    assert_eq!(ATTACK_COST, 8);
    assert_eq!(SCAN_COST, 3);
    assert_eq!(BUILD_COST, 10);
    assert_eq!(REINFORCE_COST, 15);
    assert_eq!(SABOTAGE_COST, 12);
    assert_eq!(ORBITAL_STRIKE_COST, 20);
    assert_eq!((MoveAction { from: 0, to: 1 }).cost(), 5);
    assert_eq!((AttackAction { target_player: 1 }).cost(), 8);
    assert_eq!((ScanAction { sector: 0 }).cost(), 3);
    assert_eq!((BuildAction { sector: 0 }).cost(), 10);
    assert_eq!(ReinforceAction.cost(), 15);
    assert_eq!((SabotageAction { sector: 0 }).cost(), 12);
    assert_eq!((OrbitalStrikeAction { target_player: 1, target_sector: 0 }).cost(), 20);
    assert_eq!((MoveAction { from: 0, to: 1 }).required_level(), 1);
    assert_eq!((AttackAction { target_player: 1 }).required_level(), 1);
    assert_eq!((ScanAction { sector: 0 }).required_level(), 1);
    assert_eq!((BuildAction { sector: 0 }).required_level(), 1);
    assert_eq!(ReinforceAction.required_level(), 3);
    assert_eq!((SabotageAction { sector: 0 }).required_level(), 5);
    assert_eq!((OrbitalStrikeAction { target_player: 1, target_sector: 0 }).required_level(), 7);
    let all = [
        (ActionType::Move { from: 0, to: 1 }, 5, 1),
        (ActionType::Attack { target_player: 1 }, 8, 1),
        (ActionType::Scan { sector: 0 }, 3, 1),
        (ActionType::Build { sector: 0 }, 10, 1),
        (ActionType::Reinforce, 15, 3),
        (ActionType::Sabotage { sector: 0 }, 12, 5),
        (ActionType::OrbitalStrike { target_player: 1, target_sector: 0 }, 20, 7),
    ];
    for (action, cost, level) in all {
        assert_eq!(action.cost(), cost);
        assert_eq!(action.required_level(), level);
    }
}

#[test]
fn move_to_adjacent_sector_scenario() {
    let mut state = game();
    let log_before = state.event_log.len();
    let report = (MoveAction { from: 0, to: 1 }).execute(&mut state, 0).unwrap();
    assert_eq!(report, "Fleet moved to Orbital Platform (+10 XP)");
    assert_eq!(state.players[0].ap_remaining, 20);
    assert_eq!(state.players[0].current_sector, 1);
    assert_eq!(state.players[0].experience, 10);
    assert!(state.sectors[1].is_visible_to(0));
    assert!(!state.sectors[1].is_visible_to(1));
    assert_eq!(state.event_log.len(), log_before + 1);
    assert_eq!(state.event_log[log_before], "Legionnaire Cassia moved fleet to Orbital Platform");
    assert!(state.is_well_formed());
}

#[test]
fn move_without_command_ship_leaves_sector_unowned() {
    let mut state = game();
    assert_eq!(state.players[0].fleet.command_centers, 0);
    (MoveAction { from: 0, to: 2 }).execute(&mut state, 0).unwrap();
    assert_eq!(state.sectors[2].owner, None);
    assert_eq!(state.players[0].experience, 10);
}

#[test]
fn move_with_command_ship_captures_unowned_sector() {
    let mut state = game();
    state.players[0].fleet.command_centers = 1;
    let report = (MoveAction { from: 0, to: 2 }).execute(&mut state, 0).unwrap();
    assert_eq!(report, "Fleet moved to Asteroid Field (+10 XP)\nSector captured! (+50 XP)");
    assert_eq!(state.sectors[2].owner, Some(0));
    assert_eq!(state.players[0].experience, 60);
    assert_eq!(state.players[0].ap_remaining, 20);
}

#[test]
fn move_into_owned_sector_keeps_the_owner() {
    let mut state = game();
    state.players[0].fleet.command_centers = 1;
    state.sectors[1].owner = Some(1);
    (MoveAction { from: 0, to: 1 }).execute(&mut state, 0).unwrap();
    assert_eq!(state.sectors[1].owner, Some(1));
    assert_eq!(state.players[0].experience, 10);
}

#[test]
fn move_that_earns_the_first_command_ship_captures() {
    let mut state = game();
    state.players[0].gain_experience(590);
    assert_eq!(state.players[0].level, 3);
    assert_eq!(state.players[0].experience, 290);
    assert_eq!(state.players[0].fleet.command_centers, 0);
    (MoveAction { from: 0, to: 1 }).execute(&mut state, 0).unwrap();
    assert_eq!(state.players[0].level, 4);
    assert_eq!(state.players[0].fleet.command_centers, 1);
    assert_eq!(state.sectors[1].owner, Some(0));
    assert_eq!(state.players[0].experience, 50);
    assert_eq!(state.event_log.last().unwrap(), "Prefect Cassia moved fleet to Orbital Platform");
}

#[test]
fn move_to_non_adjacent_sector_is_an_invalid_target() {
    let mut state = game();
    let error = (MoveAction { from: 0, to: 5 }).validate(&state, 0).unwrap_err();
    assert_eq!(error.kind, ErrorKind::InvalidTarget);
    assert_eq!(error.message, "Sector 5 is not adjacent to your current location");
    assert_eq!(error.to_string(), "Sector 5 is not adjacent to your current location");
    state.players[0].ap_remaining = 0;
    assert_eq!(kind_of((MoveAction { from: 0, to: 5 }).execute(&mut state, 0)), ErrorKind::InvalidTarget);
    state.sectors[5].owner = Some(0);
    assert_eq!(kind_of((MoveAction { from: 0, to: 5 }).execute(&mut state, 0)), ErrorKind::InvalidTarget);
    assert_eq!(kind_of((MoveAction { from: 0, to: 200 }).execute(&mut state, 0)), ErrorKind::InvalidTarget);
    assert_eq!(kind_of((MoveAction { from: 0, to: 0 }).execute(&mut state, 0)), ErrorKind::InvalidTarget);
    assert_eq!(state.players[0].current_sector, 0);
    assert_eq!(state.players[0].ap_remaining, 0);
}

#[test]
fn move_from_another_sector_is_refused() {
    let mut state = game();
    let error = (MoveAction { from: 1, to: 2 }).execute(&mut state, 0).unwrap_err();
    assert_eq!(error.kind, ErrorKind::InvalidTarget);
    assert_eq!(error.message, "You are not in the specified sector");
}

#[test]
fn refused_action_changes_nothing() {
    let mut state = game();
    state.players[0].ap_remaining = 4;
    let error = (MoveAction { from: 0, to: 1 }).execute(&mut state, 0).unwrap_err();
    assert_eq!(error.kind, ErrorKind::InsufficientResource);
    assert_eq!(error.message, "Not enough AP! (Need 5 AP, have 4)");
    assert_eq!(state.players[0].ap_remaining, 4);
    assert_eq!(state.players[0].current_sector, 0);
    assert_eq!(state.players[0].experience, 0);
    assert_eq!(state.event_log.len(), 1);
    assert!(state.sectors[1].visible_to.is_empty());
}

#[test]
fn unknown_player_is_not_found() {
    let mut state = game();
    let actions = [
        ActionType::Move { from: 0, to: 1 },
        ActionType::Attack { target_player: 1 },
        ActionType::Scan { sector: 0 },
        ActionType::Build { sector: 0 },
        ActionType::Reinforce,
        ActionType::Sabotage { sector: 0 },
        ActionType::OrbitalStrike { target_player: 1, target_sector: 0 },
    ];
    for action in actions {
        let error = action.validate(&state, 2).unwrap_err();
        assert_eq!(error.kind, ErrorKind::NotFound);
        assert_eq!(error.message, "Player not found");
        assert_eq!(kind_of(action.execute(&mut state, 9)), ErrorKind::NotFound);
    }
}

#[test]
fn attack_scenario_without_level_bonus() {
    let mut state = game();
    state.players[1].current_sector = 0;
    let report = (AttackAction { target_player: 1 }).execute(&mut state, 0).unwrap();
    assert_eq!(report, "Attacked Darrow for 10 damage! (+25 XP)\nDarrow health: 90 HP");
    assert_eq!(state.players[1].health, 90);
    assert!(!state.game_over);
    assert_eq!(state.players[0].ap_remaining, 17);
    assert_eq!(state.players[0].experience, 25);
    assert_eq!(state.event_log.last().unwrap(), "Legionnaire Cassia attacked Darrow for 10 damage");
}

#[test]
fn attack_adds_the_level_bonus() {
    let mut state = game();
    state.players[1].current_sector = 0;
    state.players[0].gain_experience(1000);
    assert_eq!(state.players[0].level, 5);
    let report = (AttackAction { target_player: 1 }).execute(&mut state, 0).unwrap();
    assert_eq!(report, "Attacked Darrow for 15 damage! (+25 XP)\nDarrow health: 85 HP");
    assert_eq!(state.players[1].health, 85);
}

#[test]
fn fatal_attack_ends_the_game_for_good() {
    let mut state = game();
    state.players[1].current_sector = 0;
    state.players[1].health = 10;
    let report = (AttackAction { target_player: 1 }).execute(&mut state, 0).unwrap();
    assert_eq!(report, "Attacked Darrow for 10 damage! (+25 XP)\nDarrow has been defeated! (+200 XP)");
    assert_eq!(state.players[1].health, 0);
    assert!(state.game_over);
    assert_eq!(state.players[0].level, 2);
    assert_eq!(state.players[0].experience, 125);
    assert_eq!(state.event_log.last().unwrap(), "Legionnaire Cassia defeated Darrow!");
    let error = (AttackAction { target_player: 1 }).execute(&mut state, 0).unwrap_err();
    assert_eq!(error.kind, ErrorKind::InvalidTarget);
    assert_eq!(error.message, "Target is already defeated");
    assert!(state.game_over);
    (ScanAction { sector: 0 }).execute(&mut state, 0).unwrap();
    assert!(state.game_over);
    (MoveAction { from: 0, to: 1 }).execute(&mut state, 0).unwrap();
    assert!(state.game_over);
    state.end_turn(0);
    assert!(state.game_over);
}

#[test]
fn attack_refusals() {
    let mut state = game();
    let error = (AttackAction { target_player: 0 }).execute(&mut state, 0).unwrap_err();
    assert_eq!(error.kind, ErrorKind::InvalidTarget);
    assert_eq!(error.message, "Cannot attack yourself");
    let error = (AttackAction { target_player: 1 }).execute(&mut state, 0).unwrap_err();
    assert_eq!(error.kind, ErrorKind::InvalidTarget);
    assert_eq!(error.message, "Target is not in the same sector");
    let error = (AttackAction { target_player: 2 }).execute(&mut state, 0).unwrap_err();
    assert_eq!(error.kind, ErrorKind::NotFound);
    assert_eq!(error.message, "Target player not found");
    state.players[1].current_sector = 0;
    state.players[0].ap_remaining = 7;
    let error = (AttackAction { target_player: 1 }).execute(&mut state, 0).unwrap_err();
    assert_eq!(error.kind, ErrorKind::InsufficientResource);
    assert_eq!(error.message, "Not enough AP! (Need 8 AP, have 7)");
    assert_eq!(state.players[1].health, 100);
}

#[test]
fn scan_reports_owner_outpost_and_enemy() {
    let mut state = game();
    let report = (ScanAction { sector: 1 }).execute(&mut state, 0).unwrap();
    assert_eq!(report, "Scanned Orbital Platform (+5 XP)\nUncontrolled sector\n");
    assert!(state.sectors[1].is_visible_to(0));
    assert_eq!(state.players[0].ap_remaining, 22);
    assert_eq!(state.players[0].experience, 5);
    assert_eq!(state.event_log.last().unwrap(), "Legionnaire Cassia scanned Orbital Platform");
    state.sectors[2].owner = Some(1);
    state.sectors[2].has_outpost = true;
    state.players[1].current_sector = 2;
    let report = (ScanAction { sector: 2 }).execute(&mut state, 0).unwrap();
    assert_eq!(
        report,
        "Scanned Asteroid Field (+5 XP)\nControlled by: Darrow\nHas outpost: Yes\nEnemy fleet detected: Darrow\n"
    );
    state.sectors[0].owner = Some(0);
    let report = (ScanAction { sector: 0 }).execute(&mut state, 0).unwrap();
    assert_eq!(report, "Scanned Command Base Alpha (+5 XP)\nControlled by: Cassia\n");
    assert_eq!(state.sectors[0].visible_to, vec![0]);
    (ScanAction { sector: 0 }).execute(&mut state, 0).unwrap();
    assert_eq!(state.sectors[0].visible_to, vec![0]);
}

#[test]
fn scan_range_is_one_hop_and_two_from_level_five() {
    let mut state = game();
    let error = (ScanAction { sector: 4 }).execute(&mut state, 0).unwrap_err();
    assert_eq!(error.kind, ErrorKind::InvalidTarget);
    assert_eq!(error.message, "Sector 4 is out of scan range (max range: 1)");
    let error = (ScanAction { sector: 8 }).execute(&mut state, 0).unwrap_err();
    assert_eq!(error.kind, ErrorKind::NotFound);
    assert_eq!(error.message, "Invalid sector ID");
    state.players[0].gain_experience(1000);
    assert_eq!(state.players[0].level, 5);
    (ScanAction { sector: 4 }).execute(&mut state, 0).unwrap();
    let error = (ScanAction { sector: 5 }).execute(&mut state, 0).unwrap_err();
    assert_eq!(error.kind, ErrorKind::InvalidTarget);
    assert_eq!(error.message, "Sector 5 is out of scan range (max range: 2)");
}

#[test]
fn build_needs_presence_ownership_and_no_outpost() {
    let mut state = game();
    let error = (BuildAction { sector: 1 }).execute(&mut state, 0).unwrap_err();
    assert_eq!(error.kind, ErrorKind::InvalidTarget);
    assert_eq!(error.message, "You must be in a sector to build an outpost there");
    let error = (BuildAction { sector: 0 }).execute(&mut state, 0).unwrap_err();
    assert_eq!(error.kind, ErrorKind::PermissionDenied);
    assert_eq!(error.message, "You must control the sector to build an outpost");
    state.sectors[0].owner = Some(1);
    assert_eq!(kind_of((BuildAction { sector: 0 }).execute(&mut state, 0)), ErrorKind::PermissionDenied);
    state.sectors[0].owner = Some(0);
    let report = (BuildAction { sector: 0 }).execute(&mut state, 0).unwrap();
    assert_eq!(report, "[\u{e2}\u{2013}\u{a0}] Outpost constructed at Command Base Alpha (+30 XP)");
    assert!(state.sectors[0].has_outpost);
    assert_eq!(state.players[0].ap_remaining, 15);
    assert_eq!(state.players[0].experience, 30);
    assert_eq!(state.event_log.last().unwrap(), "Legionnaire Cassia built an outpost at Command Base Alpha");
    let error = (BuildAction { sector: 0 }).execute(&mut state, 0).unwrap_err();
    assert_eq!(error.kind, ErrorKind::AlreadyInState);
    assert_eq!(error.message, "This sector already has an outpost");
    assert_eq!(state.players[0].ap_remaining, 15);
}

#[test]
fn reinforce_needs_level_three_and_missing_health() {
    let mut state = game();
    state.players[0].health = 50;
    let error = ReinforceAction.execute(&mut state, 0).unwrap_err();
    assert_eq!(error.kind, ErrorKind::PermissionDenied);
    assert_eq!(error.message, "Requires level 3 (current: 1)");
    state.players[0].gain_experience(300);
    assert_eq!(state.players[0].level, 3);
    assert_eq!(state.players[0].health, 70);
    let report = ReinforceAction.execute(&mut state, 0).unwrap();
    assert_eq!(report, "[+] Fleet reinforced! Healed 20 HP (now at 90 HP)");
    assert_eq!(state.players[0].health, 90);
    assert_eq!(state.players[0].ap_remaining, 10);
    assert_eq!(state.players[0].experience, 15);
    assert_eq!(state.event_log.last().unwrap(), "Tribune Cassia reinforced their position");
}

#[test]
fn reinforce_is_clamped_to_the_level_cap() {
    let mut state = game();
    state.players[0].gain_experience(300);
    state.players[0].health = 130;
    let report = ReinforceAction.execute(&mut state, 0).unwrap();
    assert_eq!(report, "[+] Fleet reinforced! Healed 10 HP (now at 140 HP)");
    assert_eq!(state.players[0].health, 140);
    let error = ReinforceAction.execute(&mut state, 0).unwrap_err();
    assert_eq!(error.kind, ErrorKind::AlreadyInState);
    assert_eq!(error.message, "Already at full health");
    assert_eq!(state.players[0].health, 140);
    assert_eq!(state.players[0].ap_remaining, 10);
}

#[test]
fn sabotage_destroys_an_enemy_outpost() {
    let mut state = game();
    state.sectors[0].owner = Some(1);
    state.sectors[0].has_outpost = true;
    let error = (SabotageAction { sector: 0 }).execute(&mut state, 0).unwrap_err();
    assert_eq!(error.kind, ErrorKind::PermissionDenied);
    assert_eq!(error.message, "Sabotage requires Level 5+");
    state.players[0].gain_experience(1000);
    let error = (SabotageAction { sector: 1 }).execute(&mut state, 0).unwrap_err();
    assert_eq!(error.kind, ErrorKind::InvalidTarget);
    let report = (SabotageAction { sector: 0 }).execute(&mut state, 0).unwrap();
    assert_eq!(report, "Enemy outpost in Command Base Alpha destroyed! (+40 XP)");
    assert!(!state.sectors[0].has_outpost);
    assert_eq!(state.sectors[0].owner, Some(1));
    assert_eq!(state.players[0].ap_remaining, 13);
    assert_eq!(state.players[0].experience, 40);
    assert_eq!(state.event_log.last().unwrap(), "Legate Cassia sabotaged the outpost in Command Base Alpha");
    let error = (SabotageAction { sector: 0 }).execute(&mut state, 0).unwrap_err();
    assert_eq!(error.kind, ErrorKind::InvalidTarget);
    assert_eq!(error.message, "No enemy outpost in this sector to sabotage.");
    state.sectors[0].owner = Some(0);
    state.sectors[0].has_outpost = true;
    assert_eq!(kind_of((SabotageAction { sector: 0 }).execute(&mut state, 0)), ErrorKind::InvalidTarget);
}

#[test]
fn orbital_strike_hits_a_visible_sector() {
    let mut state = game();
    let strike = OrbitalStrikeAction { target_player: 1, target_sector: 7 };
    let error = strike.execute(&mut state, 0).unwrap_err();
    assert_eq!(error.kind, ErrorKind::PermissionDenied);
    assert_eq!(error.message, "Orbital Strike requires Level 7+");
    state.players[0].gain_experience(2100);
    assert_eq!(state.players[0].level, 7);
    let error = strike.execute(&mut state, 0).unwrap_err();
    assert_eq!(error.kind, ErrorKind::InvalidTarget);
    assert_eq!(error.message, "Invalid target - must be a visible sector.");
    state.sectors[7].reveal_to(0);
    let report = strike.execute(&mut state, 0).unwrap();
    assert_eq!(report, "Orbital strike hit enemy fleet for 30 damage! (+50 XP)\nEnemy health: 70");
    assert_eq!(state.players[1].health, 70);
    assert_eq!(state.players[0].ap_cap, 35);
    assert_eq!(state.players[0].ap_remaining, 5);
    assert_eq!(state.players[0].experience, 50);
    assert!(!state.game_over);
    assert_eq!(state.event_log.last().unwrap(), "Consul Cassia launched orbital strike on Command Base Beta");
    state.sectors[3].reveal_to(0);
    state.players[0].ap_remaining = 20;
    let report = (OrbitalStrikeAction { target_player: 1, target_sector: 3 }).execute(&mut state, 0).unwrap();
    assert_eq!(report, "Orbital strike hit empty space! No damage dealt. (+50 XP)");
    assert_eq!(state.players[1].health, 70);
    assert_eq!(state.players[0].experience, 100);
}

#[test]
fn orbital_strike_can_end_the_game() {
    let mut state = game();
    state.players[0].gain_experience(2100);
    state.sectors[7].reveal_to(0);
    state.players[1].health = 30;
    let report = (OrbitalStrikeAction { target_player: 1, target_sector: 7 }).execute(&mut state, 0).unwrap();
    assert_eq!(
        report,
        "Orbital strike hit enemy fleet for 30 damage! (+50 XP)\nEnemy health: 0\nEnemy eliminated by orbital strike! You win! (+200 XP)"
    );
    assert!(state.game_over);
    assert_eq!(state.players[1].health, 0);
    assert_eq!(state.players[0].experience, 250);
}

#[test]
fn orbital_strike_refusals() {
    let mut state = game();
    state.players[0].gain_experience(2100);
    let error = (OrbitalStrikeAction { target_player: 0, target_sector: 0 }).execute(&mut state, 0).unwrap_err();
    assert_eq!(error.kind, ErrorKind::InvalidTarget);
    assert_eq!(error.message, "Cannot attack yourself");
    let error = (OrbitalStrikeAction { target_player: 3, target_sector: 0 }).execute(&mut state, 0).unwrap_err();
    assert_eq!(error.kind, ErrorKind::NotFound);
    let error = (OrbitalStrikeAction { target_player: 1, target_sector: 8 }).execute(&mut state, 0).unwrap_err();
    assert_eq!(error.kind, ErrorKind::NotFound);
    assert_eq!(error.message, "Invalid sector ID");
}

#[test]
fn every_action_deducts_exactly_its_cost() {
    let mut state = game();
    state.players[0].gain_experience(2100);
    state.players[0].reset_ap();
    state.players[0].health = 100;
    state.players[1].current_sector = 0;
    state.sectors[0].owner = Some(0);
    state.sectors[0].reveal_to(0);
    let actions = [
        ActionType::Scan { sector: 1 },
        ActionType::Attack { target_player: 1 },
        ActionType::Build { sector: 0 },
        ActionType::Reinforce,
        ActionType::OrbitalStrike { target_player: 1, target_sector: 0 },
        ActionType::Move { from: 0, to: 1 },
    ];
    for action in actions {
        state.players[0].reset_ap();
        let before = state.players[0].ap_remaining;
        assert!(action.validate(&state, 0).is_ok());
        action.execute(&mut state, 0).unwrap();
        assert_eq!(state.players[0].ap_remaining, before - action.cost());
        assert!(state.players[0].ap_remaining <= state.players[0].ap_cap);
        assert!(state.players[0].health >= 0);
        assert!(state.players[1].health >= 0);
        assert!(state.is_well_formed());
    }
}

#[test]
fn parse_reads_keyword_and_argument() {
    let state = game();
    match parse_action("move 1", &state, 0).unwrap() {
        ActionType::Move { from, to } => {
            assert_eq!(from, 0);
            assert_eq!(to, 1);
        }
        other => panic!("{:?}", other),
    }
    match parse_action("  MoVe \t 2  extra", &state, 1).unwrap() {
        ActionType::Move { from, to } => {
            assert_eq!(from, 7);
            assert_eq!(to, 2);
        }
        other => panic!("{:?}", other),
    }
    assert!(matches!(parse_action("attack", &state, 0).unwrap(), ActionType::Attack { target_player: 1 }));
    assert!(matches!(parse_action("ATTACK", &state, 1).unwrap(), ActionType::Attack { target_player: 0 }));
    assert!(matches!(parse_action("scan 4", &state, 0).unwrap(), ActionType::Scan { sector: 4 }));
    assert!(matches!(parse_action("build", &state, 1).unwrap(), ActionType::Build { sector: 7 }));
    assert!(matches!(parse_action("Reinforce", &state, 0).unwrap(), ActionType::Reinforce));
    assert!(matches!(parse_action("sabotage", &state, 0).unwrap(), ActionType::Sabotage { sector: 0 }));
    assert!(matches!(
        parse_action("strike 3", &state, 0).unwrap(),
        ActionType::OrbitalStrike { target_player: 1, target_sector: 3 }
    ));
}

#[test]
fn parse_rejects_unknown_and_malformed_commands() {
    let state = game();
    let error = parse_action("", &state, 0).unwrap_err();
    assert_eq!(error.kind, ErrorKind::NotFound);
    assert_eq!(error.message, "No action specified");
    let error = parse_action("   \t ", &state, 0).unwrap_err();
    assert_eq!(error.message, "No action specified");
    let error = parse_action("Fly 3", &state, 0).unwrap_err();
    assert_eq!(error.kind, ErrorKind::NotFound);
    assert_eq!(error.message, "Unknown action: Fly");
    let error = parse_action("move", &state, 0).unwrap_err();
    assert_eq!(error.kind, ErrorKind::InvalidTarget);
    assert_eq!(error.message, "Usage: move <sector_id>");
    let error = parse_action("scan", &state, 0).unwrap_err();
    assert_eq!(error.message, "Usage: scan <sector_id>");
    let error = parse_action("strike", &state, 0).unwrap_err();
    assert_eq!(error.message, "Usage: strike <sector_id>");
    for command in ["move x", "move -1", "move 256", "scan 1.5"] {
        let error = parse_action(command, &state, 0).unwrap_err();
        assert_eq!(error.kind, ErrorKind::InvalidTarget);
        assert_eq!(error.message, "Invalid sector ID");
    }
    let error = parse_action("move 1", &state, 2).unwrap_err();
    assert_eq!(error.kind, ErrorKind::NotFound);
    assert_eq!(error.message, "Player not found");
}

#[test]
fn action_for_maps_each_keyword() {
    assert!(matches!(action_for("move", "move", Some("3"), 5, 0).unwrap(), ActionType::Move { from: 5, to: 3 }));
    assert!(matches!(action_for("x", "attack", None, 5, 1).unwrap(), ActionType::Attack { target_player: 0 }));
    assert!(matches!(action_for("x", "build", Some("9"), 5, 1).unwrap(), ActionType::Build { sector: 5 }));
    let error = action_for("MOVE", "MOVE", Some("3"), 5, 0).unwrap_err();
    assert_eq!(error.message, "Unknown action: MOVE");
}
