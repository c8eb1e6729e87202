use interstellar_command::engine::actions::ActionType;
use interstellar_command::engine::actions::ErrorKind;
use interstellar_command::engine::game::GameState;
use interstellar_command::engine::turn::TurnPhase;
use interstellar_command::map::sector::Sector;

fn game() -> GameState {
    GameState::new_with_names("Cassia".to_string(), "Darrow".to_string(), true)
}

#[test]
fn new_tactical_game_starts_in_opposite_corners() {
    let state = game();
    assert_eq!(state.sectors.len(), 8);
    assert_eq!(state.players[0].name, "Cassia");
    assert_eq!(state.players[0].id, 0);
    assert_eq!(state.players[0].current_sector, 0);
    assert_eq!(state.players[1].name, "Darrow");
    assert_eq!(state.players[1].id, 1);
    assert_eq!(state.players[1].current_sector, 7);
    assert_eq!(state.turn_number, 1);
    assert_eq!(state.current_player, 0);
    assert!(!state.game_over);
    assert_eq!(state.event_log, vec!["The solar empire awaits conquest...".to_string()]);
    assert_eq!(state.turn_manager.current_turn.number, 1);
    assert!(state.is_well_formed());
    assert!(state.is_ready());
}

#[test]
fn new_strategic_game_uses_the_large_map() {
    let state = GameState::new_with_names("A".to_string(), "B".to_string(), false);
    assert_eq!(state.sectors.len(), 17);
    assert_eq!(state.players[0].current_sector, 0);
    assert_eq!(state.players[1].current_sector, 16);
    assert!(state.is_well_formed());
}

#[test]
fn new_game_stores_given_passwords_only() {
    let state = GameState::new("A".to_string(), "abc", "B".to_string(), "", true);
    assert_eq!(
        state.players[0].get_password_hash().unwrap(),
        "ba7816bf8f01cfea414140de5dae2223b00361a396177a9cb410ff61f20015ad"
    );
    assert!(state.players[1].get_password_hash().is_none());
    assert!(state.players[0].verify_password("abc"));
    assert!(!state.players[0].verify_password("xyz"));
    assert!(state.players[1].verify_password("xyz"));
    assert!(state.is_well_formed());
}

#[test]
fn distance_counts_hops() {
    let state = game();
    assert_eq!(state.calculate_sector_distance(0, 0), 0);
    assert_eq!(state.calculate_sector_distance(0, 2), 1);
    assert_eq!(state.calculate_sector_distance(0, 4), 2);
    assert_eq!(state.calculate_sector_distance(0, 7), 4);
}

#[test]
fn distance_of_disconnected_sectors_is_the_sentinel() {
    let mut state = game();
    state.players[1].current_sector = 1;
    state.sectors = vec![
        Sector::new(0, "A".to_string(), vec![1]),
        Sector::new(1, "B".to_string(), vec![0]),
        Sector::new(2, "C".to_string(), vec![]),
    ];
    assert!(state.is_well_formed());
    assert_eq!(state.calculate_sector_distance(0, 1), 1);
    assert_eq!(state.calculate_sector_distance(0, 2), 255);
    assert_eq!(state.calculate_sector_distance(0, 2), u8::MAX);
}

#[test]
fn run_single_turn_starts_a_waiting_turn() {
    let mut state = game();
    state.players[0].ap_remaining = 3;
    assert!(state.run_single_turn().is_ok());
    assert_eq!(state.turn_manager.current_turn.phase, TurnPhase::Active);
    assert_eq!(state.players[0].ap_remaining, 25);
    state.players[0].ap_remaining = 9;
    assert!(state.run_single_turn().is_ok());
    assert_eq!(state.players[0].ap_remaining, 9);
    state.turn_manager.current_turn.complete();
    assert_eq!(state.run_single_turn().unwrap_err(), "It's not your turn!");
    assert_eq!(state.players[0].ap_remaining, 9);
}

#[test]
fn end_turn_hands_over_and_keeps_fields_in_step() {
    let mut state = game();
    state.run_single_turn().unwrap();
    state.end_turn(0);
    assert_eq!(state.turn_number, 2);
    assert_eq!(state.current_player, 1);
    assert_eq!(state.turn_manager.current_turn.number, 2);
    assert_eq!(state.turn_manager.current_turn.active_player, 1);
    assert_eq!(state.turn_manager.current_turn.phase, TurnPhase::WaitingForPlayer);
    assert_eq!(state.turn_manager.turn_history.len(), 1);
    assert_eq!(state.turn_manager.turn_history[0].phase, TurnPhase::Complete);
    assert_eq!(state.turn_manager.last_completed_turn, Some(1));
    assert_eq!(state.event_log.len(), 1);
    assert!(state.is_well_formed());
    state.end_turn(1);
    assert_eq!(state.turn_number, 3);
    assert_eq!(state.current_player, 0);
}

#[test]
fn end_turn_resolves_levels_and_tells_of_promotion() {
    let mut state = game();
    state.players[0].experience = 100;
    state.end_turn(0);
    assert_eq!(state.players[0].level, 2);
    assert_eq!(state.players[0].experience, 0);
    assert_eq!(state.event_log.last().unwrap(), "Cassia achieved rank of Centurion!");
}

#[test]
fn command_moves_and_is_recorded() {
    let mut state = game();
    state.run_single_turn().unwrap();
    let outcome = state.execute_command(0, "move 1");
    assert!(outcome.success);
    assert_eq!(outcome.message, "Fleet moved to Orbital Platform (+10 XP)");
    assert_eq!(outcome.ap_spent, 5);
    assert_eq!(outcome.error, None);
    assert_eq!(state.players[0].current_sector, 1);
    assert_eq!(state.players[0].ap_remaining, 20);
    let log = &state.turn_manager.current_turn.actions_taken;
    assert_eq!(log.len(), 1);
    assert_eq!(log[0].action_type, "move");
    assert_eq!(log[0].details, "Fleet moved to Orbital Platform (+10 XP)");
    assert_eq!(log[0].ap_cost, 5);
    let outcome = state.execute_command(0, "SCAN 0");
    assert!(outcome.success);
    assert_eq!(outcome.ap_spent, 3);
    assert_eq!(state.turn_manager.current_turn.actions_taken[1].action_type, "SCAN");
}

#[test]
fn command_of_wrong_player_is_denied() {
    let mut state = game();
    let outcome = state.execute_command(1, "move 6");
    assert!(!outcome.success);
    assert_eq!(outcome.error, Some(ErrorKind::PermissionDenied));
    assert_eq!(outcome.message, "It's not your turn!");
    assert_eq!(outcome.ap_spent, 0);
    assert_eq!(state.players[1].current_sector, 7);
    let outcome = state.execute_command(2, "move 6");
    assert_eq!(outcome.error, Some(ErrorKind::NotFound));
    assert_eq!(outcome.message, "Player not found");
    state.turn_manager.current_turn.complete();
    let outcome = state.execute_command(0, "move 1");
    assert_eq!(outcome.error, Some(ErrorKind::PermissionDenied));
}

#[test]
fn refused_command_spends_nothing() {
    let mut state = game();
    for (command, kind) in [
        ("warp 9", ErrorKind::NotFound),
        ("", ErrorKind::NotFound),
        ("move", ErrorKind::InvalidTarget),
        ("move 5", ErrorKind::InvalidTarget),
        ("scan 9", ErrorKind::NotFound),
        ("build", ErrorKind::PermissionDenied),
        ("reinforce", ErrorKind::PermissionDenied),
        ("attack", ErrorKind::InvalidTarget),
    ] {
        let outcome = state.execute_command(0, command);
        assert!(!outcome.success);
        assert_eq!(outcome.error, Some(kind));
        assert_eq!(outcome.ap_spent, 0);
        assert_eq!(state.players[0].ap_remaining, 25);
        assert_eq!(state.players[0].experience, 0);
        assert_eq!(state.event_log.len(), 1);
        assert!(state.turn_manager.current_turn.actions_taken.is_empty());
    }
    state.players[0].ap_remaining = 2;
    let outcome = state.execute_command(0, "scan 0");
    assert_eq!(outcome.error, Some(ErrorKind::InsufficientResource));
    assert_eq!(outcome.message, "Not enough AP! (Need 3 AP, have 2)");
    assert_eq!(state.players[0].ap_remaining, 2);
    state.players[0].ap_remaining = 25;
    state.players[0].gain_experience(300);
    state.players[0].health = 140;
    let outcome = state.execute_command(0, "reinforce");
    assert_eq!(outcome.error, Some(ErrorKind::AlreadyInState));
}

#[test]
fn spending_the_last_point_ends_the_turn() {
    let mut state = game();
    state.run_single_turn().unwrap();
    for target in ["1", "0", "1", "0"] {
        let outcome = state.execute_command(0, &format!("move {}", target));
        assert!(outcome.success);
        assert_eq!(state.current_player, 0);
    }
    assert_eq!(state.players[0].ap_remaining, 5);
    let outcome = state.execute_command(0, "move 2");
    assert!(outcome.success);
    assert_eq!(state.players[0].ap_remaining, 0);
    assert_eq!(state.current_player, 1);
    assert_eq!(state.turn_number, 2);
    assert_eq!(state.turn_manager.current_turn.active_player, 1);
    assert_eq!(state.turn_manager.turn_history.len(), 1);
    assert_eq!(state.turn_manager.turn_history[0].actions_taken.len(), 5);
    assert_eq!(state.turn_manager.turn_history[0].phase, TurnPhase::Complete);
    let outcome = state.execute_command(0, "scan 2");
    assert_eq!(outcome.error, Some(ErrorKind::PermissionDenied));
    state.run_single_turn().unwrap();
    let outcome = state.execute_command(1, "scan 7");
    assert!(outcome.success);
    assert_eq!(state.players[1].ap_remaining, 22);
}

#[test]
fn perform_takes_a_parsed_action() {
    let mut state = game();
    let outcome = state.perform(0, &ActionType::Scan { sector: 2 }, "look");
    assert!(outcome.success);
    assert_eq!(outcome.ap_spent, 3);
    assert_eq!(state.turn_manager.current_turn.actions_taken[0].action_type, "look");
    let outcome = state.perform(1, &ActionType::Scan { sector: 7 }, "look");
    assert_eq!(outcome.error, Some(ErrorKind::PermissionDenied));
}

#[test]
fn forfeit_ends_the_game() {
    let mut state = game();
    state.forfeit(1);
    assert!(state.game_over);
    assert_eq!(state.event_log.last().unwrap(), "Legionnaire Darrow abandoned the campaign.");
    state.add_event("Silence falls.".to_string());
    assert!(state.game_over);
    assert_eq!(state.event_log.last().unwrap(), "Silence falls.");
}

#[test]
fn well_formedness_check_finds_broken_states() {
    let mut state = game();
    state.players[0].current_sector = 8;
    assert!(!state.is_well_formed());
    let mut state = game();
    state.players[1].id = 0;
    assert!(!state.is_well_formed());
    let mut state = game();
    state.sectors[3].owner = Some(2);
    assert!(!state.is_well_formed());
    let mut state = game();
    state.sectors[3].adjacent.push(8);
    assert!(!state.is_well_formed());
    let mut state = game();
    state.turn_number = 2;
    assert!(!state.is_well_formed());
    let mut state = game();
    state.current_player = 1;
    assert!(!state.is_well_formed());
    let mut state = game();
    state.players[0].experience = u32::MAX - 249;
    assert!(state.is_well_formed());
    assert!(!state.is_ready());
    state.players[0].experience = u32::MAX - 250;
    assert!(state.is_ready());
    state.turn_manager.current_turn.number = u32::MAX;
    state.turn_number = u32::MAX;
    assert!(state.is_well_formed());
    assert!(!state.is_ready());
}

#[test]
fn extended_scan_reaches_neighbours_of_neighbours() {
    let state = game();
    assert!(state.can_scan_extended(0, 3));
    assert!(state.can_scan_extended(0, 4));
    assert!(state.can_scan_extended(0, 0));
    assert!(state.can_scan_extended(0, 1));
    assert!(!state.can_scan_extended(0, 5));
    assert!(!state.can_scan_extended(0, 7));
    assert!(!state.can_scan_extended(0, 200));
}

#[test]
fn winner_and_holdings_are_read_from_the_state() {
    let mut state = game();
    assert_eq!(state.winner(), 0);
    state.players[0].health = 0;
    assert_eq!(state.winner(), 1);
    assert_eq!(state.sectors_controlled(0), 0);
    state.sectors[1].owner = Some(0);
    state.sectors[4].owner = Some(0);
    state.sectors[5].owner = Some(1);
    assert_eq!(state.sectors_controlled(0), 2);
    assert_eq!(state.sectors_controlled(1), 1);
    assert_eq!(state.sectors_controlled(2), 0);
}

#[test]
fn only_the_acting_player_needs_room_for_experience() {
    let mut state = game();
    state.players[1].gain_experience(4500);
    state.players[1].experience = u32::MAX - 10;
    assert!(state.is_well_formed());
    assert!(!state.is_ready());
    let outcome = state.execute_command(0, "scan 1");
    assert!(outcome.success);
    assert_eq!(state.players[0].experience, 5);
    assert_eq!(state.players[1].experience, u32::MAX - 10);
    assert_eq!(state.players[1].level, 10);
}
