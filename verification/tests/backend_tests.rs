use interstellar_command::backend::game::create_new_game_state;
use interstellar_command::backend::game::Command;
use interstellar_command::backend::game::GameState;
use interstellar_command::backend::game::Player;
use interstellar_command::backend::game::Ship;
use interstellar_command::backend::game::ShipType;
use interstellar_command::backend::websocket::classify_message;
use interstellar_command::backend::websocket::get_player_update;
use interstellar_command::backend::websocket::get_sector_updates;
use interstellar_command::backend::websocket::parse_command;
use interstellar_command::backend::websocket::ClientRequest;

fn player(id: &str, name: &str, ap: i32) -> Player {
    Player {
        id: id.to_string(),
        name: name.to_string(),
        current_ap: ap,
        max_ap: 100,
        credits: 100,
        level: 1,
        xp: 0,
        reputation: 0,
        owned_ships: Vec::new(),
        command_ships: Vec::new(),
        garrison_slots: 0,
    }
}

fn ship(id: &str, name: &str, kind: ShipType, owner: &str, sector: &str) -> Ship {
    let (max_hp, damage, ap_cost) = kind.get_stats();
    Ship {
        id: id.to_string(),
        name: name.to_string(),
        ship_type: kind,
        owner: owner.to_string(),
        current_sector: sector.to_string(),
        hp: max_hp,
        max_hp,
        damage,
        ap_cost,
    }
}

fn game() -> GameState {
    let mut state = GameState::new();
    let mut alpha = player("cmdr-a", "Alpha", 50);
    alpha.owned_ships = vec!["ship-1".to_string(), "ship-3".to_string(), "ghost".to_string()];
    alpha.command_ships = vec!["ship-1".to_string()];
    state.insert_player(alpha);
    let mut beta = player("cmdr-b", "Beta", 2);
    beta.owned_ships = vec!["ship-2".to_string()];
    state.insert_player(beta);
    state.insert_ship(ship("ship-1", "Flagship", ShipType::CommandShip, "cmdr-a", "earth-1"));
    state.insert_ship(ship("ship-2", "Raider", ShipType::Corvette, "cmdr-b", "earth-16"));
    state.insert_ship(ship("ship-3", "Bastion", ShipType::GarrisonShip, "cmdr-a", "earth-1"));
    state.sectors[0].ships_present.push("ship-1".to_string());
    state.sectors[0].ships_present.push("ship-3".to_string());
    state.sectors[15].ships_present.push("ship-2".to_string());
    state
}

#[test]
fn ship_stats_by_archetype() {
    assert_eq!(ShipType::ScoutDrone.get_stats(), (10, 2, 1));
    assert_eq!(ShipType::MiningVessel.get_stats(), (15, 1, 2));
    assert_eq!(ShipType::Interceptor.get_stats(), (20, 5, 1));
    assert_eq!(ShipType::Corvette.get_stats(), (50, 12, 3));
    assert_eq!(ShipType::Frigate.get_stats(), (80, 15, 4));
    assert_eq!(ShipType::SupplyShip.get_stats(), (40, 5, 5));
    assert_eq!(ShipType::Destroyer.get_stats(), (150, 30, 6));
    assert_eq!(ShipType::GarrisonShip.get_stats(), (200, 20, 5));
    assert_eq!(ShipType::Cruiser.get_stats(), (250, 40, 8));
    assert_eq!(ShipType::Battleship.get_stats(), (500, 80, 12));
    assert_eq!(ShipType::CommandShip.get_stats(), (750, 100, 15));
    assert_eq!(ShipType::Carrier.get_stats(), (400, 20, 14));
    assert_eq!(ShipType::CommandShip.name(), "CommandShip");
    assert_eq!(format!("{:?}", ShipType::ScoutDrone), ShipType::ScoutDrone.name());
}

#[test]
fn new_game_has_the_map_of_earth() {
    let state = GameState::new();
    assert!(state.players.is_empty());
    assert!(state.ships.is_empty());
    assert_eq!(state.cycle_number, 0);
    assert_eq!(state.sectors.len(), 17);
    assert_eq!(state.sectors[0].id, "earth-1");
    assert_eq!(state.sectors[0].name, "E1");
    assert_eq!(state.sectors[0].position, (0, 0));
    assert_eq!(state.sectors[5].id, "earth-6");
    assert_eq!(state.sectors[5].position, (1, 1));
    assert_eq!(state.sectors[15].id, "earth-16");
    assert_eq!(state.sectors[15].name, "E16");
    assert_eq!(state.sectors[15].position, (3, 3));
    assert_eq!(state.sectors[16].id, "earth-core");
    assert_eq!(state.sectors[16].name, "Earth Core");
    assert_eq!(state.sectors[16].position, (2, 2));
    for sector in &state.sectors {
        assert_eq!(sector.planet, "Earth");
        assert!(sector.controlled_by.is_none());
        assert!(sector.garrison_ship.is_none());
        assert!(sector.ships_present.is_empty());
    }
}

#[test]
fn players_and_ships_are_found_by_id() {
    let mut state = game();
    assert_eq!(state.find_player("cmdr-a"), Some(0));
    assert_eq!(state.find_player("cmdr-b"), Some(1));
    assert_eq!(state.find_player("cmdr-c"), None);
    assert_eq!(state.find_ship("ship-2"), Some(1));
    assert_eq!(state.find_ship("ghost"), None);
    assert_eq!(state.find_sector("earth-core"), Some(16));
    assert_eq!(state.find_sector("mars-1"), None);
    state.insert_player(player("cmdr-a", "Gamma", 7));
    assert_eq!(state.players.len(), 2);
    assert_eq!(state.players[0].name, "Gamma");
    assert_eq!(state.players[0].current_ap, 7);
    state.insert_ship(ship("ship-2", "Raider II", ShipType::Frigate, "cmdr-b", "earth-2"));
    assert_eq!(state.ships.len(), 3);
    assert_eq!(state.ships[1].name, "Raider II");
}

#[test]
fn cycle_restores_points_up_to_the_cap() {
    let mut state = game();
    state.players[0].current_ap = 70;
    state.players[1].current_ap = 2;
    state.process_cycle();
    assert_eq!(state.cycle_number, 1);
    assert_eq!(state.players[0].current_ap, 100);
    assert_eq!(state.players[1].current_ap, 52);
    state.process_cycle();
    assert_eq!(state.cycle_number, 2);
    assert_eq!(state.players[0].current_ap, 100);
    assert_eq!(state.players[1].current_ap, 100);
    for p in &state.players {
        assert!(0 <= p.current_ap && p.current_ap <= p.max_ap);
    }
}

#[test]
fn unknown_player_is_refused() {
    let mut state = game();
    let result = state.execute_command("nobody", Command::Status);
    assert!(!result.success);
    assert_eq!(result.message, "Player not found");
    assert_eq!(result.ap_spent, 0);
}

#[test]
fn move_ship_relocates_and_charges() {
    let mut state = game();
    let result = state.execute_command(
        "cmdr-a",
        Command::Move { ship_id: "ship-1".to_string(), sector_id: "earth-2".to_string() },
    );
    assert!(result.success);
    assert_eq!(result.message, "Flagship moved to E2");
    assert_eq!(result.ap_spent, 15);
    assert_eq!(state.players[0].current_ap, 35);
    assert_eq!(state.ships[0].current_sector, "earth-2");
    assert_eq!(state.sectors[0].ships_present, vec!["ship-3".to_string()]);
    assert_eq!(state.sectors[1].ships_present, vec!["ship-1".to_string()]);
}

#[test]
fn move_ship_refusals() {
    let mut state = game();
    let mv = |ship: &str, sector: &str| Command::Move {
        ship_id: ship.to_string(),
        sector_id: sector.to_string(),
    };
    let result = state.execute_command("cmdr-a", mv("ghost", "earth-2"));
    assert_eq!(result.message, "Ship not found");
    let result = state.execute_command("cmdr-a", mv("ship-2", "earth-2"));
    assert_eq!(result.message, "That's not your ship!");
    let result = state.execute_command("cmdr-b", mv("ship-2", "earth-2"));
    assert_eq!(result.message, "Not enough AP. Need 3 but have 2");
    let result = state.execute_command("cmdr-a", mv("ship-1", "mars-1"));
    assert_eq!(result.message, "Target sector not found");
    assert!(!result.success);
    assert_eq!(result.ap_spent, 0);
    assert_eq!(state.players[0].current_ap, 50);
    assert_eq!(state.ships[0].current_sector, "earth-1");
    assert_eq!(state.sectors[0].ships_present.len(), 2);
}

#[test]
fn scan_reports_control_and_ships() {
    let mut state = game();
    let result = state.execute_command("cmdr-a", Command::Scan { sector_id: "earth-1".to_string() });
    assert!(result.success);
    assert_eq!(result.ap_spent, 3);
    assert_eq!(
        result.message,
        "=== Sector E1 (Earth) ===\nPosition: (0, 0)\nStatus: Neutral\n\nShips present:\n- Flagship (CommandShip) [Owner: Alpha]\n- Bastion (GarrisonShip) [Owner: Alpha]\n"
    );
    assert_eq!(state.players[0].current_ap, 47);
    state.sectors[6].controlled_by = Some("cmdr-b".to_string());
    let result = state.execute_command("cmdr-a", Command::Scan { sector_id: "earth-7".to_string() });
    assert_eq!(
        result.message,
        "=== Sector E7 (Earth) ===\nPosition: (1, 2)\nControlled by: Beta\n\nNo ships detected\n"
    );
    state.sectors[6].controlled_by = Some("gone".to_string());
    state.sectors[6].ships_present.push("ghost".to_string());
    let result = state.execute_command("cmdr-a", Command::Scan { sector_id: "earth-7".to_string() });
    assert_eq!(
        result.message,
        "=== Sector E7 (Earth) ===\nPosition: (1, 2)\nControlled by: Unknown\n\nShips present:\n"
    );
    let result = state.execute_command("cmdr-a", Command::Scan { sector_id: "mars".to_string() });
    assert_eq!(result.message, "Sector not found");
    let result = state.execute_command("cmdr-b", Command::Scan { sector_id: "earth-1".to_string() });
    assert_eq!(result.message, "Not enough AP for scan (need 3)");
    assert_eq!(state.players[1].current_ap, 2);
}

#[test]
fn status_and_fleet_reports() {
    let mut state = game();
    let result = state.execute_command("cmdr-a", Command::Status);
    assert!(result.success);
    assert_eq!(result.ap_spent, 0);
    assert_eq!(
        result.message,
        "=== Status ===\nName: Alpha\nLevel: 1 (XP: 0)\nAP: 50/100\nCredits: 100\nReputation: 0\nShips: 3\nCommand Ships: 1\nAvailable Garrisons: 0"
    );
    state.ships[2].hp = 120;
    state.ships[2].current_sector = "nowhere".to_string();
    let result = state.execute_command("cmdr-a", Command::Fleet);
    assert_eq!(
        result.message,
        "=== Fleet Status ===\nFlagship (CommandShip) - Location: E1 - HP: 750/750\nBastion (GarrisonShip) - Location: Unknown - HP: 120/200\n"
    );
    assert_eq!(state.players[0].current_ap, 50);
}

#[test]
fn declare_control_needs_a_command_ship_in_place() {
    let mut state = game();
    let declare = |sector: &str, ship: &str| Command::DeclareControl {
        sector_id: sector.to_string(),
        command_ship_id: ship.to_string(),
    };
    let result = state.execute_command("cmdr-a", declare("earth-1", "ghost"));
    assert_eq!(result.message, "Command ship not found");
    let result = state.execute_command("cmdr-a", declare("earth-1", "ship-2"));
    assert_eq!(result.message, "That's not your command ship!");
    let result = state.execute_command("cmdr-a", declare("earth-1", "ship-3"));
    assert_eq!(result.message, "Only command ships can declare control");
    let result = state.execute_command("cmdr-a", declare("earth-2", "ship-1"));
    assert_eq!(result.message, "Command ship must be in the sector to declare control");
    state.players[0].current_ap = 24;
    let result = state.execute_command("cmdr-a", declare("earth-1", "ship-1"));
    assert_eq!(result.message, "Not enough AP. Need 25 but have 24");
    assert!(state.sectors[0].controlled_by.is_none());
    state.players[0].current_ap = 25;
    let result = state.execute_command("cmdr-a", declare("earth-1", "ship-1"));
    assert!(result.success);
    assert_eq!(result.message, "Control declared over sector earth-1");
    assert_eq!(result.ap_spent, 25);
    assert_eq!(state.players[0].current_ap, 0);
    assert_eq!(state.sectors[0].controlled_by, Some("cmdr-a".to_string()));
}

#[test]
fn garrison_needs_control_and_a_garrison_ship() {
    let mut state = game();
    let garrison = |sector: &str, ship: &str| Command::SetGarrison {
        sector_id: sector.to_string(),
        garrison_ship_id: ship.to_string(),
    };
    let result = state.execute_command("cmdr-a", garrison("earth-1", "ship-1"));
    assert_eq!(result.message, "Invalid garrison ship");
    let result = state.execute_command("cmdr-a", garrison("earth-1", "ghost"));
    assert_eq!(result.message, "Invalid garrison ship");
    let result = state.execute_command("cmdr-a", garrison("earth-1", "ship-3"));
    assert_eq!(result.message, "You don't control this sector");
    state.sectors[0].controlled_by = Some("cmdr-a".to_string());
    state.sectors[1].controlled_by = Some("cmdr-a".to_string());
    let result = state.execute_command("cmdr-a", garrison("earth-2", "ship-3"));
    assert_eq!(result.message, "Garrison ship must be in the sector");
    let result = state.execute_command("cmdr-a", garrison("earth-1", "ship-3"));
    assert!(result.success);
    assert_eq!(result.message, "Garrison established in E1");
    assert_eq!(result.ap_spent, 0);
    assert_eq!(state.sectors[0].garrison_ship, Some("ship-3".to_string()));
    assert_eq!(state.players[0].current_ap, 50);
}

#[test]
fn attack_is_not_available() {
    let mut state = game();
    let result = state.execute_command("cmdr-a", Command::Attack { target_ship_id: "ship-2".to_string() });
    assert!(!result.success);
    assert_eq!(result.message, "Command not implemented yet");
    assert_eq!(state.ships[1].hp, 50);
}

#[test]
fn messages_are_parsed_into_commands() {
    assert!(matches!(parse_command("status").unwrap(), Command::Status));
    assert!(matches!(parse_command("  FLEET  ").unwrap(), Command::Fleet));
    match parse_command("Move ship-1 earth-2").unwrap() {
        Command::Move { ship_id, sector_id } => {
            assert_eq!(ship_id, "ship-1");
            assert_eq!(sector_id, "earth-2");
        }
        other => panic!("{:?}", other),
    }
    match parse_command("scan earth-core now").unwrap() {
        Command::Scan { sector_id } => assert_eq!(sector_id, "earth-core"),
        other => panic!("{:?}", other),
    }
    match parse_command("declare earth-1 ship-1").unwrap() {
        Command::DeclareControl { sector_id, command_ship_id } => {
            assert_eq!(sector_id, "earth-1");
            assert_eq!(command_ship_id, "ship-1");
        }
        other => panic!("{:?}", other),
    }
    match parse_command("garrison earth-1 ship-3").unwrap() {
        Command::SetGarrison { sector_id, garrison_ship_id } => {
            assert_eq!(sector_id, "earth-1");
            assert_eq!(garrison_ship_id, "ship-3");
        }
        other => panic!("{:?}", other),
    }
    assert_eq!(parse_command("").unwrap_err(), "Empty command");
    assert_eq!(parse_command("  ").unwrap_err(), "Empty command");
    assert_eq!(parse_command("move ship-1").unwrap_err(), "Usage: move <ship-id> <sector-id>");
    assert_eq!(parse_command("scan").unwrap_err(), "Usage: scan <sector-id>");
    assert_eq!(parse_command("declare x").unwrap_err(), "Usage: declare <sector-id> <command-ship-id>");
    assert_eq!(parse_command("garrison").unwrap_err(), "Usage: garrison <sector-id> <garrison-ship-id>");
    assert_eq!(parse_command("Dance now").unwrap_err(), "Unknown command: Dance");
}

#[test]
fn updates_summarise_players_and_sectors() {
    let mut state = game();
    let update = get_player_update(&state, "cmdr-a");
    assert_eq!(update.ap, 50);
    assert_eq!(update.max_ap, 100);
    assert_eq!(update.credits, 100);
    assert_eq!(update.level, 1);
    assert_eq!(update.ship_count, 3);
    let update = get_player_update(&state, "nobody");
    assert_eq!((update.ap, update.max_ap, update.credits, update.level, update.ship_count), (0, 0, 0, 0, 0));
    state.sectors[0].controlled_by = Some("cmdr-a".to_string());
    state.sectors[0].garrison_ship = Some("ship-3".to_string());
    let updates = get_sector_updates(&state);
    assert_eq!(updates.len(), 17);
    assert_eq!(updates[0].id, "earth-1");
    assert_eq!(updates[0].name, "E1");
    assert_eq!(updates[0].position, (0, 0));
    assert_eq!(updates[0].controlled_by, Some("cmdr-a".to_string()));
    assert_eq!(updates[0].ship_count, 2);
    assert!(updates[0].has_garrison);
    assert_eq!(updates[16].id, "earth-core");
    assert_eq!(updates[16].ship_count, 0);
    assert!(!updates[16].has_garrison);
    assert_eq!(updates[16].controlled_by, None);
}

#[test]
fn development_game_has_two_commanders_with_frigates() {
    let mut state = create_new_game_state();
    assert!(state.is_well_formed());
    assert_eq!(state.players.len(), 2);
    assert_eq!(state.players[0].id, "test-player-1");
    assert_eq!(state.players[0].name, "Commander Alpha");
    assert_eq!(state.players[0].current_ap, 50);
    assert_eq!(state.players[0].max_ap, 100);
    assert_eq!(state.players[0].credits, 100);
    assert_eq!(state.players[0].level, 1);
    assert_eq!(state.players[0].owned_ships, vec!["ship-1".to_string()]);
    assert!(state.players[0].command_ships.is_empty());
    assert_eq!(state.players[1].id, "test-player-2");
    assert_eq!(state.players[1].name, "Commander Beta");
    assert_eq!(state.players[1].owned_ships, vec!["ship-2".to_string()]);
    assert_eq!(state.ships.len(), 2);
    assert_eq!(state.ships[0].name, "Pioneer");
    assert_eq!(state.ships[0].ship_type, ShipType::Frigate);
    assert_eq!(state.ships[0].owner, "test-player-1");
    assert_eq!(state.ships[0].current_sector, "earth-1");
    assert_eq!((state.ships[0].hp, state.ships[0].max_hp, state.ships[0].damage, state.ships[0].ap_cost), (80, 80, 15, 4));
    assert_eq!(state.ships[1].name, "Voyager");
    assert_eq!(state.ships[1].current_sector, "earth-16");
    assert_eq!(state.sectors[0].ships_present, vec!["ship-1".to_string()]);
    assert_eq!(state.sectors[15].ships_present, vec!["ship-2".to_string()]);
    assert!(state.sectors[1].ships_present.is_empty());
    let result = state.execute_command(
        "test-player-1",
        Command::Move { ship_id: "ship-1".to_string(), sector_id: "earth-core".to_string() },
    );
    assert!(result.success);
    assert_eq!(result.message, "Pioneer moved to Earth Core");
    assert_eq!(result.ap_spent, 4);
    assert_eq!(state.players[0].current_ap, 46);
}

#[test]
fn registered_player_gets_the_starting_figures() {
    let p = Player::registered("abc".to_string(), "Nova".to_string());
    assert_eq!(p.id, "abc");
    assert_eq!(p.name, "Nova");
    assert_eq!((p.current_ap, p.max_ap, p.credits, p.level, p.xp, p.reputation, p.garrison_slots), (50, 100, 100, 1, 0, 0, 0));
    assert!(p.owned_ships.is_empty());
    assert!(p.command_ships.is_empty());
}

#[test]
fn client_messages_are_classified() {
    assert_eq!(classify_message("command", Some("scan earth-1".to_string())), ClientRequest::Command("scan earth-1".to_string()));
    assert_eq!(classify_message("command", None), ClientRequest::Ignore);
    assert_eq!(classify_message("ping", None), ClientRequest::Ping);
    assert_eq!(classify_message("ping", Some("x".to_string())), ClientRequest::Ping);
    assert_eq!(classify_message("Command", Some("x".to_string())), ClientRequest::Ignore);
    assert_eq!(classify_message("", None), ClientRequest::Ignore);
}

#[test]
fn cycle_notice_names_the_cycle() {
    let mut state = game();
    state.process_cycle();
    assert_eq!(state.cycle_notice(), "Cycle 1 complete! +50 AP added");
    assert!(state.can_cycle());
    state.cycle_number = u32::MAX;
    assert!(!state.can_cycle());
    state.cycle_number = 3;
    state.players[0].current_ap = i32::MAX - 49;
    assert!(!state.can_cycle());
    state.players[0].current_ap = i32::MAX - 50;
    assert!(state.can_cycle());
}

#[test]
fn backend_well_formedness_needs_distinct_ids() {
    let mut state = game();
    assert!(state.is_well_formed());
    state.players[1].id = "cmdr-a".to_string();
    assert!(!state.is_well_formed());
    let mut state = game();
    state.ships[2].id = "ship-1".to_string();
    assert!(!state.is_well_formed());
    let mut state = game();
    state.ships[0].ap_cost = -1;
    assert!(!state.is_well_formed());
}
