use interstellar_command::engine::turn::seconds_or_zero;
use interstellar_command::engine::turn::Turn;
use interstellar_command::engine::turn::TurnManager;
use interstellar_command::engine::turn::TurnPhase;

#[test]
fn new_turn_waits_for_its_player() {
    let turn = Turn::new(3, 1);
    assert_eq!(turn.number, 3);
    assert_eq!(turn.active_player, 1);
    assert_eq!(turn.phase, TurnPhase::WaitingForPlayer);
    assert!(turn.actions_taken.is_empty());
    assert!(!turn.is_active());
}

#[test]
fn turn_goes_from_waiting_to_active_to_complete() {
    let mut turn = Turn::new(1, 0);
    turn.start();
    assert_eq!(turn.phase, TurnPhase::Active);
    assert!(turn.is_active());
    turn.complete();
    assert_eq!(turn.phase, TurnPhase::Complete);
    assert!(!turn.is_active());
}

#[test]
fn recorded_actions_keep_their_order() {
    let mut turn = Turn::new(1, 0);
    turn.record_action("move", "Fleet moved", 5);
    turn.record_action("scan", "Scanned", 3);
    assert_eq!(turn.actions_taken.len(), 2);
    assert_eq!(turn.actions_taken[0].action_type, "move");
    assert_eq!(turn.actions_taken[0].details, "Fleet moved");
    assert_eq!(turn.actions_taken[0].ap_cost, 5);
    assert_eq!(turn.actions_taken[1].action_type, "scan");
    assert_eq!(turn.actions_taken[1].ap_cost, 3);
}

#[test]
fn manager_starts_with_first_turn_of_first_player() {
    let manager = TurnManager::new();
    assert_eq!(manager.current_turn.number, 1);
    assert_eq!(manager.current_turn.active_player, 0);
    assert_eq!(manager.current_turn.phase, TurnPhase::WaitingForPlayer);
    assert!(manager.turn_history.is_empty());
    assert_eq!(manager.last_completed_turn, None);
}

#[test]
fn only_the_active_player_can_act() {
    let mut manager = TurnManager::new();
    assert!(manager.can_player_act(0));
    assert!(!manager.can_player_act(1));
    manager.current_turn.start();
    assert!(manager.can_player_act(0));
    assert!(!manager.can_player_act(1));
    manager.current_turn.complete();
    assert!(!manager.can_player_act(0));
    assert!(!manager.can_player_act(1));
}

#[test]
fn advance_flips_player_and_counts_up() {
    let mut manager = TurnManager::new();
    manager.current_turn.start();
    manager.current_turn.record_action("scan", "Scanned", 3);
    manager.advance_turn();
    assert_eq!(manager.current_turn.number, 2);
    assert_eq!(manager.current_turn.active_player, 1);
    assert_eq!(manager.current_turn.phase, TurnPhase::WaitingForPlayer);
    assert!(manager.current_turn.actions_taken.is_empty());
    assert_eq!(manager.last_completed_turn, Some(1));
    assert_eq!(manager.turn_history.len(), 1);
    assert_eq!(manager.turn_history[0].number, 1);
    assert_eq!(manager.turn_history[0].active_player, 0);
    assert_eq!(manager.turn_history[0].phase, TurnPhase::Complete);
    assert_eq!(manager.turn_history[0].actions_taken.len(), 1);
    manager.advance_turn();
    assert_eq!(manager.current_turn.number, 3);
    assert_eq!(manager.current_turn.active_player, 0);
    assert_eq!(manager.last_completed_turn, Some(2));
    assert_eq!(manager.turn_history.len(), 2);
}

#[test]
fn summary_names_turn_phase_and_player() {
    let mut manager = TurnManager::new();
    assert_eq!(manager.get_turn_summary(), "Turn 1: Waiting for player (Player 1)");
    manager.current_turn.start();
    assert_eq!(manager.get_turn_summary(), "Turn 1: In progress (Player 1)");
    manager.current_turn.complete();
    assert_eq!(manager.get_turn_summary(), "Turn 1: Complete (Player 1)");
    manager.advance_turn();
    assert_eq!(manager.get_turn_summary(), "Turn 2: Waiting for player (Player 2)");
}

#[test]
fn unreadable_clock_stamps_zero() {
    assert_eq!(seconds_or_zero(Some(1_700_000_000)), 1_700_000_000);
    assert_eq!(seconds_or_zero(Some(0)), 0);
    assert_eq!(seconds_or_zero(Some(u64::MAX)), u64::MAX);
    assert_eq!(seconds_or_zero(None), 0);
}
