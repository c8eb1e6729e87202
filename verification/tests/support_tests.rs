use interstellar_command::database::JsonDatabase;
use interstellar_command::engine::game::GameState;
use interstellar_command::narrative::accept_remote_line;
use interstellar_command::narrative::clean_remote_text;
use interstellar_command::narrative::generate_event;
use interstellar_command::narrative::generate_stub_event;
use interstellar_command::narrative::narrative_prompt;
use interstellar_command::narrative::trim_text;

#[test]
fn stock_events_rotate_once() {
    assert_eq!(
        generate_stub_event(1),
        "The Martian Senate debates new trade regulations affecting the asteroid belt."
    );
    assert_eq!(generate_stub_event(4), "Pirates have been spotted near the outer rim territories.");
    assert_eq!(
        generate_stub_event(8),
        "The Earth Coalition announces new military funding initiatives."
    );
    assert_eq!(generate_stub_event(9), "");
    assert_eq!(generate_stub_event(1000), "");
}

#[test]
fn event_prefers_the_service_and_respects_the_switch() {
    assert_eq!(generate_event(true, Some("Storms gather.".to_string()), 1), "");
    assert_eq!(generate_event(true, None, 1), "");
    assert_eq!(generate_event(false, Some("Storms gather.".to_string()), 1), "Storms gather.");
    assert_eq!(
        generate_event(false, None, 2),
        "Solar flares from Sol temporarily disrupt long-range communications."
    );
    assert_eq!(generate_event(false, None, 20), "");
}

#[test]
fn service_lines_are_used_when_short_and_not_empty() {
    assert_eq!(accept_remote_line("Storms gather"), Some("Storms gather.".to_string()));
    assert_eq!(accept_remote_line(""), None);
    let long = "x".repeat(100);
    assert_eq!(accept_remote_line(&long), None);
    let just_fits = "x".repeat(99);
    assert_eq!(accept_remote_line(&just_fits), Some(format!("{}.", just_fits)));
}

#[test]
fn database_paths_hang_under_the_base() {
    let db = JsonDatabase::new("saves".to_string());
    assert_eq!(db.base_path, "saves");
    assert_eq!(db.state_path(), "saves/game_state.json");
    assert_eq!(db.player_view_path(0), "saves/player_0_view.dat");
    assert_eq!(db.player_view_path(1), "saves/player_1_view.dat");
}

#[test]
fn view_access_checks_id_and_password() {
    let state = GameState::new("A".to_string(), "abc", "B".to_string(), "", true);
    assert!(JsonDatabase::check_view_access(&state, 0, "abc").is_ok());
    assert_eq!(JsonDatabase::check_view_access(&state, 0, "nope").unwrap_err(), "Invalid password");
    assert!(JsonDatabase::check_view_access(&state, 1, "whatever").is_ok());
    assert_eq!(JsonDatabase::check_view_access(&state, 2, "abc").unwrap_err(), "Invalid player ID");
}

#[test]
fn trimming_removes_white_space_at_both_ends() {
    assert_eq!(trim_text("  calm  "), "calm");
    assert_eq!(trim_text("calm"), "calm");
    assert_eq!(trim_text(" \t\n "), "");
    assert_eq!(trim_text(""), "");
    assert_eq!(trim_text("\u{3000}two words\u{a0}\n"), "two words");
    for text in ["", " ", "a", " a", "a ", "  a b  ", "\t\r\n", " . ", "x\u{85}"] {
        assert_eq!(trim_text(text), text.trim());
    }
}

#[test]
fn service_text_is_cut_to_its_first_line_without_stops() {
    assert_eq!(clean_remote_text("  Storms gather.  "), "Storms gather");
    assert_eq!(clean_remote_text("Storms gather...\nMore follows."), "Storms gather");
    assert_eq!(clean_remote_text("Calm seas .. \n"), "Calm seas");
    assert_eq!(clean_remote_text("Calm seas. \nMore"), "Calm seas.");
    assert_eq!(clean_remote_text("\nSecond line only"), "Second line only");
    assert_eq!(clean_remote_text("   "), "");
    assert_eq!(clean_remote_text("..."), "");
    assert_eq!(clean_remote_text("a.b."), "a.b");
    for text in [
        "",
        ".",
        " . ",
        "One. Two.",
        "  lead\ntrail  ",
        "x \n y",
        "dots... \nnext",
        "tab\tend.\t",
        " \n ",
        "a\n",
    ] {
        let expected = text.trim().split('\n').next().unwrap_or("").trim_end_matches('.').trim();
        assert_eq!(clean_remote_text(text), expected);
    }
}

#[test]
fn prompt_describes_both_players() {
    let mut state = GameState::new_with_names("Cassia".to_string(), "Darrow".to_string(), true);
    state.sectors[0].owner = Some(0);
    state.sectors[1].owner = Some(0);
    state.sectors[7].owner = Some(1);
    state.players[1].gain_experience(100);
    assert_eq!(
        narrative_prompt(&state),
        "You are a narrator for Interstellar Command, a space strategy game inspired by Red Rising. \
        Generate ONE brief atmospheric event (under 20 words) based on this situation:\n\
        Turn 1: Legionnaire Cassia (Level 1, 1 ships) controls 2 sectors. \
        Centurion Darrow (Level 2, 2 ships) controls 1 sectors.\n\
        Recent: The solar empire awaits conquest...\n\
        Create flavor text about the solar empire, NOT game mechanics. Be dramatic and evocative."
    );
    state.event_log.clear();
    assert!(narrative_prompt(&state).contains("\nRecent: The campaign has begun\n"));
}
