use ncm_tui::app::{App, HandleOutcome};
use ncm_tui::config::{AppMode, Command, ParseError, ScreenEnum};
use ncm_tui::input::{KeyCode, KeyEvent, KeyEventKind};

fn press(code: KeyCode) -> Option<KeyEvent> {
    Some(KeyEvent { kind: KeyEventKind::Press, code })
}

fn buffer_text(app: &App) -> String {
    app.command_line.buffer.iter().collect()
}

#[test]
fn new_app_defaults() {
    let mut app = App::new();
    assert_eq!(app.current_screen, ScreenEnum::Main);
    assert_eq!(app.current_mode, AppMode::Normal);
    assert!(app.need_re_update_view);
    assert!(app.command_queue.is_empty());
    assert!(app.main_screen.playlist_name.is_none());
    assert_eq!(app.playback_label.iter().collect::<String>(), "--:--/--:--");
    // an empty queue and no input: the tick does nothing
    let out = app.handle_event(None, false);
    assert!(matches!(out, HandleOutcome::Continue));
    assert!(app.command_queue.is_empty());
}

#[test]
fn j_key_forwards_down_to_main_screen() {
    let mut app = App::new();
    let out = app.handle_event(press(KeyCode::Char('j')), false);
    // the Down was enqueued and dequeued within the same tick
    assert!(matches!(out, HandleOutcome::Forward(Command::Down)));
    assert!(app.command_queue.is_empty());
    assert_eq!(app.current_screen, ScreenEnum::Main);
    // the screen handler's result ORs into the dirty flag
    app.need_re_update_view = false;
    app.absorb_screen_result(true);
    assert!(app.need_re_update_view);
    // and the view re-renders exactly when dirty
    assert!(app.update_view());
    app.need_re_update_view = false;
    app.absorb_screen_result(false);
    assert!(!app.update_view());
}

#[test]
fn commands_dispatch_fifo_one_per_tick() {
    let mut app = App::new();
    // three keys arrive before any command is dispatched beyond the first
    app.get_command_from_key(KeyCode::Char('k'));
    app.get_command_from_key(KeyCode::Char('j'));
    app.get_command_from_key(KeyCode::Char('?'));
    assert_eq!(app.command_queue.len(), 3);
    let out1 = app.handle_event(None, false);
    assert!(matches!(out1, HandleOutcome::Forward(Command::Up)));
    assert_eq!(app.command_queue.len(), 2);
    let out2 = app.handle_event(None, false);
    assert!(matches!(out2, HandleOutcome::Forward(Command::Down)));
    assert_eq!(app.command_queue.len(), 1);
    let out3 = app.handle_event(None, false);
    assert!(matches!(out3, HandleOutcome::Continue));
    assert!(app.command_queue.is_empty());
}

#[test]
fn quit_halts_without_executing_later_commands() {
    let mut app = App::new();
    app.get_command_from_key(KeyCode::Char('q'));
    app.get_command_from_key(KeyCode::Char('0'));
    let before_screen = app.current_screen;
    let out = app.handle_event(None, false);
    assert!(matches!(out, HandleOutcome::Quit));
    // the GotoScreen(Help) queued behind the Quit was not executed
    assert_eq!(app.current_screen, before_screen);
    assert_eq!(app.command_queue.len(), 1);
    assert!(matches!(
        app.command_queue.front(),
        Some(Command::GotoScreen(ScreenEnum::Help))
    ));
}

#[test]
fn goto_login_rejected_while_authenticated() {
    let mut app = App::new();
    app.switch_screen(ScreenEnum::Login, true);
    assert_eq!(app.current_screen, ScreenEnum::Main);
    assert_eq!(buffer_text(&app), "you have to logout from current account first!");

    let mut app = App::new();
    app.need_re_update_view = false;
    app.switch_screen(ScreenEnum::Login, false);
    assert_eq!(app.current_screen, ScreenEnum::Login);
    assert!(app.need_re_update_view);
    assert_eq!(buffer_text(&app), "");
}

#[test]
fn help_screen_update_never_dirty() {
    let mut app = App::new();
    app.switch_screen(ScreenEnum::Help, false);
    app.update_model(true, false, None, None, None);
    assert!(!app.need_re_update_view);
    // and the view decision never refreshes the static help screen
    assert!(!app.update_view());
}

#[test]
fn unmapped_key_enqueues_one_nop_and_changes_nothing() {
    let mut app = App::new();
    app.get_command_from_key(KeyCode::Char('?'));
    assert_eq!(app.command_queue.len(), 1);
    assert!(matches!(app.command_queue.front(), Some(Command::Nop)));
    assert_eq!(app.current_screen, ScreenEnum::Main);
    assert_eq!(app.current_mode, AppMode::Normal);
    assert!(app.need_re_update_view);
    assert_eq!(buffer_text(&app), "");

    // a whole tick on an unmapped key leaves the state as it was
    let mut app2 = App::new();
    let out = app2.handle_event(press(KeyCode::Other), false);
    assert!(matches!(out, HandleOutcome::Continue));
    assert!(app2.command_queue.is_empty());
    assert_eq!(app2.current_screen, ScreenEnum::Main);
    assert_eq!(app2.current_mode, AppMode::Normal);
}

#[test]
fn parse_quit_token() {
    let text: Vec<char> = ":quit".chars().collect();
    assert!(matches!(Command::parse(&text), Ok(Command::Quit)));
    let text: Vec<char> = "quit".chars().collect();
    assert!(matches!(Command::parse(&text), Ok(Command::Quit)));
}

#[test]
fn parse_tokens_cover_vocabulary() {
    let cases: Vec<(&str, Command)> = vec![
        ("logout", Command::Logout),
        ("main", Command::GotoScreen(ScreenEnum::Main)),
        ("login", Command::GotoScreen(ScreenEnum::Login)),
        ("help", Command::GotoScreen(ScreenEnum::Help)),
        ("play", Command::Play),
        ("next", Command::NextTrack),
        ("prev", Command::PrevTrack),
    ];
    for (text, expected) in cases {
        let chars: Vec<char> = text.chars().collect();
        let got = Command::parse(&chars).unwrap();
        match (got, expected) {
            (Command::Logout, Command::Logout) => {}
            (Command::GotoScreen(a), Command::GotoScreen(b)) => assert_eq!(a, b),
            (Command::Play, Command::Play) => {}
            (Command::NextTrack, Command::NextTrack) => {}
            (Command::PrevTrack, Command::PrevTrack) => {}
            _ => panic!("wrong parse for {text}"),
        }
    }
}

#[test]
fn parse_unknown_token_is_error() {
    let text: Vec<char> = ":frobnicate".chars().collect();
    assert!(matches!(
        Command::parse(&text),
        Err(ParseError::UnknownCommand)
    ));
    let empty: Vec<char> = Vec::new();
    assert!(matches!(Command::parse(&empty), Err(ParseError::UnknownCommand)));
}

#[test]
fn failed_parse_replaces_buffer_with_error_message() {
    let mut app = App::new();
    // enter command mode, type a bogus command, press Enter
    let out = app.handle_event(press(KeyCode::Char(':')), false);
    assert!(matches!(out, HandleOutcome::Continue));
    assert_eq!(app.current_mode, AppMode::CommandEntry);
    for c in "bogus".chars() {
        app.handle_event(press(KeyCode::Char(c)), false);
    }
    assert_eq!(buffer_text(&app), "bogus");
    app.handle_event(press(KeyCode::Enter), false);
    assert_eq!(app.current_mode, AppMode::Normal);
    // nothing was enqueued and the buffer shows the error in place
    assert!(app.command_queue.is_empty());
    assert_eq!(buffer_text(&app), "unknown command");
}

#[test]
fn successful_parse_enqueues_and_clears() {
    let mut app = App::new();
    app.handle_event(press(KeyCode::Char(':')), false);
    for c in "quit".chars() {
        app.handle_event(press(KeyCode::Char(c)), false);
    }
    let out = app.handle_event(press(KeyCode::Enter), false);
    // the Quit parsed from the text is dispatched on this same tick
    assert!(matches!(out, HandleOutcome::Quit));
    assert_eq!(app.current_mode, AppMode::Normal);
    assert_eq!(buffer_text(&app), "");
}

#[test]
fn command_entry_esc_roundtrip() {
    let mut app = App::new();
    let out = app.handle_event(press(KeyCode::Char(':')), false);
    assert!(matches!(out, HandleOutcome::Continue));
    assert_eq!(app.current_mode, AppMode::CommandEntry);
    assert_eq!(buffer_text(&app), "");
    assert_eq!(app.command_line.prompt.iter().collect::<String>(), ":");
    for c in "playx".chars() {
        app.handle_event(press(KeyCode::Char(c)), false);
    }
    assert_eq!(buffer_text(&app), "playx");
    // backspace edits the buffer in place
    app.handle_event(press(KeyCode::Backspace), false);
    assert_eq!(buffer_text(&app), "play");
    // Esc discards the text and returns to Normal mode, enqueueing nothing
    let out = app.handle_event(press(KeyCode::Esc), false);
    assert!(matches!(out, HandleOutcome::Continue));
    assert_eq!(app.current_mode, AppMode::Normal);
    assert_eq!(buffer_text(&app), "");
    assert!(app.command_queue.is_empty());
}

#[test]
fn release_events_are_ignored() {
    let mut app = App::new();
    let out = app.handle_event(
        Some(KeyEvent { kind: KeyEventKind::Release, code: KeyCode::Char('q') }),
        false,
    );
    assert!(matches!(out, HandleOutcome::Continue));
    assert!(app.command_queue.is_empty());
}

#[test]
fn login_success_rebuilds_main_model() {
    let mut app = App::new();
    app.switch_screen(ScreenEnum::Login, false);
    app.need_re_update_view = false;
    app.update_model(false, true, Some(String::from("my favorites")), None, None);
    assert_eq!(app.current_screen, ScreenEnum::Main);
    assert!(app.need_re_update_view);
    assert_eq!(app.main_screen.playlist_name.as_deref(), Some("my favorites"));

    // without favorite data the model is still rebuilt, empty
    let mut app = App::new();
    app.switch_screen(ScreenEnum::Login, false);
    app.main_screen.playlist_name = Some(String::from("stale"));
    app.update_model(false, true, None, None, None);
    assert_eq!(app.current_screen, ScreenEnum::Main);
    assert!(app.main_screen.playlist_name.is_none());
}

#[test]
fn login_screen_update_without_login_keeps_screen() {
    let mut app = App::new();
    app.switch_screen(ScreenEnum::Login, false);
    app.update_model(false, false, None, None, None);
    assert_eq!(app.current_screen, ScreenEnum::Login);
    assert!(!app.need_re_update_view);
    app.update_model(true, false, None, None, None);
    assert!(app.need_re_update_view);
}

#[test]
fn logout_outcome_and_enter_command_prompt() {
    let mut app = App::new();
    let text: Vec<char> = "logout".chars().collect();
    let cmd = Command::parse(&text).unwrap();
    app.command_queue.push_back(cmd);
    let out = app.handle_event(None, true);
    assert!(matches!(out, HandleOutcome::Logout));
    // cursor shows only in CommandEntry mode
    app.update_view();
    assert!(!app.command_line.cursor_visible);
    app.handle_event(press(KeyCode::Char(':')), true);
    app.update_view();
    assert!(app.command_line.cursor_visible);
}
