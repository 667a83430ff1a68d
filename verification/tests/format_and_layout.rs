use ncm_tui::app::App;
use ncm_tui::config::{Command, ScreenEnum};
use ncm_tui::input::{keymap, KeyCode};
use ncm_tui::layout::{split_frame, Rect};
use ncm_tui::playback::{format_playback_label, idle_label};

fn text(v: &Vec<char>) -> String {
    v.iter().collect()
}

#[test]
fn playback_label_formats_mm_ss() {
    assert_eq!(text(&format_playback_label(0, 0)), "00:00/00:00");
    assert_eq!(text(&format_playback_label(75, 300)), "01:15/05:00");
    assert_eq!(text(&format_playback_label(59, 60)), "00:59/01:00");
    assert_eq!(text(&format_playback_label(600, 3599)), "10:00/59:59");
    // minutes above two digits keep all their digits, as the original
    // zero-pad-to-two formatting does
    assert_eq!(text(&format_playback_label(3661, 7200)), "61:01/120:00");
}

#[test]
fn idle_label_text() {
    assert_eq!(text(&idle_label()), "--:--/--:--");
}

#[test]
fn playback_label_updates_only_with_position_and_duration() {
    let mut app = App::new();
    app.update_model(false, false, None, Some(75), Some(300));
    assert_eq!(text(&app.playback_label), "01:15/05:00");
    // a missing duration leaves the readout as it was
    app.update_model(false, false, None, Some(90), None);
    assert_eq!(text(&app.playback_label), "01:15/05:00");
    app.update_model(false, false, None, None, Some(300));
    assert_eq!(text(&app.playback_label), "01:15/05:00");
}

#[test]
fn frame_layout_normal_terminal() {
    let c = split_frame(Rect { x: 0, y: 0, width: 80, height: 24 });
    assert_eq!(c.screen, Rect { x: 0, y: 0, width: 80, height: 20 });
    assert_eq!(c.reserved, Rect { x: 0, y: 20, width: 26, height: 3 });
    assert_eq!(c.gauge, Rect { x: 26, y: 20, width: 54, height: 3 });
    assert_eq!(c.command_line, Rect { x: 0, y: 23, width: 80, height: 1 });
}

#[test]
fn frame_layout_offset_and_tiny() {
    let c = split_frame(Rect { x: 5, y: 2, width: 40, height: 7 });
    assert_eq!(c.screen, Rect { x: 5, y: 2, width: 40, height: 3 });
    assert_eq!(c.gauge, Rect { x: 31, y: 5, width: 14, height: 3 });
    assert_eq!(c.command_line, Rect { x: 5, y: 8, width: 40, height: 1 });

    // a frame too short for all three regions shrinks from the bottom up
    let c = split_frame(Rect { x: 0, y: 0, width: 10, height: 2 });
    assert_eq!(c.screen.height, 2);
    assert_eq!(c.gauge.height, 0);
    assert_eq!(c.command_line.height, 0);
}

#[test]
fn keymap_table_matches_bindings() {
    let cases: Vec<(KeyCode, Command)> = vec![
        (KeyCode::Char('k'), Command::Up),
        (KeyCode::Up, Command::Up),
        (KeyCode::Char('j'), Command::Down),
        (KeyCode::Down, Command::Down),
        (KeyCode::Char(' '), Command::TogglePlay),
        (KeyCode::Char(','), Command::PrevTrack),
        (KeyCode::Char('.'), Command::NextTrack),
        (KeyCode::Enter, Command::Play),
        (KeyCode::Esc, Command::Esc),
        (KeyCode::Char('r'), Command::ToggleRepeat),
        (KeyCode::Char('s'), Command::ToggleShuffle),
        (KeyCode::Char('g'), Command::GotoTop),
        (KeyCode::Char('G'), Command::GotoBottom),
        (KeyCode::Right, Command::NextPanel),
        (KeyCode::Tab, Command::NextPanel),
        (KeyCode::Left, Command::PrevPanel),
        (KeyCode::BackTab, Command::PrevPanel),
        (KeyCode::Char('1'), Command::GotoScreen(ScreenEnum::Main)),
        (KeyCode::Char('0'), Command::GotoScreen(ScreenEnum::Help)),
        (KeyCode::F(1), Command::GotoScreen(ScreenEnum::Help)),
        (KeyCode::Char('n'), Command::NewPlaylist(None)),
        (KeyCode::Char('p'), Command::PlaylistAdd),
        (KeyCode::Char('x'), Command::SelectPlaylist),
        (KeyCode::Char('q'), Command::Quit),
        (KeyCode::Char(':'), Command::EnterCommand),
        (KeyCode::F(5), Command::Nop),
        (KeyCode::Char('Z'), Command::Nop),
        (KeyCode::Backspace, Command::Nop),
        (KeyCode::Other, Command::Nop),
    ];
    for (key, expected) in cases {
        let got = keymap(key);
        let same = match (&got, &expected) {
            (Command::Up, Command::Up) => true,
            (Command::Down, Command::Down) => true,
            (Command::TogglePlay, Command::TogglePlay) => true,
            (Command::PrevTrack, Command::PrevTrack) => true,
            (Command::NextTrack, Command::NextTrack) => true,
            (Command::Play, Command::Play) => true,
            (Command::Esc, Command::Esc) => true,
            (Command::ToggleRepeat, Command::ToggleRepeat) => true,
            (Command::ToggleShuffle, Command::ToggleShuffle) => true,
            (Command::GotoTop, Command::GotoTop) => true,
            (Command::GotoBottom, Command::GotoBottom) => true,
            (Command::NextPanel, Command::NextPanel) => true,
            (Command::PrevPanel, Command::PrevPanel) => true,
            (Command::GotoScreen(a), Command::GotoScreen(b)) => a == b,
            (Command::NewPlaylist(a), Command::NewPlaylist(b)) => a == b,
            (Command::PlaylistAdd, Command::PlaylistAdd) => true,
            (Command::SelectPlaylist, Command::SelectPlaylist) => true,
            (Command::Quit, Command::Quit) => true,
            (Command::EnterCommand, Command::EnterCommand) => true,
            (Command::Nop, Command::Nop) => true,
            _ => false,
        };
        assert!(same, "wrong command for {key:?}: {got:?}");
    }
}
