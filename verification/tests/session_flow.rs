use music_tui::audio::{AudioSession, PlayMode, PlaybackError};
use music_tui::control::{process, Step};
use music_tui::input::{dispatch, Command, KeyInput};
use music_tui::selection::Selection;

fn entry_list() -> Vec<String> {
    vec![
        String::from("a.mp3"),
        String::from("b.mp3"),
        String::from("c.mp3"),
    ]
}

fn send(
    key: KeyInput,
    entries: &Vec<String>,
    sel: &mut Selection,
    session: &mut AudioSession,
) -> Step {
    let cmd = dispatch(key);
    process(cmd, entries, sel, session)
}

#[test]
fn keymap_matches_the_table() {
    assert_eq!(dispatch(KeyInput::Char('q')), Command::Quit);
    assert_eq!(dispatch(KeyInput::Char('j')), Command::MoveNext);
    assert_eq!(dispatch(KeyInput::Char('k')), Command::MovePrev);
    assert_eq!(dispatch(KeyInput::Char('g')), Command::MoveFirst);
    assert_eq!(dispatch(KeyInput::Char('G')), Command::MoveLast);
    assert_eq!(dispatch(KeyInput::Char('h')), Command::SeekBackward);
    assert_eq!(dispatch(KeyInput::Char('l')), Command::SeekForward);
    assert_eq!(dispatch(KeyInput::Char('c')), Command::TogglePauseResume);
    assert_eq!(dispatch(KeyInput::Char('x')), Command::Stop);
    assert_eq!(dispatch(KeyInput::Esc), Command::Unselect);
    assert_eq!(dispatch(KeyInput::Enter), Command::Activate);
}

#[test]
fn unmapped_symbols_are_noop() {
    assert_eq!(dispatch(KeyInput::Char('z')), Command::Noop);
    assert_eq!(dispatch(KeyInput::Char('J')), Command::Noop);
    assert_eq!(dispatch(KeyInput::Char(' ')), Command::Noop);
    assert_eq!(dispatch(KeyInput::Other), Command::Noop);
}

#[test]
fn navigate_activate_stop_quit_scenario() {
    let entries = entry_list();
    let mut sel = Selection::new(entries.len());
    let mut session = AudioSession::new();

    let step = send(KeyInput::Char('j'), &entries, &mut sel, &mut session);
    assert!(matches!(step, Step::Continue));
    assert_eq!(sel.selected(), Some(0));

    let step = send(KeyInput::Char('j'), &entries, &mut sel, &mut session);
    assert!(matches!(step, Step::Continue));
    assert_eq!(sel.selected(), Some(1));

    let step = send(KeyInput::Enter, &entries, &mut sel, &mut session);
    let path = match step {
        Step::StartPlayback(p) => p,
        _ => panic!("activate with a selection must start playback"),
    };
    assert_eq!(path, "b.mp3");
    session.play(path, Ok(())).unwrap();
    assert_eq!(session.current_mode(), PlayMode::Playing);
    assert_eq!(session.queued_track().map(|p| p.as_str()), Some("b.mp3"));

    let step = send(KeyInput::Char('x'), &entries, &mut sel, &mut session);
    assert!(matches!(step, Step::Continue));
    assert_eq!(session.current_mode(), PlayMode::Stopped);
    assert!(session.queued_track().is_none());

    let step = send(KeyInput::Char('q'), &entries, &mut sel, &mut session);
    assert!(matches!(step, Step::Quit));
}

#[test]
fn failed_play_keeps_the_loop_running_and_the_mode_unchanged() {
    let entries = entry_list();
    let mut sel = Selection::new(entries.len());
    let mut session = AudioSession::new();

    send(KeyInput::Char('j'), &entries, &mut sel, &mut session);
    let step = send(KeyInput::Enter, &entries, &mut sel, &mut session);
    let path = match step {
        Step::StartPlayback(p) => p,
        _ => panic!("activate with a selection must start playback"),
    };
    let before = session.current_mode();
    let r = session.play(path, Err(PlaybackError::NotFound));
    assert_eq!(r, Err(PlaybackError::NotFound));
    assert_eq!(session.current_mode(), before);

    let step = send(KeyInput::Char('j'), &entries, &mut sel, &mut session);
    assert!(matches!(step, Step::Continue));
    assert_eq!(sel.selected(), Some(1));
}

#[test]
fn activate_without_a_selection_does_nothing() {
    let entries = entry_list();
    let mut sel = Selection::new(entries.len());
    let mut session = AudioSession::new();

    let step = send(KeyInput::Enter, &entries, &mut sel, &mut session);
    assert!(matches!(step, Step::Continue));
    assert_eq!(session.current_mode(), PlayMode::Stopped);
}

#[test]
fn seek_keys_are_reserved_and_do_nothing() {
    let entries = entry_list();
    let mut sel = Selection::new(entries.len());
    let mut session = AudioSession::new();
    send(KeyInput::Char('j'), &entries, &mut sel, &mut session);
    session.play(String::from("a.mp3"), Ok(())).unwrap();

    let step = send(KeyInput::Char('h'), &entries, &mut sel, &mut session);
    assert!(matches!(step, Step::Continue));
    let step = send(KeyInput::Char('l'), &entries, &mut sel, &mut session);
    assert!(matches!(step, Step::Continue));
    assert_eq!(sel.selected(), Some(0));
    assert_eq!(session.current_mode(), PlayMode::Playing);
    assert_eq!(session.queued_track().map(|p| p.as_str()), Some("a.mp3"));
}

#[test]
fn navigation_commands_leave_the_session_alone() {
    let entries = entry_list();
    let mut sel = Selection::new(entries.len());
    let mut session = AudioSession::new();
    session.play(String::from("c.mp3"), Ok(())).unwrap();

    send(KeyInput::Char('j'), &entries, &mut sel, &mut session);
    send(KeyInput::Char('G'), &entries, &mut sel, &mut session);
    assert_eq!(sel.selected(), Some(2));
    send(KeyInput::Char('g'), &entries, &mut sel, &mut session);
    assert_eq!(sel.selected(), Some(0));
    send(KeyInput::Esc, &entries, &mut sel, &mut session);
    assert_eq!(sel.selected(), None);
    assert_eq!(session.current_mode(), PlayMode::Playing);
    assert_eq!(session.queued_track().map(|p| p.as_str()), Some("c.mp3"));
}

#[test]
fn toggle_key_round_trips_the_mode() {
    let entries = entry_list();
    let mut sel = Selection::new(entries.len());
    let mut session = AudioSession::new();
    session.play(String::from("a.mp3"), Ok(())).unwrap();

    send(KeyInput::Char('c'), &entries, &mut sel, &mut session);
    assert_eq!(session.current_mode(), PlayMode::Paused);
    send(KeyInput::Char('c'), &entries, &mut sel, &mut session);
    assert_eq!(session.current_mode(), PlayMode::Playing);
}
