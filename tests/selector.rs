use ams::{command_for_key, App, Command, Key, Session, SessionStatus, TmuxError};

fn session(name: &str) -> Session {
    Session {
        name: name.to_string(),
        status: SessionStatus::Idle,
        working_directory: "/w".to_string(),
        last_activity: 0,
        created_at: 0,
        window_count: 1,
    }
}

fn loaded(names: &[&str]) -> App {
    let mut app = App::new();
    app.refresh_sessions(Ok(names.iter().map(|n| session(n)).collect()));
    app
}

#[test]
fn new_selector_is_empty() {
    let app = App::default();
    assert!(app.sessions().is_empty());
    assert_eq!(app.selected_index(), None);
    assert!(!app.should_quit());
    assert_eq!(app.selected_session(), None);
}

#[test]
fn next_wraps_from_last_to_first() {
    let mut app = loaded(&["a", "b", "c"]);
    assert_eq!(app.selected_index(), Some(0));
    app.next();
    app.next();
    assert_eq!(app.selected_index(), Some(2));
    app.next();
    assert_eq!(app.selected_index(), Some(0));
}

#[test]
fn previous_wraps_from_first_to_last() {
    let mut app = loaded(&["a", "b", "c"]);
    app.previous();
    assert_eq!(app.selected_index(), Some(2));
    app.previous();
    assert_eq!(app.selected_index(), Some(1));
}

#[test]
fn navigation_on_empty_list_does_nothing() {
    let mut app = App::new();
    app.next();
    assert_eq!(app.selected_index(), None);
    app.previous();
    assert_eq!(app.selected_index(), None);
}

#[test]
fn confirm_takes_highlighted_name() {
    let mut app = loaded(&["a", "b"]);
    app.next();
    app.select_current();
    assert_eq!(app.selected_session(), Some("b".to_string()));
    assert!(app.should_quit());
}

#[test]
fn confirm_without_highlight_changes_nothing() {
    let mut app = App::new();
    app.select_current();
    assert_eq!(app.selected_session(), None);
    assert!(!app.should_quit());
}

#[test]
fn refresh_to_empty_clears_highlight() {
    let mut app = loaded(&["a", "b"]);
    app.next();
    app.refresh_sessions(Err(TmuxError::ServerNotRunning));
    assert!(app.sessions().is_empty());
    assert_eq!(app.selected_index(), None);
    app.refresh_sessions(Ok(vec![session("x")]));
    assert_eq!(app.selected_index(), Some(0));
}

#[test]
fn refresh_keeps_existing_highlight() {
    let mut app = loaded(&["a", "b", "c"]);
    app.next();
    app.refresh_sessions(Ok(vec![session("x"), session("y")]));
    assert_eq!(app.selected_index(), Some(1));
    assert_eq!(app.sessions()[1].name, "y");
}

#[test]
fn quit_leaves_no_selection() {
    let mut app = loaded(&["a"]);
    app.quit();
    assert!(app.should_quit());
    assert_eq!(app.selected_session(), None);
}

#[test]
fn keys_map_to_commands() {
    assert_eq!(command_for_key(Key::Char('q'), true), Command::Quit);
    assert_eq!(command_for_key(Key::Esc, true), Command::Quit);
    assert_eq!(command_for_key(Key::Char('j'), true), Command::Next);
    assert_eq!(command_for_key(Key::Down, true), Command::Next);
    assert_eq!(command_for_key(Key::Char('k'), true), Command::Previous);
    assert_eq!(command_for_key(Key::Up, true), Command::Previous);
    assert_eq!(command_for_key(Key::Enter, true), Command::Confirm);
    assert_eq!(command_for_key(Key::Char('r'), true), Command::Refresh);
    assert_eq!(command_for_key(Key::Char('x'), true), Command::Ignore);
    assert_eq!(command_for_key(Key::Other, true), Command::Ignore);
    assert_eq!(command_for_key(Key::Char('q'), false), Command::Ignore);
}

#[test]
fn handle_dispatches_commands() {
    let mut app = loaded(&["a", "b"]);
    assert!(!app.handle(Command::Next));
    assert_eq!(app.selected_index(), Some(1));
    assert!(app.handle(Command::Refresh));
    assert_eq!(app.selected_index(), Some(1));
    assert!(!app.handle(Command::Confirm));
    assert_eq!(app.selected_session(), Some("b".to_string()));
}
