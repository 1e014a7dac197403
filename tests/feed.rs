use ams::{parse_sessions, session_from_fields, SessionStatus, TmuxError};

fn parse_error(text: &str) -> String {
    match parse_sessions(text) {
        Err(TmuxError::ParseError(m)) => m,
        other => panic!("expected a parse error, got {:?}", other),
    }
}

#[test]
fn test_parse_sessions_empty() {
    let result = parse_sessions("").unwrap();
    assert!(result.is_empty());
}

#[test]
fn test_parse_sessions_single() {
    let output = "test-session\t0\t1704067200\t1704067200\t/home/user/project\t1";
    let sessions = parse_sessions(output).unwrap();
    assert_eq!(sessions.len(), 1);
    assert_eq!(sessions[0].name, "test-session");
    assert_eq!(sessions[0].status, SessionStatus::Idle);
    assert_eq!(sessions[0].window_count, 1);
}

#[test]
fn test_parse_sessions_active() {
    let output = "active-session\t1\t1704067200\t1704067200\t/home/user/project\t2";
    let sessions = parse_sessions(output).unwrap();
    assert_eq!(sessions.len(), 1);
    assert_eq!(sessions[0].status, SessionStatus::Active);
}

#[test]
fn blank_lines_only_give_nothing() {
    assert!(parse_sessions("\n  \n\t\n\r\n").unwrap().is_empty());
    assert!(parse_sessions("   ").unwrap().is_empty());
}

#[test]
fn idle_example_line() {
    let s = parse_sessions("s1\t0\t1704067200\t1704067200\t/home/user/project\t1").unwrap();
    assert_eq!(s.len(), 1);
    assert_eq!(s[0].name, "s1");
    assert_eq!(s[0].status, SessionStatus::Idle);
    assert_eq!(s[0].window_count, 1);
}

#[test]
fn active_example_line_and_all_fields() {
    let s = parse_sessions("s2\t1\t1704067200\t1704060000\t/home/user/project\t2").unwrap();
    assert_eq!(s[0].status, SessionStatus::Active);
    assert_eq!(s[0].last_activity, 1704067200);
    assert_eq!(s[0].created_at, 1704060000);
    assert_eq!(s[0].working_directory, "/home/user/project");
    assert_eq!(s[0].window_count, 2);
}

#[test]
fn lines_keep_their_order_and_blank_lines_are_skipped() {
    let text = "a\t0\t1\t1\t/a\t1\r\n\n   \nb\t3\t2\t2\t/b\t4\n";
    let s = parse_sessions(text).unwrap();
    assert_eq!(s.len(), 2);
    assert_eq!(s[0].name, "a");
    assert_eq!(s[0].window_count, 1);
    assert_eq!(s[1].name, "b");
    assert_eq!(s[1].status, SessionStatus::Active);
    assert_eq!(s[1].window_count, 4);
}

#[test]
fn extra_fields_are_ignored() {
    let s = parse_sessions("a\t0\t1\t1\t/a\t1\textra").unwrap();
    assert_eq!(s.len(), 1);
}

#[test]
fn short_line_fails_whole_parse() {
    let text = "good\t0\t1\t1\t/a\t1\nbad\t0\t1";
    assert_eq!(parse_error(text), "Expected 6 fields, got 3: bad\t0\t1");
}

#[test]
fn bad_attached_count_is_named() {
    let m = parse_error("a\tx1\t1\t1\t/a\t1");
    assert_eq!(m, "Invalid attached count: x1");
}

#[test]
fn bad_timestamps_are_named() {
    assert_eq!(parse_error("a\t0\t-\t1\t/a\t1"), "Invalid activity timestamp: -");
    assert_eq!(parse_error("a\t0\t1\t1.5\t/a\t1"), "Invalid created timestamp: 1.5");
}

#[test]
fn bad_window_count_is_named() {
    assert_eq!(parse_error("a\t0\t1\t1\t/a\t-1"), "Invalid window count: -1");
}

#[test]
fn out_of_range_epoch_is_rejected() {
    assert_eq!(
        parse_error("a\t0\t9223372036854775807\t1\t/a\t1"),
        "Invalid activity epoch: 9223372036854775807"
    );
    assert_eq!(
        parse_error("a\t0\t1\t-9223372036854775808\t/a\t1"),
        "Invalid created epoch: -9223372036854775808"
    );
}

#[test]
fn signs_and_limits_of_numbers() {
    let s = parse_sessions("a\t+2\t-5\t+7\t/a\t4294967295").unwrap();
    assert_eq!(s[0].status, SessionStatus::Active);
    assert_eq!(s[0].last_activity, -5);
    assert_eq!(s[0].created_at, 7);
    assert_eq!(s[0].window_count, 4294967295);
    assert_eq!(parse_error("a\t0\t1\t1\t/a\t4294967296"), "Invalid window count: 4294967296");
    assert_eq!(parse_error("a\t-0\t1\t1\t/a\t1"), "Invalid attached count: -0");
}

#[test]
fn reparsing_gives_equal_sessions() {
    let text = "a\t0\t1704067200\t1704067200\t/a\t1\nb\t2\t1704067201\t1704067100\t/b\t3";
    let first = parse_sessions(text).unwrap();
    let second = parse_sessions(text).unwrap();
    assert_eq!(first.len(), second.len());
    for (x, y) in first.iter().zip(second.iter()) {
        assert_eq!(x.name, y.name);
        assert_eq!(x.status, y.status);
        assert_eq!(x.working_directory, y.working_directory);
        assert_eq!(x.last_activity, y.last_activity);
        assert_eq!(x.created_at, y.created_at);
        assert_eq!(x.window_count, y.window_count);
    }
}

#[test]
fn record_from_read_fields() {
    let s = session_from_fields("a", 0, 5, 6, "/d", "3", true, true).unwrap();
    assert_eq!(s.name, "a");
    assert_eq!(s.status, SessionStatus::Idle);
    assert_eq!(s.last_activity, 5);
    assert_eq!(s.created_at, 6);
    assert_eq!(s.working_directory, "/d");
    assert_eq!(s.window_count, 3);
    assert_eq!(
        session_from_fields("a", 0, -5, 6, "/d", "3", false, false).unwrap_err(),
        "Invalid activity epoch: -5"
    );
    assert_eq!(
        session_from_fields("a", 0, 5, 6, "/d", "3", true, false).unwrap_err(),
        "Invalid created epoch: 6"
    );
    assert_eq!(
        session_from_fields("a", 0, 5, 6, "/d", "x", true, true).unwrap_err(),
        "Invalid window count: x"
    );
}
