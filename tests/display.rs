use ams::display::{format_relative_time, list_header, list_row, relative_time, table_row};
use ams::text::{decimal_text, head_text, pad_right, parse_i64, parse_u32, tail_text, text_contains};
use ams::{truncate, Session, SessionStatus};

#[test]
fn relative_time_steps() {
    assert_eq!(relative_time(1000, 1000), "just now");
    assert_eq!(relative_time(1059, 1000), "just now");
    assert_eq!(relative_time(900, 1000), "just now");
    assert_eq!(relative_time(1060, 1000), "1 minute ago");
    assert_eq!(relative_time(1000 + 150, 1000), "2 minutes ago");
    assert_eq!(relative_time(1000 + 3600, 1000), "1 hour ago");
    assert_eq!(relative_time(1000 + 5 * 3600 + 10, 1000), "5 hours ago");
    assert_eq!(relative_time(1000 + 86400, 1000), "1 day ago");
    assert_eq!(relative_time(1000 + 3 * 86400, 1000), "3 days ago");
}

#[test]
fn relative_time_of_now_is_recent() {
    assert_eq!(format_relative_time(i64::MAX / 2), "just now");
}

#[test]
fn truncate_keeps_start() {
    assert_eq!(truncate("short", 20), "short");
    assert_eq!(truncate("abcdefghij", 10), "abcdefghij");
    assert_eq!(truncate("abcdefghijk", 10), "abcdefg...");
}

#[test]
fn head_tail_and_padding() {
    assert_eq!(head_text("abcdef", 3), "abc");
    assert_eq!(tail_text("abcdef", 3), "def");
    assert_eq!(tail_text("ab", 3), "ab");
    assert_eq!(pad_right("ab", 5), "ab   ");
    assert_eq!(pad_right("abcdef", 3), "abcdef");
}

#[test]
fn numbers_in_and_out() {
    assert_eq!(decimal_text(0), "0");
    assert_eq!(decimal_text(1234567890), "1234567890");
    assert_eq!(parse_u32("007"), Some(7));
    assert_eq!(parse_u32("+"), None);
    assert_eq!(parse_u32(""), None);
    assert_eq!(parse_u32(" 1"), None);
    assert_eq!(parse_i64("-9223372036854775808"), Some(i64::MIN));
    assert_eq!(parse_i64("9223372036854775808"), None);
    assert!(text_contains("error: no server running on /tmp", "no server running"));
    assert!(!text_contains("no serve", "no server"));
}

#[test]
fn list_lines() {
    let s = Session {
        name: "a-very-long-session-name".to_string(),
        status: SessionStatus::Active,
        working_directory: "/home/user".to_string(),
        last_activity: 1000,
        created_at: 900,
        window_count: 3,
    };
    let expected = format!(
        "{:<20} {:<8} {:<35} {}",
        "a-very-long-sessi...", "Active", "/home/user", "2 hours ago"
    );
    assert_eq!(list_row(&s, 1000 + 7200), expected);
    let header = format!("{:<20} {:<8} {:<35} LAST ACTIVITY", "NAME", "STATUS", "WORKING DIR");
    assert_eq!(list_header(), header);
}

#[test]
fn table_cells_keep_directory_end() {
    let dir = format!("/{}", "d".repeat(50));
    let s = Session {
        name: "n".to_string(),
        status: SessionStatus::Idle,
        working_directory: dir.clone(),
        last_activity: 0,
        created_at: 0,
        window_count: 12,
    };
    let cells = table_row(&s);
    assert_eq!(cells, vec!["n".to_string(), "Idle".to_string(), "12".to_string(), dir[11..].to_string()]);
}
