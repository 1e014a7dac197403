//! The text shown for sessions: rows of the plain listing, cells of the
//! selector's table, and how long ago something happened.

use vstd::prelude::*;
use crate::session::{Session, SessionView, status_name};
use crate::text::{
    decimal, decimal_text, head, head_text, pad_right, padded, tail, tail_text, truncate,
    truncated,
};

verus! {

/// Width of the name column of the listing.
pub const NAME_WIDTH: usize = 20;

/// Width of the status column of the listing.
pub const STATUS_WIDTH: usize = 8;

/// Width of the working-directory column of the listing.
pub const DIR_WIDTH: usize = 35;

/// How many trailing characters of a working directory the selector shows.
pub const TABLE_DIR_WIDTH: usize = 40;

/// How long ago something happened, `elapsed` seconds back.
pub open spec fn relative_text(elapsed: int) -> Seq<char> {
    if elapsed < 60 {
        "just now"@
    } else if elapsed / 60 < 60 {
        if elapsed / 60 == 1 {
            "1 minute ago"@
        } else {
            decimal((elapsed / 60) as nat) + " minutes ago"@
        }
    } else if elapsed / 3600 < 24 {
        if elapsed / 3600 == 1 {
            "1 hour ago"@
        } else {
            decimal((elapsed / 3600) as nat) + " hours ago"@
        }
    } else if elapsed / 86400 == 1 {
        "1 day ago"@
    } else {
        decimal((elapsed / 86400) as nat) + " days ago"@
    }
}

fn count_ago(n: u64, unit: &str) -> (r: String)
    ensures
        r@ == decimal(n as nat) + unit@,
{
    let mut r = decimal_text(n);
    r.append(unit);
    r
}

/// How long before `now` the instant `then` was, both in seconds since
/// the epoch.
pub fn relative_time(now: i64, then: i64) -> (r: String)
    ensures
        r@ == relative_text(now - then),
{
    let elapsed: i128 = now as i128 - then as i128;
    if elapsed < 60 {
        String::from_str("just now")
    } else if elapsed / 60 < 60 {
        let m = elapsed / 60;
        if m == 1 {
            String::from_str("1 minute ago")
        } else {
            count_ago(m as u64, " minutes ago")
        }
    } else if elapsed / 3600 < 24 {
        let h = elapsed / 3600;
        if h == 1 {
            String::from_str("1 hour ago")
        } else {
            count_ago(h as u64, " hours ago")
        }
    } else {
        let d = elapsed / 86400;
        if d == 1 {
            String::from_str("1 day ago")
        } else {
            count_ago(d as u64, " days ago")
        }
    }
}

/// Relies on chrono's `Utc::now().timestamp()`: the current time in whole
/// seconds since the epoch. Nothing is promised of its value.
#[verifier::external_body]
fn now_seconds() -> (r: i64) {
    chrono::Utc::now().timestamp()
}

/// How long ago `then` (seconds since the epoch) was, measured against the
/// clock.
pub fn format_relative_time(then: i64) -> (r: String)
    ensures
        exists|now: i64| r@ == #[trigger] relative_text(now - then),
{
    let now = now_seconds();
    relative_time(now, then)
}

/// The header line of the plain listing.
pub open spec fn list_header_text() -> Seq<char> {
    padded("NAME"@, NAME_WIDTH as nat) + " "@ + padded("STATUS"@, STATUS_WIDTH as nat) + " "@
        + padded("WORKING DIR"@, DIR_WIDTH as nat) + " LAST ACTIVITY"@
}

/// The line of the plain listing for `s`, at time `now`: the name cut to
/// its column, the status, the start of the working directory, and how
/// long ago the last activity was.
pub open spec fn list_line(s: SessionView, now: int) -> Seq<char> {
    padded(truncated(s.name, NAME_WIDTH as nat), NAME_WIDTH as nat) + " "@ + padded(
        status_name(s.status),
        STATUS_WIDTH as nat,
    ) + " "@ + padded(head(s.working_directory, DIR_WIDTH as nat), DIR_WIDTH as nat) + " "@
        + relative_text(now - s.last_activity)
}

/// The header line of the plain listing.
pub fn list_header() -> (r: String)
    ensures
        r@ == list_header_text(),
{
    let mut r = pad_right("NAME", NAME_WIDTH);
    r.append(" ");
    r.append(pad_right("STATUS", STATUS_WIDTH).as_str());
    r.append(" ");
    r.append(pad_right("WORKING DIR", DIR_WIDTH).as_str());
    r.append(" LAST ACTIVITY");
    r
}

/// The line of the plain listing for `session`, at time `now`.
pub fn list_row(session: &Session, now: i64) -> (r: String)
    ensures
        r@ == list_line(session@, now as int),
{
    let name = truncate(session.name.as_str(), NAME_WIDTH);
    let mut r = pad_right(name.as_str(), NAME_WIDTH);
    r.append(" ");
    r.append(pad_right(session.status.name(), STATUS_WIDTH).as_str());
    r.append(" ");
    let dir = head_text(session.working_directory.as_str(), DIR_WIDTH);
    r.append(pad_right(dir.as_str(), DIR_WIDTH).as_str());
    r.append(" ");
    r.append(relative_time(now, session.last_activity).as_str());
    r
}

/// The cells of the selector's row for `s`: name, status, window count,
/// and the end of the working directory.
pub open spec fn table_cells(s: SessionView) -> Seq<Seq<char>> {
    seq![
        s.name,
        status_name(s.status),
        decimal(s.window_count),
        tail(s.working_directory, TABLE_DIR_WIDTH as nat),
    ]
}

/// The cells of the selector's row for `session`.
pub fn table_row(session: &Session) -> (r: Vec<String>)
    ensures
        r@.map_values(|c: String| c@) == table_cells(session@),
{
    let mut r: Vec<String> = Vec::new();
    r.push(session.name.clone());
    r.push(session.status.to_string());
    r.push(decimal_text(session.window_count as u64));
    r.push(tail_text(session.working_directory.as_str(), TABLE_DIR_WIDTH));
    assert(r@.map_values(|c: String| c@) =~= table_cells(session@));
    r
}

} // verus!
