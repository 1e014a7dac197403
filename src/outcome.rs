//! What the multiplexer's commands mean: the arguments that query it, and
//! the results and errors that its exit status and output stand for.

use vstd::prelude::*;
use crate::error::{TmuxError, TmuxErrorView};
use crate::feed::{feed_outcome, parse_feed, parse_sessions};
use crate::session::{Session, session_views};
use crate::text::{occurs_in, text_contains};

verus! {

/// The format of a status feed line, as the multiplexer's `-F` option takes it.
pub const LIST_FORMAT: &'static str =
    "#{session_name}\t#{session_attached}\t#{session_activity}\t#{session_created}\t#{pane_current_path}\t#{session_windows}";

/// The filter that keeps the session named `name`.
pub open spec fn filter_for(name: Seq<char>) -> Seq<char> {
    "#{==:#{session_name},"@ + name + "}"@
}

/// The `-f` filter that keeps only the session named `name`.
pub fn name_filter(name: &str) -> (r: String)
    ensures
        r@ == filter_for(name@),
{
    let mut r = String::from_str("#{==:#{session_name},");
    r.append(name);
    r.append("}");
    r
}

/// Diagnostics saying that there is no server or no session at all.
pub open spec fn says_no_server(err: Seq<char>) -> bool {
    occurs_in(err, "no server running"@) || occurs_in(err, "no sessions"@)
}

/// Diagnostics saying that a session of that name exists already.
pub open spec fn says_duplicate(err: Seq<char>) -> bool {
    occurs_in(err, "duplicate session"@)
}

/// Diagnostics saying that the session named does not exist.
pub open spec fn says_not_found(err: Seq<char>) -> bool {
    occurs_in(err, "session not found"@) || occurs_in(err, "can't find session"@)
}

fn no_server(err: &str) -> (r: bool)
    ensures
        r == says_no_server(err@),
{
    text_contains(err, "no server running") || text_contains(err, "no sessions")
}

/// The sessions that a listing run reports. Without a server, or without
/// sessions, the list is empty; other failures are parse errors that carry
/// the diagnostics.
pub fn listing_outcome(success: bool, stdout: &str, stderr: &str) -> (r: Result<
    Vec<Session>,
    TmuxError,
>)
    ensures
        success ==> feed_outcome(r, parse_feed(stdout@)),
        !success && says_no_server(stderr@) ==> r is Ok && r->Ok_0@.len() == 0,
        !success && !says_no_server(stderr@) ==> r is Err && r->Err_0@
            == TmuxErrorView::ParseError(stderr@),
{
    if !success {
        if no_server(stderr) {
            return Ok(Vec::new());
        }
        return Err(TmuxError::ParseError(String::from_str(stderr)));
    }
    parse_sessions(stdout)
}

/// The session that a filtered listing run for `name` reports. Without a
/// server, or when the filter kept nothing, the session is not found.
pub fn lookup_outcome(name: &str, success: bool, stdout: &str, stderr: &str) -> (r: Result<
    Session,
    TmuxError,
>)
    ensures
        !success && says_no_server(stderr@) ==> r is Err && r->Err_0@
            == TmuxErrorView::SessionNotFound(name@),
        !success && !says_no_server(stderr@) ==> r is Err && r->Err_0@
            == TmuxErrorView::ParseError(stderr@),
        success ==> match parse_feed(stdout@) {
            Err(m) => r is Err && r->Err_0@ == TmuxErrorView::ParseError(m),
            Ok(rs) => if rs.len() > 0 {
                r is Ok && r->Ok_0@ == rs[0]
            } else {
                r is Err && r->Err_0@ == TmuxErrorView::SessionNotFound(name@)
            },
        },
{
    if !success {
        if no_server(stderr) {
            return Err(TmuxError::SessionNotFound(String::from_str(name)));
        }
        return Err(TmuxError::ParseError(String::from_str(stderr)));
    }
    match parse_sessions(stdout) {
        Ok(mut found) => {
            if found.len() == 0 {
                Err(TmuxError::SessionNotFound(String::from_str(name)))
            } else {
                let ghost views = session_views(found@);
                assert(views[0] == found@[0]@);
                Ok(found.swap_remove(0))
            }
        },
        Err(e) => Err(e),
    }
}

/// The outcome of creating the session `name`.
pub fn creation_outcome(name: &str, success: bool, stderr: &str) -> (r: Result<(), TmuxError>)
    ensures
        success ==> r is Ok,
        !success && says_duplicate(stderr@) ==> r is Err && r->Err_0@
            == TmuxErrorView::SessionExists(name@),
        !success && !says_duplicate(stderr@) ==> r is Err && r->Err_0@
            == TmuxErrorView::ParseError(stderr@),
{
    if success {
        Ok(())
    } else if text_contains(stderr, "duplicate session") {
        Err(TmuxError::SessionExists(String::from_str(name)))
    } else {
        Err(TmuxError::ParseError(String::from_str(stderr)))
    }
}

/// The outcome of killing the session `name`.
pub fn kill_outcome(name: &str, success: bool, stderr: &str) -> (r: Result<(), TmuxError>)
    ensures
        success ==> r is Ok,
        !success && says_not_found(stderr@) ==> r is Err && r->Err_0@
            == TmuxErrorView::SessionNotFound(name@),
        !success && !says_not_found(stderr@) ==> r is Err && r->Err_0@
            == TmuxErrorView::ParseError(stderr@),
{
    if success {
        Ok(())
    } else if text_contains(stderr, "session not found") || text_contains(
        stderr,
        "can't find session",
    ) {
        Err(TmuxError::SessionNotFound(String::from_str(name)))
    } else {
        Err(TmuxError::ParseError(String::from_str(stderr)))
    }
}

/// The outcome of attaching to the session `name`: a failed attach means
/// that there is no such session.
pub fn run_attach(name: &str, success: bool) -> (r: Result<(), TmuxError>)
    ensures
        success ==> r is Ok,
        !success ==> r is Err && r->Err_0@ == TmuxErrorView::SessionNotFound(name@),
{
    if success {
        Ok(())
    } else {
        Err(TmuxError::SessionNotFound(String::from_str(name)))
    }
}

} // verus!
