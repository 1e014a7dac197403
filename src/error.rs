//! Errors of the multiplexer layer.

use vstd::prelude::*;

verus! {

/// What can go wrong when querying or commanding the multiplexer.
#[derive(Debug)]
pub enum TmuxError {
    /// The multiplexer program could not be run at all; holds the reason.
    CommandFailed(String),
    /// Output that could not be understood; holds the details.
    ParseError(String),
    /// No multiplexer server is running.
    ServerNotRunning,
    /// No session has the given name.
    SessionNotFound(String),
    /// A session with the given name exists already.
    SessionExists(String),
}

/// The mathematical value of a [`TmuxError`].
pub enum TmuxErrorView {
    CommandFailed(Seq<char>),
    ParseError(Seq<char>),
    ServerNotRunning,
    SessionNotFound(Seq<char>),
    SessionExists(Seq<char>),
}

impl View for TmuxError {
    type V = TmuxErrorView;

    open spec fn view(&self) -> TmuxErrorView {
        match self {
            TmuxError::CommandFailed(s) => TmuxErrorView::CommandFailed(s@),
            TmuxError::ParseError(s) => TmuxErrorView::ParseError(s@),
            TmuxError::ServerNotRunning => TmuxErrorView::ServerNotRunning,
            TmuxError::SessionNotFound(s) => TmuxErrorView::SessionNotFound(s@),
            TmuxError::SessionExists(s) => TmuxErrorView::SessionExists(s@),
        }
    }
}

} // verus!
