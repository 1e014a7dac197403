//! Session records and their status.

use vstd::prelude::*;

verus! {

/// Whether a session has clients attached.
#[derive(Debug, Clone, Copy, PartialEq, Eq, Structural)]
pub enum SessionStatus {
    /// Has at least one attached client
    Active,
    /// Running but no clients attached
    Idle,
    /// Session no longer exists
    Dead,
}

/// The display name of a status.
pub open spec fn status_name(s: SessionStatus) -> Seq<char> {
    match s {
        SessionStatus::Active => seq!['A', 'c', 't', 'i', 'v', 'e'],
        SessionStatus::Idle => seq!['I', 'd', 'l', 'e'],
        SessionStatus::Dead => seq!['D', 'e', 'a', 'd'],
    }
}

/// The status that an attached-client count stands for.
pub open spec fn status_of_count(count: nat) -> SessionStatus {
    if count > 0 {
        SessionStatus::Active
    } else {
        SessionStatus::Idle
    }
}

impl SessionStatus {
    /// The status derived from an attached-client count.
    pub fn from_attached_count(count: u32) -> (r: SessionStatus)
        ensures
            r == status_of_count(count as nat),
    {
        if count > 0 {
            SessionStatus::Active
        } else {
            SessionStatus::Idle
        }
    }

    /// The display name of the status.
    pub fn name(&self) -> (r: &'static str)
        ensures
            r@ == status_name(*self),
    {
        proof {
            reveal_strlit("Active");
            reveal_strlit("Idle");
            reveal_strlit("Dead");
        }
        match self {
            SessionStatus::Active => "Active",
            SessionStatus::Idle => "Idle",
            SessionStatus::Dead => "Dead",
        }
    }

    /// The display name of the status, as an owned string.
    pub fn to_string(&self) -> (r: String)
        ensures
            r@ == status_name(*self),
    {
        String::from_str(self.name())
    }
}

/// One multiplexer session as seen at query time.
///
/// Timestamps are whole seconds since the Unix epoch, UTC.
#[derive(Debug, Clone)]
pub struct Session {
    /// Session name
    pub name: String,
    /// Current status of the session
    pub status: SessionStatus,
    /// Working directory of the session
    pub working_directory: String,
    /// Last activity, in seconds since the epoch
    pub last_activity: i64,
    /// Creation time, in seconds since the epoch
    pub created_at: i64,
    /// Number of windows in the session
    pub window_count: u32,
}

/// The mathematical value of a [`Session`].
pub struct SessionView {
    pub name: Seq<char>,
    pub status: SessionStatus,
    pub working_directory: Seq<char>,
    pub last_activity: int,
    pub created_at: int,
    pub window_count: nat,
}

impl View for Session {
    type V = SessionView;

    open spec fn view(&self) -> SessionView {
        SessionView {
            name: self.name@,
            status: self.status,
            working_directory: self.working_directory@,
            last_activity: self.last_activity as int,
            created_at: self.created_at as int,
            window_count: self.window_count as nat,
        }
    }
}

/// The views of a sequence of sessions.
pub open spec fn session_views(s: Seq<Session>) -> Seq<SessionView> {
    s.map_values(|x: Session| x@)
}

} // verus!
