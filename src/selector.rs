//! The interactive selector's state machine: a list of sessions, a
//! highlighted row, a quit latch and the name that was picked.

use vstd::prelude::*;
use crate::error::TmuxError;
use crate::session::{Session, SessionView, session_views};

verus! {

/// The mathematical value of an [`App`].
pub struct AppView {
    pub sessions: Seq<SessionView>,
    pub selected_index: Option<usize>,
    pub should_quit: bool,
    pub selected_session: Option<Seq<char>>,
}

/// The selector's state.
pub struct App {
    sessions: Vec<Session>,
    selected_index: Option<usize>,
    should_quit: bool,
    selected_session: Option<String>,
}

/// The state before anything happened.
pub open spec fn initial_view() -> AppView {
    AppView { sessions: seq![], selected_index: None, should_quit: false, selected_session: None }
}

/// An empty list has no highlighted row, and a picked name ends the loop.
pub open spec fn view_wf(v: AppView) -> bool {
    &&& v.sessions.len() == 0 ==> v.selected_index is None
    &&& v.selected_session is Some ==> v.should_quit
}

/// The row highlighted after moving down from `sel` in a list of `len` rows.
pub open spec fn next_index(sel: Option<usize>, len: nat) -> Option<usize> {
    match sel {
        Some(i) => if i + 1 >= len {
            Some(0)
        } else {
            Some((i + 1) as usize)
        },
        None => Some(0),
    }
}

/// The row highlighted after moving up from `sel` in a list of `len` rows.
pub open spec fn previous_index(sel: Option<usize>, len: nat) -> Option<usize> {
    match sel {
        Some(i) => if i == 0 {
            Some((len - 1) as usize)
        } else {
            Some((i - 1) as usize)
        },
        None => Some(0),
    }
}

/// The state after moving down: nothing changes on an empty list.
pub open spec fn after_next(v: AppView) -> AppView {
    if v.sessions.len() == 0 {
        v
    } else {
        AppView { selected_index: next_index(v.selected_index, v.sessions.len()), ..v }
    }
}

/// The state after moving up: nothing changes on an empty list.
pub open spec fn after_previous(v: AppView) -> AppView {
    if v.sessions.len() == 0 {
        v
    } else {
        AppView { selected_index: previous_index(v.selected_index, v.sessions.len()), ..v }
    }
}

/// The state after confirming: the highlighted session's name is taken and
/// the loop ends; without a highlighted session nothing changes.
pub open spec fn after_confirm(v: AppView) -> AppView {
    match v.selected_index {
        Some(i) => if i < v.sessions.len() {
            AppView {
                selected_session: Some(v.sessions[i as int].name),
                should_quit: true,
                ..v
            }
        } else {
            v
        },
        None => v,
    }
}

/// The state after a quit request.
pub open spec fn after_quit(v: AppView) -> AppView {
    AppView { should_quit: true, ..v }
}

/// The state after the list is replaced by `fresh`.
pub open spec fn after_refresh(v: AppView, fresh: Seq<SessionView>) -> AppView {
    AppView {
        sessions: fresh,
        selected_index: if fresh.len() == 0 {
            None
        } else if v.selected_index is None {
            Some(0)
        } else {
            v.selected_index
        },
        ..v
    }
}

/// The sessions of a listing; a failed listing counts as none.
pub open spec fn listing_sessions(listing: Result<Vec<Session>, TmuxError>) -> Seq<SessionView> {
    match listing {
        Ok(v) => session_views(v@),
        Err(_) => seq![],
    }
}

/// A key the selector reads.
#[derive(Debug, Clone, Copy, PartialEq, Eq, Structural)]
pub enum Key {
    Char(char),
    Up,
    Down,
    Enter,
    Esc,
    Other,
}

/// What the selector does in answer to an input.
#[derive(Debug, Clone, Copy, PartialEq, Eq, Structural)]
pub enum Command {
    Quit,
    Next,
    Previous,
    Confirm,
    Refresh,
    Ignore,
}

/// The command for `key`; only presses count.
pub open spec fn command_of(key: Key, pressed: bool) -> Command {
    if !pressed {
        Command::Ignore
    } else {
        match key {
            Key::Char('q') | Key::Esc => Command::Quit,
            Key::Down | Key::Char('j') => Command::Next,
            Key::Up | Key::Char('k') => Command::Previous,
            Key::Enter => Command::Confirm,
            Key::Char('r') => Command::Refresh,
            _ => Command::Ignore,
        }
    }
}

/// The command for a key event; `pressed` is false for releases and repeats.
pub fn command_for_key(key: Key, pressed: bool) -> (r: Command)
    ensures
        r == command_of(key, pressed),
{
    if !pressed {
        return Command::Ignore;
    }
    match key {
        Key::Char('q') | Key::Esc => Command::Quit,
        Key::Down | Key::Char('j') => Command::Next,
        Key::Up | Key::Char('k') => Command::Previous,
        Key::Enter => Command::Confirm,
        Key::Char('r') => Command::Refresh,
        _ => Command::Ignore,
    }
}

/// The state after `cmd`; a refresh waits for a fresh listing, which
/// [`App::refresh_sessions`] takes.
pub open spec fn after_command(v: AppView, cmd: Command) -> AppView {
    match cmd {
        Command::Quit => after_quit(v),
        Command::Next => after_next(v),
        Command::Previous => after_previous(v),
        Command::Confirm => after_confirm(v),
        _ => v,
    }
}

impl View for App {
    type V = AppView;

    closed spec fn view(&self) -> AppView {
        AppView {
            sessions: session_views(self.sessions@),
            selected_index: self.selected_index,
            should_quit: self.should_quit,
            selected_session: match self.selected_session {
                Some(s) => Some(s@),
                None => None,
            },
        }
    }
}

impl App {
    /// A selector with no sessions, nothing highlighted and nothing picked.
    pub fn new() -> (r: App)
        ensures
            r@ == initial_view(),
    {
        let r = App {
            sessions: Vec::new(),
            selected_index: None,
            should_quit: false,
            selected_session: None,
        };
        assert(r@.sessions =~= Seq::<SessionView>::empty());
        r
    }

    /// Replaces the sessions by those of `listing`, which a failed listing
    /// leaves empty. An empty list loses its highlight; a list that had none
    /// gets its first row highlighted.
    pub fn refresh_sessions(&mut self, listing: Result<Vec<Session>, TmuxError>)
        ensures
            final(self)@ == after_refresh(old(self)@, listing_sessions(listing)),
    {
        let fresh = match listing {
            Ok(v) => v,
            Err(_) => Vec::new(),
        };
        assert(session_views(fresh@) =~= listing_sessions(listing));
        let empty = fresh.len() == 0;
        self.sessions = fresh;
        if empty {
            self.selected_index = None;
        } else if self.selected_index.is_none() {
            self.selected_index = Some(0);
        }
    }

    /// Moves the highlight one row down, from the last row to the first.
    pub fn next(&mut self)
        ensures
            final(self)@ == after_next(old(self)@),
    {
        let len = self.sessions.len();
        if len == 0 {
            return;
        }
        let i: usize = match self.selected_index {
            Some(i) => if i >= len - 1 {
                0
            } else {
                i + 1
            },
            None => 0,
        };
        self.selected_index = Some(i);
    }

    /// Moves the highlight one row up, from the first row to the last.
    pub fn previous(&mut self)
        ensures
            final(self)@ == after_previous(old(self)@),
    {
        let len = self.sessions.len();
        if len == 0 {
            return;
        }
        let i: usize = match self.selected_index {
            Some(i) => if i == 0 {
                len - 1
            } else {
                i - 1
            },
            None => 0,
        };
        self.selected_index = Some(i);
    }

    /// Picks the highlighted session and ends the loop.
    pub fn select_current(&mut self)
        ensures
            final(self)@ == after_confirm(old(self)@),
    {
        if let Some(i) = self.selected_index {
            if i < self.sessions.len() {
                self.selected_session = Some(self.sessions[i].name.clone());
                self.should_quit = true;
            }
        }
    }

    /// Ends the loop without picking anything more.
    pub fn quit(&mut self)
        ensures
            final(self)@ == after_quit(old(self)@),
    {
        self.should_quit = true;
    }

    /// Carries out `cmd`. Returns whether it asks for a fresh listing.
    pub fn handle(&mut self, cmd: Command) -> (wants_listing: bool)
        ensures
            final(self)@ == after_command(old(self)@, cmd),
            wants_listing == (cmd == Command::Refresh),
    {
        match cmd {
            Command::Quit => self.quit(),
            Command::Next => self.next(),
            Command::Previous => self.previous(),
            Command::Confirm => self.select_current(),
            Command::Refresh => return true,
            Command::Ignore => {},
        }
        false
    }

    /// The sessions shown.
    pub fn sessions(&self) -> (r: &Vec<Session>)
        ensures
            session_views(r@) == self@.sessions,
    {
        &self.sessions
    }

    /// The highlighted row.
    pub fn selected_index(&self) -> (r: Option<usize>)
        ensures
            r == self@.selected_index,
    {
        self.selected_index
    }

    /// Whether the loop is to end.
    pub fn should_quit(&self) -> (r: bool)
        ensures
            r == self@.should_quit,
    {
        self.should_quit
    }

    /// The name of the session picked, if any.
    pub fn selected_session(&self) -> (r: Option<String>)
        ensures
            match r {
                Some(s) => self@.selected_session == Some(s@),
                None => self@.selected_session is None,
            },
    {
        match &self.selected_session {
            Some(s) => Some(s.clone()),
            None => None,
        }
    }
}

impl Default for App {
    fn default() -> (r: App)
        ensures
            r@ == initial_view(),
    {
        App::new()
    }
}

/// Navigation goes round: from row `i` of `n` rows, moving down reaches row
/// `(i + 1) mod n` and moving up reaches row `(i + n - 1) mod n`; so down
/// from the last row is the first row, and up from the first is the last.
pub proof fn lemma_navigation_wraps(v: AppView, i: usize)
    requires
        i < v.sessions.len(),
        v.selected_index == Some(i),
    ensures
        after_next(v).selected_index == Some(((i + 1) % (v.sessions.len() as int)) as usize),
        after_previous(v).selected_index == Some(
            ((i + v.sessions.len() - 1) % (v.sessions.len() as int)) as usize,
        ),
        i == v.sessions.len() - 1 ==> after_next(v).selected_index == Some(0usize),
        i == 0 ==> after_previous(v).selected_index == Some((v.sessions.len() - 1) as usize),
{
    let n = v.sessions.len() as int;
    if i + 1 < n {
        vstd::arithmetic::div_mod::lemma_small_mod((i + 1) as nat, n as nat);
    } else {
        vstd::arithmetic::div_mod::lemma_mod_self_0(n);
    }
    if i == 0 {
        vstd::arithmetic::div_mod::lemma_small_mod((n - 1) as nat, n as nat);
    } else {
        vstd::arithmetic::div_mod::lemma_mod_add_multiples_vanish(i - 1, n);
        vstd::arithmetic::div_mod::lemma_small_mod((i - 1) as nat, n as nat);
    }
}

/// On an empty list moving up or down changes nothing: no row is
/// highlighted before or after.
pub proof fn lemma_navigation_on_empty(v: AppView)
    requires
        v.sessions.len() == 0,
        view_wf(v),
    ensures
        v.selected_index is None,
        after_next(v) == v,
        after_previous(v) == v,
        after_next(v).selected_index is None,
        after_previous(v).selected_index is None,
{
}

/// Confirming with row `i` highlighted takes exactly that session's name and
/// sets the quit latch; confirming with no row highlighted changes nothing.
pub proof fn lemma_confirm_takes_highlighted(v: AppView)
    ensures
        match v.selected_index {
            Some(i) => i < v.sessions.len() ==> after_confirm(v).selected_session == Some(
                v.sessions[i as int].name,
            ) && after_confirm(v).should_quit,
            None => after_confirm(v) == v,
        },
{
}

/// A refresh to an empty list clears the highlight; a refresh to a
/// non-empty list, with nothing highlighted before, highlights the first row.
pub proof fn lemma_refresh_highlight(v: AppView, fresh: Seq<SessionView>)
    ensures
        fresh.len() == 0 ==> after_refresh(v, fresh).selected_index is None,
        fresh.len() > 0 && v.selected_index is None ==> after_refresh(v, fresh).selected_index
            == Some(0usize),
        after_refresh(v, fresh).sessions == fresh,
{
}

/// Every state the selector can reach is well formed, and the quit latch
/// and a picked name are never taken back by any transition.
pub proof fn lemma_transitions_keep_wf(v: AppView, cmd: Command, fresh: Seq<SessionView>)
    requires
        view_wf(v),
    ensures
        view_wf(initial_view()),
        view_wf(after_command(v, cmd)),
        view_wf(after_refresh(v, fresh)),
        v.should_quit ==> after_command(v, cmd).should_quit && after_refresh(v, fresh).should_quit,
        v.selected_session is Some ==> after_command(v, cmd).selected_session is Some,
{
}

} // verus!
