//! Named terminal multiplexer sessions: parsing the multiplexer's status feed
//! into session records, interpreting the outcome of its commands, and the
//! state machine of an interactive session selector.

pub mod display;
pub mod error;
pub mod feed;
pub mod outcome;
pub mod selector;
pub mod session;
pub mod text;

pub use error::TmuxError;
pub use feed::{parse_sessions, session_from_fields};
pub use outcome::{
    creation_outcome, kill_outcome, listing_outcome, lookup_outcome, name_filter, run_attach,
    LIST_FORMAT,
};
pub use selector::{command_for_key, App, Command, Key};
pub use session::{Session, SessionStatus};
pub use text::truncate;
