//! Core of a terminal productivity timer: the session state machine that
//! counts a work/break phase down and schedules the next one, an ordered
//! task list with a selection cursor, an input-mode controller for free-text
//! edits, and the pure key-dispatch that ties them together.  Terminal I/O,
//! rendering and the file system live outside this crate; everything here is
//! plain state and is verified.

pub mod art;
pub mod config;
pub mod session;
pub mod state;
pub mod tasks;
pub mod text;

pub use config::Config;
pub use session::Notification;
pub use session::Session;
pub use session::SessionMode;
pub use state::Action;
pub use state::AppScreen;
pub use state::Command;
pub use state::InputMode;
pub use state::Key;
pub use state::Pomo;
pub use tasks::Task;
pub use tasks::TaskList;
