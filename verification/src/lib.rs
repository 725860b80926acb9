//! Bookkeeping for interactive pseudo-terminal sessions: which sessions are
//! live, when each was last active, how many may exist at once, and what to do
//! when opening a terminal fails.
//!
//! The library decides and records; it opens no terminal and starts no
//! process. Whoever uses it reads the clock, performs the input and output,
//! and tells the library what came of it.

pub mod command;
pub mod diagnosis;
pub mod error;
pub mod event;
pub mod factory;
pub mod ids;
pub mod laws;
pub mod pty;
pub mod pump;
pub mod reaper;
pub mod session;
pub mod shell;
pub mod stats;
pub mod table;
pub mod terminal;
pub mod text;
