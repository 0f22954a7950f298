//! Diagnostics for a command-line tool, as values.
//!
//! A [`Logger`] turns a message into a [`Record`]: the line to write and the
//! stream it belongs on. Writing the record is left to the caller, and so is
//! the one [`LoggerSlot`] of the process, which [`init`] and the functions of
//! [`log`] work on.

pub mod format;
pub mod log;
pub mod logger;
pub mod slot;
pub mod style;
pub mod text;

pub use format::LogFormat;
pub use logger::{Logger, Record, Stream};
pub use slot::{init, LoggerSlot};
