//! A small leveled-logging library.
//!
//! Messages carry a severity (trace, debug, info, warn, error) or a custom
//! label. They are filtered against a configured minimum severity, rendered
//! as `"<timestamp> <LABEL> <message>\n"`, and handed to a console sink and,
//! when enabled, to a file sink that appends by read-modify-write.
//!
//! The library decides; the host performs the I/O. A dispatch yields a
//! [`log::Record`] that says what to print, where and in which color, and an
//! optional [`file_sink::AppendJob`], a small state machine that the host
//! drives with the results of its file operations.

use vstd::prelude::*;

pub mod clock;
pub mod config;
pub mod errors;
pub mod file_sink;
pub mod log;
pub mod loggers;
pub mod render;

pub use config::Config;
pub use errors::{CustomError, IoFault};
pub use log::{Color, Level, Log, Stream};

verus! {

} // verus!
