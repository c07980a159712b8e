//! Command layer of a desktop launcher: a closed set of domain errors with
//! fixed renderings, the rule that turns host I/O failures into them, and the
//! commands that the front end invokes.
//!
//! A command that fails hands the front end the rendered message of its
//! error, not the error itself: only text crosses the boundary, so the kind
//! of a failure is not recoverable there beyond what the message says.

pub mod commands;
pub mod error;
pub mod log;
pub mod text;

pub use commands::{copy_to_clipboard, greet};
pub use error::{ErrorModel, HostError, HostErrorKind, LauncherError};
pub use log::{LogBuffer, LogLevel};
pub use text::decimal_string;
