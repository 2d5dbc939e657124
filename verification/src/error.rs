//! Errors surfaced while setting the logger up.
//!
//! All of them are construction-time: once the logger is active, a failed
//! write is dropped rather than propagated, so no variant describes a
//! steady-state failure.

use vstd::prelude::*;

verus! {

/// Why initialization of the logger, or construction of one of its file
/// sinks, failed.
#[derive(Debug, Clone, PartialEq, Eq)]
pub enum FtailError {
    /// `init` was called with no sinks registered.
    NoChannelsError,
    /// A file could not be opened, created, renamed or removed; carries
    /// the underlying error rendered as text.
    IoError(String),
    /// The target path or directory is read-only; carries that path.
    PermissionsError(String),
    /// A process-wide logger was already installed; carries the facade's
    /// error rendered as text.
    SetLoggerError(String),
}

} // verus!
