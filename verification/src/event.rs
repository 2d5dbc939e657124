//! A single structured log event, as handed in by the logging facade.

use vstd::prelude::*;
use crate::level::Level;

verus! {

/// One log event: severity, target namespace, pre-rendered message text,
/// and optional source location. Immutable for the length of one dispatch.
pub struct LogEvent {
    pub level: Level,
    pub target: String,
    pub message: String,
    pub file: Option<String>,
    pub line: Option<u32>,
}

impl LogEvent {
    /// Package the pieces of one event.
    pub fn new(
        level: Level,
        target: String,
        message: String,
        file: Option<String>,
        line: Option<u32>,
    ) -> (r: LogEvent)
        ensures
            r.level == level,
            r.target == target,
            r.message == message,
            r.file == file,
            r.line == line,
    {
        LogEvent { level, target, message, file, line }
    }
}

} // verus!
