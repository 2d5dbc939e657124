//! Severity levels and per-sink level thresholds.
//!
//! A sink is configured with a `LevelFilter`; an event carries a `Level`.
//! The filter admits an event when the filter is `Off` (no per-sink
//! filtering) or when the event's verbosity does not exceed the filter's.

use vstd::prelude::*;

verus! {

/// Severity of a single log event, from most severe (`Error`) to most
/// verbose (`Trace`).
#[derive(Clone, Copy, PartialEq, Eq, Structural, Debug)]
pub enum Level {
    Trace,
    Debug,
    Info,
    Warn,
    Error,
}

/// Per-sink verbosity ceiling. `Off` disables per-sink filtering: every
/// event is admitted.
#[derive(Clone, Copy, PartialEq, Eq, Structural, Debug)]
pub enum LevelFilter {
    Off,
    Error,
    Warn,
    Info,
    Debug,
    Trace,
}

/// Verbosity rank of an event level: `Error` is the least verbose.
pub open spec fn level_verbosity(l: Level) -> int {
    match l {
        Level::Error => 1,
        Level::Warn => 2,
        Level::Info => 3,
        Level::Debug => 4,
        Level::Trace => 5,
    }
}

/// Verbosity rank of a filter; `Off` sits below every level.
pub open spec fn filter_verbosity(f: LevelFilter) -> int {
    match f {
        LevelFilter::Off => 0,
        LevelFilter::Error => 1,
        LevelFilter::Warn => 2,
        LevelFilter::Info => 3,
        LevelFilter::Debug => 4,
        LevelFilter::Trace => 5,
    }
}

/// A sink with threshold `f` accepts an event of level `l` when the
/// threshold is `Off`, or when `l` is at most as verbose as `f`.
pub open spec fn sink_accepts(f: LevelFilter, l: Level) -> bool {
    f == LevelFilter::Off || level_verbosity(l) <= filter_verbosity(f)
}

impl Level {
    /// Numeric verbosity of this level.
    pub fn verbosity(&self) -> (r: u8)
        ensures
            r as int == level_verbosity(*self),
    {
        match self {
            Level::Error => 1,
            Level::Warn => 2,
            Level::Info => 3,
            Level::Debug => 4,
            Level::Trace => 5,
        }
    }
}

impl LevelFilter {
    /// Numeric verbosity ceiling of this filter.
    pub fn verbosity(&self) -> (r: u8)
        ensures
            r as int == filter_verbosity(*self),
    {
        match self {
            LevelFilter::Off => 0,
            LevelFilter::Error => 1,
            LevelFilter::Warn => 2,
            LevelFilter::Info => 3,
            LevelFilter::Debug => 4,
            LevelFilter::Trace => 5,
        }
    }
}

/// Decide whether a sink whose threshold is `filter` accepts an event of
/// level `level`.
pub fn level_passes(level: Level, filter: LevelFilter) -> (r: bool)
    ensures
        r == sink_accepts(filter, level),
{
    if matches!(filter, LevelFilter::Off) {
        return true;
    }
    level.verbosity() <= filter.verbosity()
}

} // verus!
