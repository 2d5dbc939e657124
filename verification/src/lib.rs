//! A small log-distribution core: a builder collects output sinks and
//! global filters, and once finalized every incoming event is routed to
//! the sinks whose filters accept it. File sinks roll their files over by
//! size and by calendar day and prune rotated files past a retention
//! window; all of those decisions are made here, and the surrounding
//! process performs the file operations the decisions call for.

pub mod clock;
pub mod config;
pub mod error;
pub mod event;
pub mod format;
pub mod level;
pub mod logger;
pub mod retention;
pub mod rotation;
pub mod sink;
pub mod strutil;

pub use config::Config;
pub use error::FtailError;
pub use event::LogEvent;
pub use format::DefaultFormatter;
pub use format::Formatter;
pub use level::Level;
pub use level::LevelFilter;
pub use logger::ActiveLogger;
pub use logger::ChannelKind;
pub use logger::Ftail;
pub use logger::LogChannel;
pub use retention::FileEntry;
pub use rotation::RotationPlan;
pub use rotation::RotationStep;
pub use sink::DailyFileLogger;
pub use sink::SingleLogger;
pub use sink::WritePlan;
