//! Rendering one event into the single line a sink writes.
//!
//! The line layout is `<datetime> <LEVEL> <target> <message>`; the
//! datetime text comes from the clock and the configured format string.

use vstd::prelude::*;
use crate::clock::now_formatted;
use crate::config::Config;
use crate::event::LogEvent;
use crate::level::Level;

verus! {

/// Anything that renders an event into one line of text.
pub trait Formatter {
    fn format(&self) -> String;
}

/// The upper-case label of a level.
pub open spec fn level_label_spec(l: Level) -> Seq<char> {
    match l {
        Level::Trace => seq!['T', 'R', 'A', 'C', 'E'],
        Level::Debug => seq!['D', 'E', 'B', 'U', 'G'],
        Level::Info => seq!['I', 'N', 'F', 'O'],
        Level::Warn => seq!['W', 'A', 'R', 'N'],
        Level::Error => seq!['E', 'R', 'R', 'O', 'R'],
    }
}

/// The upper-case label of a level.
pub fn level_label(l: Level) -> (r: &'static str)
    ensures
        r@ == level_label_spec(l),
{
    proof {
        reveal_strlit("TRACE");
        reveal_strlit("DEBUG");
        reveal_strlit("INFO");
        reveal_strlit("WARN");
        reveal_strlit("ERROR");
    }
    let r: &'static str = match l {
        Level::Trace => "TRACE",
        Level::Debug => "DEBUG",
        Level::Info => "INFO",
        Level::Warn => "WARN",
        Level::Error => "ERROR",
    };
    proof {
        assert(r@ =~= level_label_spec(l));
    }
    r
}

/// The line written for one event: datetime, level label, target and
/// message, separated by single spaces.
pub open spec fn spec_format_line(
    datetime: Seq<char>,
    level: Level,
    target: Seq<char>,
    message: Seq<char>,
) -> Seq<char> {
    datetime + seq![' '] + level_label_spec(level) + seq![' '] + target + seq![' '] + message
}

/// Render the line for one event from its already-rendered datetime.
pub fn format_line(datetime: &str, level: Level, target: &str, message: &str) -> (r: String)
    ensures
        r@ == spec_format_line(datetime@, level, target@, message@),
{
    proof {
        reveal_strlit(" ");
    }
    let mut s = String::from_str(datetime);
    s.append(" ");
    s.append(level_label(level));
    s.append(" ");
    s.append(target);
    s.append(" ");
    s.append(message);
    proof {
        assert(s@ =~= spec_format_line(datetime@, level, target@, message@));
    }
    s
}

/// The default formatter: renders the current local time with the
/// configured format and lays the line out as `spec_format_line` says.
pub struct DefaultFormatter<'a> {
    pub event: &'a LogEvent,
    pub config: &'a Config,
}

impl<'a> DefaultFormatter<'a> {
    /// Pair an event with the configuration to render it under.
    pub fn new(event: &'a LogEvent, config: &'a Config) -> (r: DefaultFormatter<'a>)
        ensures
            r.event == event,
            r.config == config,
    {
        DefaultFormatter { event, config }
    }

    /// Render the event's line; the datetime text is whatever the clock
    /// returned for the configured format.
    pub fn format_now(&self) -> (r: String)
        ensures
            exists|dt: Seq<char>|
                r@ == spec_format_line(
                    dt,
                    self.event.level,
                    self.event.target@,
                    self.event.message@,
                ),
    {
        let datetime = match now_formatted(self.config.datetime_format.as_str()) {
            Some(s) => s,
            None => String::new(),
        };
        let r = format_line(
            datetime.as_str(),
            self.event.level,
            self.event.target.as_str(),
            self.event.message.as_str(),
        );
        proof {
            assert(r@ == spec_format_line(
                datetime@,
                self.event.level,
                self.event.target@,
                self.event.message@,
            ));
        }
        r
    }
}

impl<'a> Formatter for DefaultFormatter<'a> {
    fn format(&self) -> String {
        self.format_now()
    }
}

} // verus!
