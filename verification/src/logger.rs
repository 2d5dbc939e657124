//! The builder and the dispatcher.
//!
//! A `Ftail` value is the building phase: sinks are registered and the
//! shared configuration is set. `init` is the one-way transition to the
//! active phase: it hands every registered channel its own copy of the
//! configuration, with the channel's minimum level in place of the
//! builder's, and yields an `ActiveLogger`, whose channel set is immutable.
//! Routing an event means: global filters first, then each channel's own
//! minimum level, in registration order.

use vstd::prelude::*;
use crate::config::Config;
use crate::config::ConfigV;
use crate::config::default_config;
use crate::error::FtailError;
use crate::event::LogEvent;
use crate::level::Level;
use crate::level::LevelFilter;
use crate::level::level_passes;
use crate::level::sink_accepts;
use crate::strutil::is_prefix_of;
use crate::strutil::starts_with;

verus! {

/// What kind of output a registered channel writes to.
pub enum ChannelKind {
    /// Plain standard output.
    Console,
    /// Colorized, multi-line standard output.
    FormattedConsole,
    /// One fixed file, appended to or truncated at construction.
    SingleFile { path: String, append: bool },
    /// One file per calendar day under a directory.
    DailyFile { dir: String },
    /// A sink the embedding application constructs itself; the
    /// construction happens outside this crate, in registration order
    /// with the other channels.
    Custom,
}

/// A channel as registered during building: its kind and minimum level.
pub struct LogChannel {
    pub kind: ChannelKind,
    pub level: LevelFilter,
}

/// The builder: channels registered so far and the shared configuration.
pub struct Ftail {
    pub channels: Vec<LogChannel>,
    pub config: Config,
}

/// A channel after `init`: its kind and its own configuration.
pub struct ActiveChannel {
    pub kind: ChannelKind,
    pub config: Config,
}

/// The dispatcher after `init`: an immutable, ordered channel set plus the
/// global configuration the filters read.
pub struct ActiveLogger {
    pub channels: Vec<ActiveChannel>,
    pub config: Config,
}

/// `c` with its per-sink level replaced by `f`.
pub open spec fn with_level(c: ConfigV, f: LevelFilter) -> ConfigV {
    ConfigV { level_filter: f, ..c }
}

/// The global level allow-list admits `l`.
pub open spec fn level_allowed(levels: Option<Seq<Level>>, l: Level) -> bool {
    match levels {
        Some(ls) => ls.contains(l),
        None => true,
    }
}

/// The global target allow-list admits `target`: some listed prefix is an
/// initial segment of it.
pub open spec fn target_allowed(targets: Option<Seq<Seq<char>>>, target: Seq<char>) -> bool {
    match targets {
        Some(ts) => exists|i: int| 0 <= i < ts.len() && is_prefix_of(ts[i], target),
        None => true,
    }
}

/// Both global filters admit an event of level `l` and target `target`.
pub open spec fn global_accepts(c: ConfigV, l: Level, target: Seq<char>) -> bool {
    level_allowed(c.levels, l) && target_allowed(c.targets, target)
}

/// Linear scan for one level in an allow-list.
fn contains_level(v: &Vec<Level>, l: Level) -> (r: bool)
    ensures
        r == v@.contains(l),
{
    let mut i: usize = 0;
    while i < v.len()
        invariant
            i <= v.len(),
            forall|j: int| 0 <= j < i ==> v@[j] != l,
        decreases v.len() - i,
    {
        if v[i] == l {
            assert(v@[i as int] == l);
            return true;
        }
        i += 1;
    }
    false
}

/// Decide whether the global filters of `config` admit an event.
pub fn config_accepts(config: &Config, level: Level, target: &str) -> (r: bool)
    ensures
        r == global_accepts(config@, level, target@),
{
    let level_ok = match &config.levels {
        Some(ls) => contains_level(ls, level),
        None => true,
    };
    if !level_ok {
        return false;
    }
    assert(level_allowed(config@.levels, level));
    match &config.targets {
        Some(ts) => {
            let mut i: usize = 0;
            while i < ts.len()
                invariant
                    i <= ts.len(),
                    config.targets is Some,
                    *ts == config.targets->Some_0,
                    level_allowed(config@.levels, level),
                    forall|j: int| 0 <= j < i ==> !is_prefix_of(ts.deep_view()[j], target@),
                decreases ts.len() - i,
            {
                if starts_with(target, ts[i].as_str()) {
                    assert(is_prefix_of(ts.deep_view()[i as int], target@));
                    proof {
                        let tsv = config@.targets->Some_0;
                        assert(tsv == ts.deep_view());
                        assert(is_prefix_of(tsv[i as int], target@));
                        assert(target_allowed(config@.targets, target@));
                    }
                    return true;
                }
                i += 1;
            }
            assert(forall|j: int|
                0 <= j < ts.deep_view().len() ==> !is_prefix_of(ts.deep_view()[j], target@));
            false
        },
        None => true,
    }
}

impl Ftail {
    /// An empty builder: no channels, default configuration.
    pub fn new() -> (r: Ftail)
        ensures
            r.channels@.len() == 0,
            r.config@ == default_config(),
    {
        Ftail { channels: Vec::new(), config: Config::new() }
    }

    /// Set the datetime format handed to the formatter.
    pub fn datetime_format(self, datetime_format: &str) -> (r: Ftail)
        ensures
            r.channels == self.channels,
            r.config@ == (ConfigV { datetime_format: datetime_format@, ..self.config@ }),
    {
        let mut s = self;
        s.config.datetime_format = String::from_str(datetime_format);
        proof {
            assert(s.config@ =~= (ConfigV { datetime_format: datetime_format@, ..self.config@ }));
        }
        s
    }

    /// Set the size, in bytes, at which a file sink rolls its file over.
    pub fn max_file_size(self, max_file_size: u64) -> (r: Ftail)
        ensures
            r.channels == self.channels,
            r.config@ == (ConfigV { max_file_size: Some(max_file_size), ..self.config@ }),
    {
        let mut s = self;
        s.config.max_file_size = Some(max_file_size);
        proof {
            assert(s.config@ =~= (ConfigV { max_file_size: Some(max_file_size), ..self.config@ }));
        }
        s
    }

    /// Set how many days of daily files are kept before pruning.
    pub fn retention_days(self, retention_days: u64) -> (r: Ftail)
        ensures
            r.channels == self.channels,
            r.config@ == (ConfigV { retention_days: Some(retention_days), ..self.config@ }),
    {
        let mut s = self;
        s.config.retention_days = Some(retention_days);
        proof {
            assert(s.config@ =~= (ConfigV { retention_days: Some(retention_days), ..self.config@ }));
        }
        s
    }

    /// Only admit events whose level is among `levels`.
    pub fn filter_levels(self, levels: Vec<Level>) -> (r: Ftail)
        ensures
            r.channels == self.channels,
            r.config@ == (ConfigV { levels: Some(levels@), ..self.config@ }),
    {
        let mut s = self;
        s.config.levels = Some(levels);
        proof {
            assert(s.config@ =~= (ConfigV { levels: Some(levels@), ..self.config@ }));
        }
        s
    }

    /// Only admit events whose target starts with one of `targets`.
    pub fn filter_targets(self, targets: Vec<&str>) -> (r: Ftail)
        ensures
            r.channels == self.channels,
            r.config@ == (ConfigV { targets: Some(targets.deep_view()), ..self.config@ }),
    {
        let mut owned: Vec<String> = Vec::new();
        let mut i: usize = 0;
        while i < targets.len()
            invariant
                i <= targets.len(),
                owned@.len() == i,
                forall|j: int| 0 <= j < i ==> owned@[j]@ == targets@[j]@,
            decreases targets.len() - i,
        {
            owned.push(String::from_str(targets[i]));
            i += 1;
        }
        let mut s = self;
        s.config.targets = Some(owned);
        proof {
            assert(s.config@.targets matches Some(ts) && ts =~~= targets.deep_view());
            assert(s.config@ =~= (ConfigV { targets: Some(targets.deep_view()), ..self.config@ }));
        }
        s
    }

    /// Register one channel of kind `kind` with minimum level `level`.
    fn add_channel(self, kind: ChannelKind, level: LevelFilter) -> (r: Ftail)
        ensures
            r.config == self.config,
            r.channels@ == self.channels@.push((LogChannel { kind, level })),
    {
        let mut s = self;
        s.channels.push(LogChannel { kind, level });
        s
    }

    /// Register a plain console channel.
    pub fn console(self, level: LevelFilter) -> (r: Ftail)
        ensures
            r.config == self.config,
            r.channels@ == self.channels@.push((LogChannel { kind: ChannelKind::Console, level })),
    {
        self.add_channel(ChannelKind::Console, level)
    }

    /// Register a formatted console channel.
    pub fn formatted_console(self, level: LevelFilter) -> (r: Ftail)
        ensures
            r.config == self.config,
            r.channels@ == self.channels@.push(
                (LogChannel { kind: ChannelKind::FormattedConsole, level }),
            ),
    {
        self.add_channel(ChannelKind::FormattedConsole, level)
    }

    /// Register a single-file channel writing to `path`.
    pub fn single_file(self, path: &str, append: bool, level: LevelFilter) -> (r: Ftail)
        ensures
            r.config == self.config,
            r.channels@.len() == self.channels@.len() + 1,
            r.channels@.subrange(0, self.channels@.len() as int) == self.channels@,
            r.channels@.last().level == level,
            r.channels@.last().kind matches ChannelKind::SingleFile { path: p, append: a }
                && p@ == path@ && a == append,
    {
        let owned = String::from_str(path);
        let r = self.add_channel(ChannelKind::SingleFile { path: owned, append }, level);
        proof {
            assert(r.channels@.subrange(0, self.channels@.len() as int) =~= self.channels@);
        }
        r
    }

    /// Register a daily-file channel writing under `dir`.
    pub fn daily_file(self, dir: &str, level: LevelFilter) -> (r: Ftail)
        ensures
            r.config == self.config,
            r.channels@.len() == self.channels@.len() + 1,
            r.channels@.subrange(0, self.channels@.len() as int) == self.channels@,
            r.channels@.last().level == level,
            r.channels@.last().kind matches ChannelKind::DailyFile { dir: d } && d@ == dir@,
    {
        let owned = String::from_str(dir);
        let r = self.add_channel(ChannelKind::DailyFile { dir: owned }, level);
        proof {
            assert(r.channels@.subrange(0, self.channels@.len() as int) =~= self.channels@);
        }
        r
    }

    /// Register a channel whose sink the embedding application supplies;
    /// its slot keeps this position in the registration order, and
    /// routing applies `level` to it like to any other channel.
    pub fn custom(self, level: LevelFilter) -> (r: Ftail)
        ensures
            r.config == self.config,
            r.channels@ == self.channels@.push((LogChannel { kind: ChannelKind::Custom, level })),
    {
        self.add_channel(ChannelKind::Custom, level)
    }

    /// Finalize the builder: every registered channel gets its own copy of
    /// the configuration with its minimum level filled in. Fails exactly
    /// when no channel was registered.
    pub fn init(self) -> (r: Result<ActiveLogger, FtailError>)
        ensures
            r is Err <==> self.channels@.len() == 0,
            r matches Err(e) ==> e == FtailError::NoChannelsError,
            r matches Ok(a) ==> init_produces(self, a),
    {
        if self.channels.len() == 0 {
            return Err(FtailError::NoChannelsError);
        }
        let ghost orig = self.channels@;
        let config = self.config;
        let mut rest = self.channels;
        let mut done: Vec<ActiveChannel> = Vec::new();
        while rest.len() > 0
            invariant
                done@.len() + rest@.len() == orig.len(),
                rest@ == orig.subrange(done@.len() as int, orig.len() as int),
                forall|i: int| 0 <= i < done@.len() ==> {
                    &&& (#[trigger] done@[i]).kind == orig[i].kind
                    &&& done@[i].config@ == with_level(config@, orig[i].level)
                },
            decreases rest@.len(),
        {
            let ch = rest.remove(0);
            proof {
                assert(ch == orig[done@.len() as int]);
                assert(rest@ =~= orig.subrange(done@.len() + 1 as int, orig.len() as int));
            }
            let mut c = config.duplicate();
            c.level_filter = ch.level;
            proof {
                assert(c@ =~= with_level(config@, ch.level));
            }
            done.push(ActiveChannel { kind: ch.kind, config: c });
        }
        Ok(ActiveLogger { channels: done, config })
    }
}

impl Default for Ftail {
    fn default() -> (r: Ftail)
        ensures
            r.channels@.len() == 0,
            r.config@ == default_config(),
    {
        Ftail::new()
    }
}

/// What `init` guarantees of the active logger it yields for builder `b`:
/// the global configuration is kept, and channel `i` keeps its kind and
/// carries the shared configuration with its own minimum level.
pub open spec fn init_produces(b: Ftail, a: ActiveLogger) -> bool {
    &&& a.config@ == b.config@
    &&& a.channels@.len() == b.channels@.len()
    &&& forall|i: int| 0 <= i < b.channels@.len() ==> {
        &&& (#[trigger] a.channels@[i]).kind == b.channels@[i].kind
        &&& a.channels@[i].config@ == with_level(b.config@, b.channels@[i].level)
    }
}

impl ActiveLogger {
    /// Channel `i` receives an event of this level and target: the global
    /// filters admit it and the channel's own minimum level admits it.
    pub open spec fn delivers(self, level: Level, target: Seq<char>, i: int) -> bool {
        global_accepts(self.config@, level, target)
            && sink_accepts(self.channels@[i].config@.level_filter, level)
    }

    /// The global filters admit an event of this level and target.
    pub fn enabled(&self, level: Level, target: &str) -> (r: bool)
        ensures
            r == global_accepts(self.config@, level, target@),
    {
        config_accepts(&self.config, level, target)
    }

    /// The channels, in registration order, that `event` is to be written
    /// to: exactly those that `delivers` names.
    pub fn route(&self, event: &LogEvent) -> (r: Vec<usize>)
        ensures
            forall|k: int| 0 <= k < r@.len() ==> (r@[k] as int) < self.channels@.len(),
            forall|k1: int, k2: int| 0 <= k1 < k2 < r@.len() ==> r@[k1] < r@[k2],
            forall|i: int|
                0 <= i < self.channels@.len()
                    ==> (r@.contains(i as usize) <==> self.delivers(
                    event.level,
                    event.target@,
                    i,
                )),
    {
        let mut r: Vec<usize> = Vec::new();
        if !self.enabled(event.level, event.target.as_str()) {
            assert(forall|i: int|
                0 <= i < self.channels@.len() ==> !self.delivers(event.level, event.target@, i));
            assert(forall|i: int| !(#[trigger] r@.contains(i as usize)));
            return r;
        }
        let mut i: usize = 0;
        while i < self.channels.len()
            invariant
                i <= self.channels@.len(),
                global_accepts(self.config@, event.level, event.target@),
                forall|k: int| 0 <= k < r@.len() ==> (r@[k] as int) < i,
                forall|k1: int, k2: int| 0 <= k1 < k2 < r@.len() ==> r@[k1] < r@[k2],
                forall|j: int|
                    0 <= j < i ==> (r@.contains(j as usize) <==> self.delivers(
                        event.level,
                        event.target@,
                        j,
                    )),
            decreases self.channels@.len() - i,
        {
            let ghost prev = r@;
            if level_passes(event.level, self.channels[i].config.level_filter) {
                r.push(i);
            }
            proof {
                assert forall|j: int| 0 <= j < i + 1 implies (r@.contains(j as usize)
                    <==> self.delivers(event.level, event.target@, j)) by {
                    if r@ == prev.push(i as usize) {
                        assert(r@[r@.len() - 1] == i as usize);
                        if j < i {
                            assert(r@.contains(j as usize) <==> prev.contains(j as usize)) by {
                                if prev.contains(j as usize) {
                                    let k = choose|k: int|
                                        0 <= k < prev.len() && prev[k] == j as usize;
                                    assert(r@[k] == j as usize);
                                }
                                if r@.contains(j as usize) {
                                    let k = choose|k: int| 0 <= k < r@.len() && r@[k] == j as usize;
                                    assert(k < prev.len());
                                    assert(prev[k] == j as usize);
                                }
                            }
                        }
                    } else {
                        assert(r@ == prev);
                    }
                }
            }
            i += 1;
        }
        r
    }

    /// The flush plan: every channel, in registration order.
    pub open spec fn flush_plan(self) -> Seq<usize> {
        Seq::new(self.channels@.len(), |i: int| i as usize)
    }

    /// The channels to flush, in registration order: all of them, so a
    /// failure on one (handled by the surrounding process) still leaves
    /// every later channel listed.
    pub fn flush_order(&self) -> (r: Vec<usize>)
        ensures
            r@ == self.flush_plan(),
    {
        let mut r: Vec<usize> = Vec::new();
        let mut i: usize = 0;
        while i < self.channels.len()
            invariant
                i <= self.channels@.len(),
                r@.len() == i,
                forall|k: int| 0 <= k < i ==> r@[k] == k as usize,
            decreases self.channels@.len() - i,
        {
            r.push(i);
            i += 1;
        }
        proof {
            assert(r@ =~= self.flush_plan());
        }
        r
    }
}

/// Law: once a builder is finalized, an event is delivered to channel `i`
/// exactly when its level passes the minimum level that channel was
/// registered with and the global level and target filters accept it.
pub proof fn lemma_delivery(b: Ftail, a: ActiveLogger, level: Level, target: Seq<char>, i: int)
    requires
        init_produces(b, a),
        0 <= i < b.channels@.len(),
    ensures
        a.delivers(level, target, i) <==> (sink_accepts(b.channels@[i].level, level)
            && global_accepts(b.config@, level, target)),
{
    assert(a.channels@[i].config@.level_filter == b.channels@[i].level);
}

/// Law: flushing mutates nothing and is idempotent — the flush plan is a
/// function of the immutable channel set alone, so two consecutive flushes
/// with no intervening change drive the same channels in the same order.
pub proof fn lemma_flush_idempotent(a: ActiveLogger, r1: Seq<usize>, r2: Seq<usize>)
    requires
        r1 == a.flush_plan(),
        r2 == a.flush_plan(),
    ensures
        r1 == r2,
{
}

} // verus!
