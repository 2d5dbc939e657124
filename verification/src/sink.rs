//! The file sinks' decision logic.
//!
//! A sink here is the verified state behind one output file: the
//! surrounding process owns the file handle and the lock, asks these
//! functions what to do before each write — roll over by size, switch to a
//! new day's file, prune old files, and which line to append — and then
//! performs exactly the file operations the returned plan names, all under
//! the one lock, so the whole decide-then-write sequence is atomic with
//! respect to other writers.

use vstd::prelude::*;
use crate::clock::today_string;
use crate::config::Config;
use crate::error::FtailError;
use crate::event::LogEvent;
use crate::format::DefaultFormatter;
use crate::format::spec_format_line;
use crate::level::Level;
use crate::level::level_passes;
use crate::level::sink_accepts;
use crate::retention::FileEntry;
use crate::retention::prune_plan;
use crate::rotation::MAX_ROTATED_FILES;
use crate::rotation::RotationPlan;
use crate::rotation::rotation_plan;
use crate::rotation::rotation_plan_ok;
use crate::rotation::should_rotate;
use crate::rotation::spec_should_rotate;
use crate::strutil::is_log_name;
use crate::strutil::log_suffix;

verus! {

/// The file a daily sink writes on `date`: `<dir>/<date>.log`.
pub open spec fn daily_path(dir: Seq<char>, date: Seq<char>) -> Seq<char> {
    dir + seq!['/'] + date + log_suffix()
}

/// The bare file name of a daily file: `<date>.log`.
pub open spec fn date_name(date: Seq<char>) -> Seq<char> {
    date + log_suffix()
}

/// Render `<dir>/<date>.log`.
pub fn daily_file_path(dir: &str, date: &str) -> (r: String)
    ensures
        r@ == daily_path(dir@, date@),
{
    proof {
        reveal_strlit("/");
        reveal_strlit(".log");
    }
    let r = String::from_str(dir).concat("/").concat(date).concat(".log");
    proof {
        assert(r@ =~= daily_path(dir@, date@));
    }
    r
}

/// Render `<date>.log`.
pub fn date_file_name(date: &str) -> (r: String)
    ensures
        r@ == date_name(date@),
{
    proof {
        reveal_strlit(".log");
    }
    let r = String::from_str(date).concat(".log");
    proof {
        assert(r@ =~= date_name(date@));
    }
    r
}

/// The state behind a single-file sink: its fixed path, whether it was
/// opened appending, and its configuration.
pub struct SingleLogger {
    pub path: String,
    pub append: bool,
    pub config: Config,
}

impl SingleLogger {
    /// The construction decision for a single-file sink: the caller has
    /// opened (or failed to open) the path and reports whether it is
    /// read-only; a read-only target is refused with a permission error
    /// naming the path, and nothing else is refused.
    pub fn new(path: &str, append: bool, readonly: bool, config: Config) -> (r: Result<
        SingleLogger,
        FtailError,
    >)
        ensures
            r is Err <==> readonly,
            r matches Err(e) ==> (e matches FtailError::PermissionsError(p) && p@ == path@),
            r matches Ok(s) ==> s.path@ == path@ && s.append == append && s.config == config,
    {
        if readonly {
            return Err(FtailError::PermissionsError(String::from_str(path)));
        }
        Ok(SingleLogger { path: String::from_str(path), append, config })
    }

    /// This sink's own minimum-level check.
    pub fn enabled(&self, level: Level) -> (r: bool)
        ensures
            r == sink_accepts(self.config.level_filter, level),
    {
        level_passes(level, self.config.level_filter)
    }

    /// The pre-write decision for one event: whether the event is
    /// admitted, whether the file is due for size rotation, and the line
    /// to append. The caller reports the file's current size and how many
    /// `.oldN` files exist beside it.
    pub fn plan_write(&self, event: &LogEvent, current_size: u64, old_count: u64) -> (r: WritePlan)
        requires
            old_count <= MAX_ROTATED_FILES,
        ensures
            !sink_accepts(self.config.level_filter, event.level) ==> plan_is_empty(r),
            sink_accepts(self.config.level_filter, event.level) ==> {
                &&& (r.size_rotation is Some <==> spec_should_rotate(
                    current_size,
                    self.config.max_file_size,
                ))
                &&& (r.size_rotation matches Some(pl) ==> rotation_plan_ok(
                    self.path@,
                    old_count as int,
                    pl,
                ))
                &&& r.open_path is None
                &&& r.deletes@.len() == 0
                &&& (r.line matches Some(l) && (exists|dt: Seq<char>|
                    l@ == spec_format_line(dt, event.level, event.target@, event.message@)))
            },
    {
        if !level_passes(event.level, self.config.level_filter) {
            return WritePlan {
                size_rotation: None,
                open_path: None,
                deletes: Vec::new(),
                line: None,
            };
        }
        let size_rotation: Option<RotationPlan> = if should_rotate(
            current_size,
            self.config.max_file_size,
        ) {
            Some(rotation_plan(self.path.as_str(), old_count))
        } else {
            None
        };
        let formatter = DefaultFormatter::new(event, &self.config);
        let line = formatter.format_now();
        WritePlan { size_rotation, open_path: None, deletes: Vec::new(), line: Some(line) }
    }
}

/// The state behind a daily-file sink: its directory, the path of the
/// file currently written to, the calendar date that file is named for,
/// and the sink's configuration.
pub struct DailyFileLogger {
    pub dir: String,
    pub file_path: String,
    pub current_date: String,
    pub config: Config,
}

/// Everything one write to a daily sink asks the file system for, in
/// execution order: the optional size rotation of the current file, then
/// optionally opening the new day's file, then removing the pruned files
/// (`deletes` indexes the directory listing the caller handed in), then
/// appending `line` and flushing.
pub struct WritePlan {
    pub size_rotation: Option<RotationPlan>,
    pub open_path: Option<String>,
    pub deletes: Vec<usize>,
    pub line: Option<String>,
}

/// A plan that asks for nothing.
pub open spec fn plan_is_empty(r: WritePlan) -> bool {
    r.size_rotation is None && r.open_path is None && r.deletes@.len() == 0 && r.line is None
}

impl DailyFileLogger {
    /// The sink's invariant: the current file is the one named for the
    /// stored date. Construction establishes it; every write decision
    /// preserves it, so no write ever targets a past date's file.
    pub open spec fn wf(self) -> bool {
        self.file_path@ == daily_path(self.dir@, self.current_date@)
    }

    /// The construction decision for a daily sink writing `date`'s file
    /// under `dir`: a read-only directory is refused with a permission
    /// error naming it, and nothing else is refused.
    pub fn for_date(dir: &str, date: &str, readonly: bool, config: Config) -> (r: Result<
        DailyFileLogger,
        FtailError,
    >)
        ensures
            r is Err <==> readonly,
            r matches Err(e) ==> (e matches FtailError::PermissionsError(p) && p@ == dir@),
            r matches Ok(s) ==> s.dir@ == dir@ && s.config == config && s.current_date@ == date@
                && s.wf(),
    {
        if readonly {
            return Err(FtailError::PermissionsError(String::from_str(dir)));
        }
        let file_path = daily_file_path(dir, date);
        Ok(
            DailyFileLogger {
                dir: String::from_str(dir),
                file_path,
                current_date: String::from_str(date),
                config,
            },
        )
    }

    /// The construction decision for a daily sink: today's file under
    /// `dir` becomes the current file; a read-only directory is refused
    /// with a permission error naming it, and nothing else is refused.
    pub fn new(dir: &str, readonly: bool, config: Config) -> (r: Result<DailyFileLogger, FtailError>)
        ensures
            r is Err <==> readonly,
            r matches Err(e) ==> (e matches FtailError::PermissionsError(p) && p@ == dir@),
            r matches Ok(s) ==> s.dir@ == dir@ && s.config == config && s.wf(),
    {
        let today = today_string();
        Self::for_date(dir, today.as_str(), readonly, config)
    }

    /// This sink's own minimum-level check.
    pub fn enabled(&self, level: Level) -> (r: bool)
        ensures
            r == sink_accepts(self.config.level_filter, level),
    {
        level_passes(level, self.config.level_filter)
    }

    /// The calendar-day switch: when `today` differs from the stored
    /// date, the sink moves to `<dir>/<today>.log` and returns that path
    /// for the caller to open; the prior file is left untouched. When the
    /// date is unchanged, nothing changes.
    pub fn switch_for_date(&mut self, today: &String) -> (r: Option<String>)
        ensures
            final(self).dir == old(self).dir,
            final(self).config == old(self).config,
            old(self).wf() ==> final(self).wf(),
            today@ == old(self).current_date@ ==> r is None && *final(self) == *old(self),
            today@ != old(self).current_date@ ==> (r matches Some(p) && p@ == daily_path(
                old(self).dir@,
                today@,
            ) && final(self).current_date@ == today@ && final(self).file_path@ == p@),
    {
        if self.current_date == *today {
            return None;
        }
        let p = daily_file_path(self.dir.as_str(), today.as_str());
        self.current_date = today.clone();
        self.file_path = p.clone();
        Some(p)
    }

    /// The whole pre-write decision for one event, made at the moment of
    /// the write: whether the event is admitted at all, whether the
    /// current file is due for size rotation, whether the calendar day has
    /// advanced (asking the clock), which of the caller's directory
    /// entries to prune, and the line to append. The caller reports the
    /// current file's size, how many `.oldN` files exist beside it, and
    /// the directory listing.
    pub fn plan_write(
        &mut self,
        event: &LogEvent,
        current_size: u64,
        old_count: u64,
        entries: &Vec<FileEntry>,
    ) -> (r: WritePlan)
        requires
            old_count <= MAX_ROTATED_FILES,
        ensures
            final(self).dir == old(self).dir,
            final(self).config == old(self).config,
            old(self).wf() ==> final(self).wf(),
            !sink_accepts(old(self).config.level_filter, event.level) ==> *final(self) == *old(
                self,
            ) && plan_is_empty(r),
            sink_accepts(old(self).config.level_filter, event.level) ==> {
                &&& (r.size_rotation is Some <==> spec_should_rotate(
                    current_size,
                    old(self).config.max_file_size,
                ))
                &&& (r.size_rotation matches Some(pl) ==> rotation_plan_ok(
                    old(self).file_path@,
                    old_count as int,
                    pl,
                ))
                &&& (r.open_path matches Some(p) ==> p@ == daily_path(
                    old(self).dir@,
                    final(self).current_date@,
                ) && final(self).file_path@ == p@ && final(self).current_date@ != old(
                    self,
                ).current_date@)
                &&& (r.open_path is None ==> final(self).current_date == old(self).current_date
                    && final(self).file_path == old(self).file_path)
                &&& (old(self).config.retention_days is None ==> r.deletes@.len() == 0)
                &&& (forall|k1: int, k2: int|
                    0 <= k1 < k2 < r.deletes@.len() ==> r.deletes@[k1] < r.deletes@[k2])
                &&& (forall|k: int|
                    0 <= k < r.deletes@.len() ==> (r.deletes@[k] as int) < entries@.len()
                        && is_log_name(entries@[r.deletes@[k] as int].name@)
                        && entries@[r.deletes@[k] as int].name@ != date_name(
                        final(self).current_date@,
                    ))
                &&& (r.line matches Some(l) && (exists|dt: Seq<char>|
                    l@ == spec_format_line(dt, event.level, event.target@, event.message@)))
            },
    {
        if !level_passes(event.level, self.config.level_filter) {
            return WritePlan {
                size_rotation: None,
                open_path: None,
                deletes: Vec::new(),
                line: None,
            };
        }
        let size_rotation: Option<RotationPlan> = if should_rotate(
            current_size,
            self.config.max_file_size,
        ) {
            Some(rotation_plan(self.file_path.as_str(), old_count))
        } else {
            None
        };
        let today = today_string();
        let open_path = self.switch_for_date(&today);
        let deletes: Vec<usize> = match self.config.retention_days {
            Some(d) => {
                let keep = date_file_name(self.current_date.as_str());
                prune_plan(entries, d, &keep)
            },
            None => Vec::new(),
        };
        let formatter = DefaultFormatter::new(event, &self.config);
        let line = formatter.format_now();
        WritePlan { size_rotation, open_path, deletes, line: Some(line) }
    }
}

/// How many lines a sequence of write plans appends in all: each plan
/// carries at most one line.
pub open spec fn appended_line_count(plans: Seq<WritePlan>) -> int
    decreases plans.len(),
{
    if plans.len() == 0 {
        0
    } else {
        appended_line_count(plans.drop_last()) + if plans.last().line is Some {
            1int
        } else {
            0int
        }
    }
}

/// Law: an admitted write appends exactly one line, so any sequence of
/// `k` admitted writes appends exactly `k` lines across all file
/// fragments together. The surrounding process executes each plan whole
/// under the sink's one lock, so writes from different threads land as
/// whole lines, never interleaved.
pub proof fn lemma_admitted_writes_append_one_line_each(plans: Seq<WritePlan>)
    requires
        forall|i: int| 0 <= i < plans.len() ==> (#[trigger] plans[i]).line is Some,
    ensures
        appended_line_count(plans) == plans.len(),
    decreases plans.len(),
{
    if plans.len() > 0 {
        lemma_admitted_writes_append_one_line_each(plans.drop_last());
    }
}

} // verus!
