//! Per-sink configuration.
//!
//! One `Config` is built up while the logger is assembled and then cloned
//! into every sink when the logger is finalized, with the sink's own
//! minimum level put in place of the builder's. It is immutable from then
//! on.

use vstd::prelude::*;
use crate::level::Level;
use crate::level::LevelFilter;

verus! {

/// Configuration owned by one sink (and, during building, by the builder).
pub struct Config {
    /// Minimum level this sink admits; `Off` admits everything.
    pub level_filter: LevelFilter,
    /// Format string handed to the datetime renderer.
    pub datetime_format: String,
    /// Size threshold in bytes at which a file sink rolls its file over;
    /// `None` disables size rotation.
    pub max_file_size: Option<u64>,
    /// Age in whole days past which rotated daily files are pruned;
    /// `None` disables pruning.
    pub retention_days: Option<u64>,
    /// Global allow-list of levels; `None` admits every level.
    pub levels: Option<Vec<Level>>,
    /// Global allow-list of target prefixes; `None` admits every target.
    pub targets: Option<Vec<String>>,
}

/// Mathematical image of a `Config`: strings as character sequences.
#[verifier::ext_equal]
pub struct ConfigV {
    pub level_filter: LevelFilter,
    pub datetime_format: Seq<char>,
    pub max_file_size: Option<u64>,
    pub retention_days: Option<u64>,
    pub levels: Option<Seq<Level>>,
    pub targets: Option<Seq<Seq<char>>>,
}

impl View for Config {
    type V = ConfigV;

    open spec fn view(&self) -> ConfigV {
        ConfigV {
            level_filter: self.level_filter,
            datetime_format: self.datetime_format@,
            max_file_size: self.max_file_size,
            retention_days: self.retention_days,
            levels: match self.levels {
                Some(v) => Some(v@),
                None => None,
            },
            targets: match self.targets {
                Some(v) => Some(v.deep_view()),
                None => None,
            },
        }
    }
}

/// The configuration a fresh builder starts from: no per-sink filtering,
/// a plain date-time format, and no rotation, retention or global filters.
pub open spec fn default_config() -> ConfigV {
    ConfigV {
        level_filter: LevelFilter::Off,
        datetime_format: "%Y-%m-%d %H:%M:%S"@,
        max_file_size: None,
        retention_days: None,
        levels: None,
        targets: None,
    }
}

impl Config {
    /// The default configuration.
    pub fn new() -> (r: Config)
        ensures
            r@ == default_config(),
    {
        let r = Config {
            level_filter: LevelFilter::Off,
            datetime_format: String::from_str("%Y-%m-%d %H:%M:%S"),
            max_file_size: None,
            retention_days: None,
            levels: None,
            targets: None,
        };
        proof {
            assert(r@ =~= default_config());
        }
        r
    }

    /// An independent copy with the same image.
    pub fn duplicate(&self) -> (r: Config)
        ensures
            r@ == self@,
    {
        let levels: Option<Vec<Level>> = match &self.levels {
            Some(v) => Some(copy_levels(v)),
            None => None,
        };
        let targets: Option<Vec<String>> = match &self.targets {
            Some(v) => Some(copy_strings(v)),
            None => None,
        };
        let r = Config {
            level_filter: self.level_filter,
            datetime_format: self.datetime_format.clone(),
            max_file_size: self.max_file_size,
            retention_days: self.retention_days,
            levels,
            targets,
        };
        proof {
            assert(r@ =~= self@);
        }
        r
    }
}

impl Default for Config {
    fn default() -> (r: Config)
        ensures
            r@ == default_config(),
    {
        Config::new()
    }
}

/// Element-wise copy of a level list.
fn copy_levels(v: &Vec<Level>) -> (r: Vec<Level>)
    ensures
        r@ == v@,
{
    let mut r: Vec<Level> = Vec::new();
    let mut i: usize = 0;
    while i < v.len()
        invariant
            i <= v.len(),
            r@ == v@.subrange(0, i as int),
        decreases v.len() - i,
    {
        r.push(v[i]);
        i += 1;
    }
    proof {
        assert(r@ =~= v@);
    }
    r
}

/// Element-wise copy of a string list, equal view by view.
fn copy_strings(v: &Vec<String>) -> (r: Vec<String>)
    ensures
        r.deep_view() == v.deep_view(),
{
    let mut r: Vec<String> = Vec::new();
    let mut i: usize = 0;
    while i < v.len()
        invariant
            i <= v.len(),
            r@.len() == i,
            forall|j: int| 0 <= j < i ==> r@[j]@ == v@[j]@,
        decreases v.len() - i,
    {
        r.push(v[i].clone());
        i += 1;
    }
    proof {
        assert(r.deep_view() =~~= v.deep_view());
    }
    r
}

} // verus!
