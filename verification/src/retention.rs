//! Retention pruning.
//!
//! Once per write, a daily sink looks at the files in its directory and
//! removes those log files whose age in whole days exceeds the retention
//! window. The file currently written to is never removed, and a file's
//! failure to be examined or removed is the caller's to isolate: the
//! decisions below only name indices to delete.

use vstd::prelude::*;
use std::time::SystemTime;
use crate::clock::age_in_days;
use crate::strutil::is_log_name;
use crate::strutil::has_log_suffix;

verus! {

/// One directory entry as handed in by the surrounding process: the file
/// name (without its directory) and its last-modification time.
pub struct FileEntry {
    pub name: String,
    pub modified: SystemTime,
}

/// A file of this name and age is to be pruned: it is a log file, it is
/// not the file currently written to, and its age is known and exceeds
/// the window. A file whose age the clock could not determine is kept:
/// pruning only ever deletes what is known to be older than the window.
pub open spec fn prune_target(
    name: Seq<char>,
    age: Option<i64>,
    retention: int,
    keep: Seq<char>,
) -> bool {
    is_log_name(name) && name != keep && (age matches Some(a) && a > retention)
}

/// Decide whether an age in whole days exceeds the retention window.
pub fn should_prune(age_days: i64, retention_days: u64) -> (r: bool)
    ensures
        r == (age_days as int > retention_days as int),
{
    if retention_days >= 0x8000_0000_0000_0000 {
        return false;
    }
    age_days > retention_days as i64
}

/// The indices, in ascending order, of the files to delete: exactly those
/// whose name is a log file name other than `keep` and whose age exceeds
/// `retention_days`.
pub fn prune_decisions(
    names: &Vec<String>,
    ages: &Vec<Option<i64>>,
    retention_days: u64,
    keep: &String,
) -> (r: Vec<usize>)
    requires
        names@.len() == ages@.len(),
    ensures
        forall|k1: int, k2: int| 0 <= k1 < k2 < r@.len() ==> r@[k1] < r@[k2],
        forall|k: int| 0 <= k < r@.len() ==> (r@[k] as int) < names@.len(),
        forall|i: int|
            0 <= i < names@.len()
                ==> (r@.contains(i as usize) <==> prune_target(
                names@[i]@,
                ages@[i],
                retention_days as int,
                keep@,
            )),
{
    let mut r: Vec<usize> = Vec::new();
    let mut i: usize = 0;
    while i < names.len()
        invariant
            i <= names@.len(),
            names@.len() == ages@.len(),
            forall|k: int| 0 <= k < r@.len() ==> (r@[k] as int) < i,
            forall|k1: int, k2: int| 0 <= k1 < k2 < r@.len() ==> r@[k1] < r@[k2],
            forall|j: int|
                0 <= j < i ==> (r@.contains(j as usize) <==> prune_target(
                    names@[j]@,
                    ages@[j],
                    retention_days as int,
                    keep@,
                )),
        decreases names@.len() - i,
    {
        let ghost prev = r@;
        let age_known = match ages[i] {
            Some(a) => should_prune(a, retention_days),
            None => false,
        };
        let is_target = has_log_suffix(names[i].as_str()) && !(names[i] == *keep) && age_known;
        if is_target {
            r.push(i);
        }
        proof {
            assert forall|j: int| 0 <= j < i + 1 implies (r@.contains(j as usize) <==> prune_target(
                names@[j]@,
                ages@[j],
                retention_days as int,
                keep@,
            )) by {
                if r@ == prev.push(i as usize) {
                    assert(r@[r@.len() - 1] == i as usize);
                    if j < i {
                        assert(r@.contains(j as usize) <==> prev.contains(j as usize)) by {
                            if prev.contains(j as usize) {
                                let k = choose|k: int| 0 <= k < prev.len() && prev[k] == j as usize;
                                assert(r@[k] == j as usize);
                            }
                            if r@.contains(j as usize) {
                                let k = choose|k: int| 0 <= k < r@.len() && r@[k] == j as usize;
                                assert(k < prev.len());
                                assert(prev[k] == j as usize);
                            }
                        }
                    }
                } else {
                    assert(r@ == prev);
                }
            }
        }
        i += 1;
    }
    r
}

/// Look at every directory entry and name the ones to delete, in
/// ascending order of their position in `entries`. Every named entry is a
/// log file other than `keep`; which of those are named depends on the
/// ages the clock reports.
pub fn prune_plan(entries: &Vec<FileEntry>, retention_days: u64, keep: &String) -> (r: Vec<usize>)
    ensures
        forall|k1: int, k2: int| 0 <= k1 < k2 < r@.len() ==> r@[k1] < r@[k2],
        forall|k: int| 0 <= k < r@.len() ==> (r@[k] as int) < entries@.len(),
        forall|k: int|
            0 <= k < r@.len() ==> is_log_name(entries@[r@[k] as int].name@)
                && entries@[r@[k] as int].name@ != keep@,
{
    let mut names: Vec<String> = Vec::new();
    let mut ages: Vec<Option<i64>> = Vec::new();
    let mut i: usize = 0;
    while i < entries.len()
        invariant
            i <= entries@.len(),
            names@.len() == i,
            ages@.len() == i,
            forall|j: int| 0 <= j < i ==> names@[j]@ == entries@[j].name@,
        decreases entries@.len() - i,
    {
        names.push(entries[i].name.clone());
        ages.push(age_in_days(&entries[i].modified));
        i += 1;
    }
    let r = prune_decisions(&names, &ages, retention_days, keep);
    proof {
        assert forall|k: int|
            0 <= k < r@.len() implies (r@[k] as int) < entries@.len() && is_log_name(
            entries@[r@[k] as int].name@,
        ) && entries@[r@[k] as int].name@ != keep@ by {
            let j = r@[k] as int;
            assert(0 <= j < names@.len());
            assert(r@.contains(j as usize)) by {
                assert(r@[k] == j as usize);
            }
            assert(prune_target(names@[j]@, ages@[j], retention_days as int, keep@));
        }
    }
    r
}

} // verus!
