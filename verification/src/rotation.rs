//! Size-based rotation policy.
//!
//! A file sink rolls its file over once the file has reached the
//! configured size. Rolling over renumbers the rotated files upward — the
//! active file becomes `.old1`, the previous `.old1` becomes `.old2`, and
//! so on — and then reopens the active path empty. The chain is capped at
//! [`MAX_ROTATED_FILES`] rotated files: when the cap is reached, the
//! oldest rotated file is removed before the renumbering.

use vstd::prelude::*;

verus! {

/// How many `.oldN` files are kept at most; the oldest is dropped when a
/// rotation would exceed this.
pub const MAX_ROTATED_FILES: u64 = 9;

/// Rotation is due: a size threshold is configured and the file has
/// reached it.
pub open spec fn spec_should_rotate(current_size: u64, max_size: Option<u64>) -> bool {
    match max_size {
        Some(m) => current_size >= m,
        None => false,
    }
}

/// Decide whether a file of `current_size` bytes is due for rotation
/// under the configured threshold.
pub fn should_rotate(current_size: u64, max_size: Option<u64>) -> (r: bool)
    ensures
        r == spec_should_rotate(current_size, max_size),
{
    match max_size {
        Some(m) => current_size >= m,
        None => false,
    }
}

/// The digit character for a rotated-file index.
pub open spec fn digit_char(d: int) -> char {
    if d == 1 {
        '1'
    } else if d == 2 {
        '2'
    } else if d == 3 {
        '3'
    } else if d == 4 {
        '4'
    } else if d == 5 {
        '5'
    } else if d == 6 {
        '6'
    } else if d == 7 {
        '7'
    } else if d == 8 {
        '8'
    } else {
        '9'
    }
}

/// The name of the `idx`-th rotated file: `<path>.old<idx>`.
pub open spec fn rotated_name(path: Seq<char>, idx: int) -> Seq<char> {
    path + seq!['.', 'o', 'l', 'd'] + seq![digit_char(idx)]
}

/// Render `<path>.old<idx>`.
pub fn rotated_file_name(path: &str, idx: u64) -> (r: String)
    requires
        1 <= idx <= MAX_ROTATED_FILES,
    ensures
        r@ == rotated_name(path@, idx as int),
{
    let digit: &str = match idx {
        1 => "1",
        2 => "2",
        3 => "3",
        4 => "4",
        5 => "5",
        6 => "6",
        7 => "7",
        8 => "8",
        _ => "9",
    };
    proof {
        reveal_strlit("1");
        reveal_strlit("2");
        reveal_strlit("3");
        reveal_strlit("4");
        reveal_strlit("5");
        reveal_strlit("6");
        reveal_strlit("7");
        reveal_strlit("8");
        reveal_strlit("9");
        reveal_strlit(".old");
        assert(digit@ =~= seq![digit_char(idx as int)]);
    }
    let r = String::from_str(path).concat(".old").concat(digit);
    proof {
        assert(r@ =~= rotated_name(path@, idx as int));
    }
    r
}

/// One file rename the rotation asks for.
pub struct RotationStep {
    pub from: String,
    pub to: String,
}

/// Everything one size rotation asks the file system for, in execution
/// order: first the optional removal of the oldest rotated file, then the
/// renames oldest-first, the last of which moves the active file to
/// `.old1`; the active path is then reopened empty.
pub struct RotationPlan {
    pub remove_oldest: Option<String>,
    pub renames: Vec<RotationStep>,
}

/// What a correct rotation plan for `path` with `old_count` existing
/// rotated files looks like. `shift` rotated files are renumbered upward;
/// when the cap is already full, the oldest is removed first.
pub open spec fn rotation_plan_ok(path: Seq<char>, old_count: int, r: RotationPlan) -> bool {
    let shift = if old_count == MAX_ROTATED_FILES { old_count - 1 } else { old_count };
    &&& (r.remove_oldest is Some <==> old_count == MAX_ROTATED_FILES)
    &&& (r.remove_oldest matches Some(p) ==> p@ == rotated_name(path, MAX_ROTATED_FILES as int))
    &&& r.renames@.len() == shift + 1
    &&& forall|k: int| 0 <= k < shift ==> {
        &&& (#[trigger] r.renames@[k]).from@ == rotated_name(path, shift - k)
        &&& r.renames@[k].to@ == rotated_name(path, shift - k + 1)
    }
    &&& r.renames@[shift].from@ == path
    &&& r.renames@[shift].to@ == rotated_name(path, 1)
}

/// Build the rotation plan for `path`, given how many `.oldN` files exist.
pub fn rotation_plan(path: &str, old_count: u64) -> (r: RotationPlan)
    requires
        old_count <= MAX_ROTATED_FILES,
    ensures
        rotation_plan_ok(path@, old_count as int, r),
{
    let shift: u64 = if old_count == MAX_ROTATED_FILES { old_count - 1 } else { old_count };
    let remove_oldest: Option<String> = if old_count == MAX_ROTATED_FILES {
        Some(rotated_file_name(path, MAX_ROTATED_FILES))
    } else {
        None
    };
    let mut renames: Vec<RotationStep> = Vec::new();
    let mut j: u64 = shift;
    while j >= 1
        invariant
            shift < MAX_ROTATED_FILES,
            j <= shift,
            renames@.len() == shift - j,
            forall|k: int| 0 <= k < renames@.len() ==> {
                &&& (#[trigger] renames@[k]).from@ == rotated_name(path@, shift - k)
                &&& renames@[k].to@ == rotated_name(path@, shift - k + 1)
            },
        decreases j,
    {
        renames.push(RotationStep {
            from: rotated_file_name(path, j),
            to: rotated_file_name(path, j + 1),
        });
        j = j - 1;
    }
    renames.push(RotationStep { from: String::from_str(path), to: rotated_file_name(path, 1) });
    RotationPlan { remove_oldest, renames }
}

} // verus!
