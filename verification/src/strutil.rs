//! String predicates the filters and the pruner rely on.

use vstd::prelude::*;

verus! {

/// `p` is an initial segment of `s`.
pub open spec fn is_prefix_of(p: Seq<char>, s: Seq<char>) -> bool {
    p.len() <= s.len() && s.subrange(0, p.len() as int) == p
}

/// Decide whether `s` starts with `prefix`.
pub fn starts_with(s: &str, prefix: &str) -> (r: bool)
    ensures
        r == is_prefix_of(prefix@, s@),
{
    let pl = prefix.unicode_len();
    let sl = s.unicode_len();
    if pl > sl {
        return false;
    }
    let mut i: usize = 0;
    while i < pl
        invariant
            pl <= sl,
            pl as int == prefix@.len(),
            sl as int == s@.len(),
            i <= pl,
            forall|j: int| 0 <= j < i ==> s@[j] == prefix@[j],
        decreases pl - i,
    {
        if s.get_char(i) != prefix.get_char(i) {
            assert(s@.subrange(0, pl as int)[i as int] != prefix@[i as int]);
            return false;
        }
        i += 1;
    }
    proof {
        assert(s@.subrange(0, pl as int) =~= prefix@);
    }
    true
}

/// The character sequence `.log`.
pub open spec fn log_suffix() -> Seq<char> {
    seq!['.', 'l', 'o', 'g']
}

/// `name` is a log-file name: a non-empty stem followed by `.log`.
pub open spec fn is_log_name(name: Seq<char>) -> bool {
    name.len() >= 5 && name.subrange(name.len() - 4, name.len() as int) == log_suffix()
}

/// Decide whether `name` names a log file (non-empty stem, `.log` suffix).
pub fn has_log_suffix(name: &str) -> (r: bool)
    ensures
        r == is_log_name(name@),
{
    let n = name.unicode_len();
    if n < 5 {
        return false;
    }
    let r = name.get_char(n - 4) == '.' && name.get_char(n - 3) == 'l'
        && name.get_char(n - 2) == 'o' && name.get_char(n - 1) == 'g';
    proof {
        let tail = name@.subrange(name@.len() - 4, name@.len() as int);
        if r {
            assert(tail =~= log_suffix());
        } else {
            assert(tail[0] == name@[name@.len() - 4]);
            assert(tail[1] == name@[name@.len() - 3]);
            assert(tail[2] == name@[name@.len() - 2]);
            assert(tail[3] == name@[name@.len() - 1]);
        }
    }
    r
}

} // verus!
