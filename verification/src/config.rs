//! Parsing of the two environment-style toggles.
//!
//! Both toggles arrive as raw bytes of an environment value. A value is
//! compared case-insensitively after surrounding whitespace is removed.
//! The fast-durations toggle is off unless the value is affirmative
//! (`1`, `true`, `yes`, `on`); the enforcement-mode toggle is on unless
//! the value is negative (`0`, `false`, `no`, `off`). Reading the
//! environment itself is the caller's business; only the decision lives
//! here.

use vstd::prelude::*;

verus! {

/// ASCII whitespace, as removed from the ends of a value.
pub open spec fn spec_is_ws(b: u8) -> bool {
    b == 9 || b == 10 || b == 11 || b == 12 || b == 13 || b == 32
}

/// ASCII lowercasing of one byte.
pub open spec fn spec_lower(b: u8) -> u8 {
    if 65 <= b && b <= 90 {
        (b + 32) as u8
    } else {
        b
    }
}

/// ASCII lowercasing of a whole byte sequence.
pub open spec fn spec_lowered(s: Seq<u8>) -> Seq<u8> {
    Seq::new(s.len(), |i: int| spec_lower(s[i]))
}

/// The sequence with its leading whitespace removed.
pub open spec fn spec_trim_front(s: Seq<u8>) -> Seq<u8>
    decreases s.len(),
{
    if s.len() > 0 && spec_is_ws(s[0]) {
        spec_trim_front(s.subrange(1, s.len() as int))
    } else {
        s
    }
}

/// The sequence with its trailing whitespace removed.
pub open spec fn spec_trim_back(s: Seq<u8>) -> Seq<u8>
    decreases s.len(),
{
    if s.len() > 0 && spec_is_ws(s[s.len() - 1]) {
        spec_trim_back(s.subrange(0, s.len() - 1))
    } else {
        s
    }
}

/// The sequence with whitespace removed from both ends.
pub open spec fn spec_trimmed(s: Seq<u8>) -> Seq<u8> {
    spec_trim_back(spec_trim_front(s))
}

/// A value normalized for comparison: trimmed, then lowercased.
pub open spec fn spec_normalized(s: Seq<u8>) -> Seq<u8> {
    spec_lowered(spec_trimmed(s))
}

/// An affirmative value: `1`, `true`, `yes` or `on` once normalized
/// (written here as ASCII codes).
pub open spec fn spec_affirmative(s: Seq<u8>) -> bool {
    ||| spec_normalized(s) == seq![49u8]
    ||| spec_normalized(s) == seq![116u8, 114u8, 117u8, 101u8]
    ||| spec_normalized(s) == seq![121u8, 101u8, 115u8]
    ||| spec_normalized(s) == seq![111u8, 110u8]
}

/// A negative value: `0`, `false`, `no` or `off` once normalized
/// (written here as ASCII codes).
pub open spec fn spec_negative(s: Seq<u8>) -> bool {
    ||| spec_normalized(s) == seq![48u8]
    ||| spec_normalized(s) == seq![102u8, 97u8, 108u8, 115u8, 101u8]
    ||| spec_normalized(s) == seq![110u8, 111u8]
    ||| spec_normalized(s) == seq![111u8, 102u8, 102u8]
}

fn is_ws(b: u8) -> (r: bool)
    ensures
        r == spec_is_ws(b),
{
    b == 9 || b == 10 || b == 11 || b == 12 || b == 13 || b == 32
}

fn lower(b: u8) -> (r: u8)
    ensures
        r == spec_lower(b),
{
    if b >= 65 && b <= 90 {
        b + 32
    } else {
        b
    }
}

/// The normalized form of a raw value: whitespace trimmed from both ends,
/// the rest lowercased.
fn normalized(raw: &[u8]) -> (v: Vec<u8>)
    ensures
        v@ == spec_normalized(raw@),
{
    let len = raw.len();
    proof {
        assert(raw@.subrange(0, len as int) =~= raw@);
    }
    let mut i: usize = 0;
    while i < len && is_ws(raw[i])
        invariant
            len == raw@.len(),
            i <= len,
            spec_trim_front(raw@) == spec_trim_front(raw@.subrange(i as int, len as int)),
        decreases len - i,
    {
        proof {
            let s = raw@.subrange(i as int, len as int);
            assert(s.subrange(1, s.len() as int) =~= raw@.subrange(i + 1, len as int));
        }
        i = i + 1;
    }
    proof {
        assert(spec_trim_front(raw@) == raw@.subrange(i as int, len as int));
    }
    let mut j: usize = len;
    while j > i && is_ws(raw[j - 1])
        invariant
            len == raw@.len(),
            i <= j <= len,
            spec_trim_front(raw@) == raw@.subrange(i as int, len as int),
            spec_trimmed(raw@) == spec_trim_back(raw@.subrange(i as int, j as int)),
        decreases j,
    {
        proof {
            let s = raw@.subrange(i as int, j as int);
            assert(s.subrange(0, s.len() - 1) =~= raw@.subrange(i as int, j - 1));
        }
        j = j - 1;
    }
    proof {
        assert(spec_trimmed(raw@) == raw@.subrange(i as int, j as int));
    }
    let mut v: Vec<u8> = Vec::new();
    let mut k: usize = i;
    while k < j
        invariant
            len == raw@.len(),
            i <= k <= j <= len,
            v@ == spec_lowered(raw@.subrange(i as int, k as int)),
        decreases j - k,
    {
        v.push(lower(raw[k]));
        proof {
            assert(v@ =~= spec_lowered(raw@.subrange(i as int, k + 1)));
        }
        k = k + 1;
    }
    proof {
        assert(v@ == spec_lowered(spec_trimmed(raw@)));
    }
    v
}

/// Whether the fast-durations toggle is set by this raw value. Off by
/// default: only an affirmative value turns it on, so an absent variable
/// is passed as the empty value.
pub fn fast_durations_enabled(raw: &[u8]) -> (r: bool)
    ensures
        r == spec_affirmative(raw@),
{
    let v = normalized(raw);
    let r: bool = if v.len() == 1 {
        v[0] == 49
    } else if v.len() == 2 {
        v[0] == 111 && v[1] == 110
    } else if v.len() == 3 {
        v[0] == 121 && v[1] == 101 && v[2] == 115
    } else if v.len() == 4 {
        v[0] == 116 && v[1] == 114 && v[2] == 117 && v[3] == 101
    } else {
        false
    };
    proof {
        if r {
            if v@.len() == 1 {
                assert(v@ =~= seq![49u8]);
            } else if v@.len() == 2 {
                assert(v@ =~= seq![111u8, 110u8]);
            } else if v@.len() == 3 {
                assert(v@ =~= seq![121u8, 101u8, 115u8]);
            } else {
                assert(v@ =~= seq![116u8, 114u8, 117u8, 101u8]);
            }
        }
    }
    r
}

/// Whether enforcement (kiosk) mode is on for this raw value. On by
/// default: anything but an explicitly negative value keeps it on, and an
/// absent variable is passed as the default value `1`.
pub fn enforcement_mode_enabled(raw: &[u8]) -> (r: bool)
    ensures
        r == !spec_negative(raw@),
{
    let v = normalized(raw);
    let negative: bool = if v.len() == 1 {
        v[0] == 48
    } else if v.len() == 2 {
        v[0] == 110 && v[1] == 111
    } else if v.len() == 3 {
        v[0] == 111 && v[1] == 102 && v[2] == 102
    } else if v.len() == 5 {
        v[0] == 102 && v[1] == 97 && v[2] == 108 && v[3] == 115 && v[4] == 101
    } else {
        false
    };
    proof {
        if negative {
            if v@.len() == 1 {
                assert(v@ =~= seq![48u8]);
            } else if v@.len() == 2 {
                assert(v@ =~= seq![110u8, 111u8]);
            } else if v@.len() == 3 {
                assert(v@ =~= seq![111u8, 102u8, 102u8]);
            } else {
                assert(v@ =~= seq![102u8, 97u8, 108u8, 115u8, 101u8]);
            }
        }
    }
    !negative
}

} // verus!
