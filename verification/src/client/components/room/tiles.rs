//! Participant names as tiles show them.

use vstd::prelude::*;

verus! {

/// Longest participant name a tile shows, in characters.
pub const MAX_NAME_CHARS: usize = 32;

/// `s` cut to at most `max` characters: when longer, its first `max - 1` followed by
/// `…`, or nothing at all when `max` is zero.
pub open spec fn spec_truncate(s: Seq<char>, max: nat) -> Seq<char> {
    if s.len() <= max {
        s
    } else if max == 0 {
        Seq::empty()
    } else {
        s.take(max - 1) + seq!['\u{2026}']
    }
}

/// Truncates `s` to at most `max` characters, ending with `…` when cut.
pub fn truncate_str(s: &str, max: usize) -> (r: String)
    ensures
        r@ == spec_truncate(s@, max as nat),
{
    let n = s.unicode_len();
    if n <= max {
        return String::from_str(s);
    }
    if max == 0 {
        return String::new();
    }
    let keep = max - 1;
    proof {
        reveal_strlit("\u{2026}");
    }
    String::from_str(s.substring_char(0, keep)).concat("\u{2026}")
}

/// A truncated name has at most `max` characters, and a name that fits is left alone.
pub proof fn law_truncate_bounded(s: Seq<char>, max: nat)
    ensures
        spec_truncate(s, max).len() <= max,
        s.len() <= max ==> spec_truncate(s, max) == s,
{
}

} // verus!
