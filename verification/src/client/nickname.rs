//! Nickname checks of the nickname screen: the characters first, then the shape.
//! Lengths count characters; a nickname that passes the character check is ASCII, so
//! they are also its byte lengths.

use vstd::prelude::*;
use crate::text::{char_is_alnum, char_is_space, is_alnum, is_space};

verus! {

pub const MIN_NICKNAME_LEN: usize = 3;
pub const MAX_NICKNAME_LEN: usize = 24;

pub const ERR_CHARS: &'static str = "Use only English letters, numbers, and underscores";
pub const ERR_WHITESPACE: &'static str = "Spaces and line breaks are not allowed";
pub const ERR_REQUIRED: &'static str = "Nickname is required";
pub const ERR_TOO_SHORT: &'static str = "Use at least 3 characters";
pub const ERR_TOO_LONG: &'static str = "Use up to 24 characters";
pub const ERR_ONLY_UNDERSCORES: &'static str = "Nickname cannot contain only underscores";

/// A character a nickname may hold: an ASCII letter or digit, or `_`.
pub open spec fn nickname_char(c: char) -> bool {
    is_alnum(c) || c == '_'
}

pub open spec fn has_whitespace(s: Seq<char>) -> bool {
    exists|i: int| 0 <= i < s.len() && is_space(#[trigger] s[i])
}

pub open spec fn only_nickname_chars(s: Seq<char>) -> bool {
    forall|i: int| 0 <= i < s.len() ==> nickname_char(#[trigger] s[i])
}

pub open spec fn only_underscores(s: Seq<char>) -> bool {
    forall|i: int| 0 <= i < s.len() ==> #[trigger] s[i] == '_'
}

/// The character check: whitespace is reported first, then any other character that
/// is not a letter, digit or underscore.
pub open spec fn charset_error(s: Seq<char>) -> Option<Seq<char>> {
    if has_whitespace(s) {
        Some(ERR_WHITESPACE@)
    } else if !only_nickname_chars(s) {
        Some(ERR_CHARS@)
    } else {
        None
    }
}

/// The shape check: present, 3 to 24 characters, not only underscores.
pub open spec fn shape_error(s: Seq<char>) -> Option<Seq<char>> {
    if s.len() == 0 {
        Some(ERR_REQUIRED@)
    } else if s.len() < MIN_NICKNAME_LEN {
        Some(ERR_TOO_SHORT@)
    } else if s.len() > MAX_NICKNAME_LEN {
        Some(ERR_TOO_LONG@)
    } else if only_underscores(s) {
        Some(ERR_ONLY_UNDERSCORES@)
    } else {
        None
    }
}

/// The message a submitted nickname is refused with, if any.
pub open spec fn nickname_error(s: Seq<char>) -> Option<Seq<char>> {
    match charset_error(s) {
        Some(e) => Some(e),
        None => shape_error(s),
    }
}

/// The message shown while typing; the shape is only checked once a submit was tried.
pub open spec fn live_nickname_error(s: Seq<char>, submit_attempted: bool) -> Option<Seq<char>> {
    match charset_error(s) {
        Some(e) => Some(e),
        None => if submit_attempted { shape_error(s) } else { None },
    }
}

fn charset_check(value: &str) -> (r: Result<(), &'static str>)
    ensures
        match r {
            Ok(()) => charset_error(value@) is None,
            Err(m) => charset_error(value@) == Some(m@),
        },
{
    let n = value.unicode_len();
    let mut i: usize = 0;
    while i < n
        invariant
            n == value@.len(),
            i <= n,
            forall|k: int| 0 <= k < i ==> !is_space(#[trigger] value@[k]),
        decreases n - i,
    {
        if char_is_space(value.get_char(i)) {
            return Err(ERR_WHITESPACE);
        }
        i = i + 1;
    }
    let mut j: usize = 0;
    while j < n
        invariant
            n == value@.len(),
            j <= n,
            !has_whitespace(value@),
            forall|k: int| 0 <= k < j ==> nickname_char(#[trigger] value@[k]),
        decreases n - j,
    {
        let c = value.get_char(j);
        if !(char_is_alnum(c) || c == '_') {
            return Err(ERR_CHARS);
        }
        j = j + 1;
    }
    Ok(())
}

fn all_underscores(value: &str) -> (r: bool)
    ensures
        r == only_underscores(value@),
{
    let n = value.unicode_len();
    let mut i: usize = 0;
    while i < n
        invariant
            n == value@.len(),
            i <= n,
            forall|k: int| 0 <= k < i ==> #[trigger] value@[k] == '_',
        decreases n - i,
    {
        if value.get_char(i) != '_' {
            return false;
        }
        i = i + 1;
    }
    true
}

fn shape_check(value: &str) -> (r: Result<(), &'static str>)
    ensures
        match r {
            Ok(()) => shape_error(value@) is None,
            Err(m) => shape_error(value@) == Some(m@),
        },
{
    let n = value.unicode_len();
    if n == 0 {
        return Err(ERR_REQUIRED);
    }
    if n < MIN_NICKNAME_LEN {
        return Err(ERR_TOO_SHORT);
    }
    if n > MAX_NICKNAME_LEN {
        return Err(ERR_TOO_LONG);
    }
    if all_underscores(value) {
        return Err(ERR_ONLY_UNDERSCORES);
    }
    Ok(())
}

/// Checks a nickname on submit: its characters, then its shape.
pub fn validate_nickname(value: &str) -> (r: Result<(), &'static str>)
    ensures
        match r {
            Ok(()) => nickname_error(value@) is None,
            Err(m) => nickname_error(value@) == Some(m@),
        },
{
    charset_check(value)?;
    shape_check(value)
}

/// Checks a nickname while it is typed: its characters, and its shape once a submit
/// was tried.
pub fn validate_nickname_live(value: &str, submit_attempted: bool) -> (r: Result<(), &'static str>)
    ensures
        match r {
            Ok(()) => live_nickname_error(value@, submit_attempted) is None,
            Err(m) => live_nickname_error(value@, submit_attempted) == Some(m@),
        },
{
    charset_check(value)?;
    if submit_attempted {
        shape_check(value)?;
    }
    Ok(())
}

/// After a submit attempt the live check says exactly what the submit check says;
/// before it, the live check refuses only what the submit check also refuses.
pub proof fn law_live_check_agrees_with_submit(s: Seq<char>)
    ensures
        live_nickname_error(s, true) == nickname_error(s),
        live_nickname_error(s, false) is Some ==> nickname_error(s) is Some,
{
}

/// A nickname that passes is 3 to 24 letters, digits and underscores, not all
/// underscores.
pub proof fn law_accepted_nickname_shape(s: Seq<char>)
    requires
        nickname_error(s) is None,
    ensures
        MIN_NICKNAME_LEN <= s.len() <= MAX_NICKNAME_LEN,
        forall|i: int| 0 <= i < s.len() ==> nickname_char(#[trigger] s[i]),
        exists|i: int| 0 <= i < s.len() && #[trigger] s[i] != '_',
{
}

} // verus!
