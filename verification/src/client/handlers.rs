//! Nickname checks of the first nickname form. Lengths count characters; the length
//! checks come after the character check, so the nickname is ASCII there and they are
//! also its byte lengths.

use vstd::prelude::*;
use crate::client::nickname::{only_nickname_chars, only_underscores, nickname_char};
use crate::text::char_is_alnum;

verus! {

pub const MAX_NICKNAME_LEN: usize = 24;

pub const ERR_REQUIRED: &'static str = "Nickname is required";
pub const ERR_CHARS: &'static str = "Use only letters, numbers, and underscores";
pub const ERR_CHARS_LIVE: &'static str = "Use only english letters, numbers, and underscores";
pub const ERR_TOO_SHORT: &'static str = "Use at least 3 characters";
pub const ERR_TOO_LONG: &'static str = "Use up to 24 characters";
pub const ERR_ONLY_UNDERSCORES: &'static str = "Nickname cannot contain only underscores";

/// The length and underscore checks that follow the character check.
pub open spec fn length_error(s: Seq<char>) -> Option<Seq<char>> {
    if s.len() < 3 {
        Some(ERR_TOO_SHORT@)
    } else if s.len() > MAX_NICKNAME_LEN {
        Some(ERR_TOO_LONG@)
    } else if only_underscores(s) {
        Some(ERR_ONLY_UNDERSCORES@)
    } else {
        None
    }
}

/// The message a nickname is refused with on submit: empty first, then characters,
/// then length and underscores.
pub open spec fn submit_error(s: Seq<char>) -> Option<Seq<char>> {
    if s.len() == 0 {
        Some(ERR_REQUIRED@)
    } else if !only_nickname_chars(s) {
        Some(ERR_CHARS@)
    } else {
        length_error(s)
    }
}

/// The message shown while typing: characters always, the rest once a submit was tried.
pub open spec fn live_error(s: Seq<char>, submit_attempted: bool) -> Option<Seq<char>> {
    if !only_nickname_chars(s) {
        Some(ERR_CHARS_LIVE@)
    } else if !submit_attempted {
        None
    } else if s.len() == 0 {
        Some(ERR_REQUIRED@)
    } else {
        length_error(s)
    }
}

fn nickname_chars_only(value: &str) -> (r: bool)
    ensures
        r == only_nickname_chars(value@),
{
    let n = value.unicode_len();
    let mut i: usize = 0;
    while i < n
        invariant
            n == value@.len(),
            i <= n,
            forall|k: int| 0 <= k < i ==> nickname_char(#[trigger] value@[k]),
        decreases n - i,
    {
        let c = value.get_char(i);
        if !(char_is_alnum(c) || c == '_') {
            return false;
        }
        i = i + 1;
    }
    true
}

fn underscores_only(value: &str) -> (r: bool)
    ensures
        r == only_underscores(value@),
{
    let n = value.unicode_len();
    let mut i: usize = 0;
    while i < n
        invariant
            n == value@.len(),
            i <= n,
            forall|k: int| 0 <= k < i ==> #[trigger] value@[k] == '_',
        decreases n - i,
    {
        if value.get_char(i) != '_' {
            return false;
        }
        i = i + 1;
    }
    true
}

fn length_check(value: &str) -> (r: Result<(), &'static str>)
    ensures
        match r {
            Ok(()) => length_error(value@) is None,
            Err(m) => length_error(value@) == Some(m@),
        },
{
    let n = value.unicode_len();
    if n < 3 {
        return Err(ERR_TOO_SHORT);
    }
    if n > MAX_NICKNAME_LEN {
        return Err(ERR_TOO_LONG);
    }
    if underscores_only(value) {
        return Err(ERR_ONLY_UNDERSCORES);
    }
    Ok(())
}

/// Checks a submitted nickname.
pub fn validate_nickname(value: &str) -> (r: Result<(), &'static str>)
    ensures
        match r {
            Ok(()) => submit_error(value@) is None,
            Err(m) => submit_error(value@) == Some(m@),
        },
{
    if value.unicode_len() == 0 {
        return Err(ERR_REQUIRED);
    }
    if !nickname_chars_only(value) {
        return Err(ERR_CHARS);
    }
    length_check(value)
}

/// Checks a nickname while it is typed: length and empty-field messages appear only
/// after the user tried to submit.
pub fn validate_nickname_live(value: &str, submit_attempted: bool) -> (r: Result<(), &'static str>)
    ensures
        match r {
            Ok(()) => live_error(value@, submit_attempted) is None,
            Err(m) => live_error(value@, submit_attempted) == Some(m@),
        },
{
    if !nickname_chars_only(value) {
        return Err(ERR_CHARS_LIVE);
    }
    if !submit_attempted {
        return Ok(());
    }
    if value.unicode_len() == 0 {
        return Err(ERR_REQUIRED);
    }
    length_check(value)
}

/// The nickname field's new value: the text as typed.
pub fn handle_nickname_change(raw: &str) -> (r: String)
    ensures
        r@ == raw@,
{
    String::from_str(raw)
}

/// The continue button of the first nickname form does nothing yet.
pub fn handle_continue_click(_nickname: &str) {
}

/// After a submit attempt the live check accepts exactly what the submit check
/// accepts; before one, it never refuses what the submit check accepts.
pub proof fn law_live_accepts_what_submit_accepts(s: Seq<char>, submit_attempted: bool)
    ensures
        live_error(s, true) is None <==> submit_error(s) is None,
        submit_error(s) is None ==> live_error(s, submit_attempted) is None,
{
}

} // verus!
