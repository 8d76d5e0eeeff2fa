//! The join screen's room-id check.

use vstd::prelude::*;
use crate::text::{char_is_hex, is_hex, trim, trimmed};
use crate::uuid_text::{is_hyphen_position, is_hyphenated_uuid, is_uuid_text};

verus! {

/// Whether `value` looks like a room id: 36 characters, hex digits with hyphens at
/// positions 8, 13, 18 and 23. (Such a text is ASCII, so its characters are its bytes.)
pub fn is_uuid_like(value: &str) -> (r: bool)
    ensures
        r == is_hyphenated_uuid(value@),
{
    let n = value.unicode_len();
    if n != 36 {
        return false;
    }
    let mut i: usize = 0;
    while i < 36
        invariant
            n == value@.len(),
            n == 36,
            i <= 36,
            forall|k: int| 0 <= k < i ==> if is_hyphen_position(k) { value@[k] == '-' } else { is_hex(#[trigger] value@[k]) },
        decreases 36 - i,
    {
        let c = value.get_char(i);
        if i == 8 || i == 13 || i == 18 || i == 23 {
            if c != '-' {
                return false;
            }
        } else if !char_is_hex(c) {
            return false;
        }
        i = i + 1;
    }
    true
}

/// Every room id the join screen lets through is one the services' UUID parser accepts.
pub proof fn law_uuid_like_is_uuid_text(s: Seq<char>)
    requires
        is_hyphenated_uuid(s),
    ensures
        is_uuid_text(s),
{
}

pub const ERR_ENTER_ROOM_ID: &'static str = "Enter a room ID.";
pub const ERR_ROOM_ID_NOT_UUID: &'static str = "Room ID must be a UUID.";

/// The message under the room-id field while typing: asks for an id while the field
/// is blank.
pub fn room_input_error(value: &str) -> (r: Option<&'static str>)
    ensures
        r is Some <==> trim(value@).len() == 0,
        r matches Some(m) ==> m@ == ERR_ENTER_ROOM_ID@,
{
    let t = trimmed(value);
    if t.as_str().unicode_len() == 0 {
        Some(ERR_ENTER_ROOM_ID)
    } else {
        None
    }
}

/// What submitting the join form does.
#[derive(Clone, Debug, PartialEq, Eq)]
pub enum JoinSubmit {
    /// A join is already running.
    Ignore,
    /// The id is refused with this message.
    Invalid(&'static str),
    /// Join the room with this id.
    Join(String),
}

/// Submitting the join form: ignored while busy; the trimmed id must be present and
/// look like a UUID.
pub fn join_submit(busy: bool, room_target: &str) -> (r: JoinSubmit)
    ensures
        busy ==> r == JoinSubmit::Ignore,
        !busy && trim(room_target@).len() == 0 ==> (r matches JoinSubmit::Invalid(m) && m@ == ERR_ENTER_ROOM_ID@),
        !busy && trim(room_target@).len() > 0 && !is_hyphenated_uuid(trim(room_target@)) ==> (r matches JoinSubmit::Invalid(
            m,
        ) && m@ == ERR_ROOM_ID_NOT_UUID@),
        !busy && is_hyphenated_uuid(trim(room_target@)) ==> (r matches JoinSubmit::Join(id) && id@ == trim(room_target@)),
{
    if busy {
        return JoinSubmit::Ignore;
    }
    let value = trimmed(room_target);
    if value.as_str().unicode_len() == 0 {
        return JoinSubmit::Invalid(ERR_ENTER_ROOM_ID);
    }
    if !is_uuid_like(value.as_str()) {
        return JoinSubmit::Invalid(ERR_ROOM_ID_NOT_UUID);
    }
    JoinSubmit::Join(value)
}

} // verus!
