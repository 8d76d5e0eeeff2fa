//! The main menu: its create and join actions and the join prompt.

use vstd::prelude::*;
use crate::text::{trim, trimmed};

verus! {

/// The room id to join from the prompt's answer: none while an action runs, when the
/// prompt was dismissed, or when the answer is blank; else the trimmed answer.
pub fn prompted_room_id(busy: bool, answer: Option<String>) -> (r: Option<String>)
    ensures
        r is Some <==> (!busy && (answer matches Some(a) && trim(a@).len() > 0)),
        r matches Some(id) ==> (answer matches Some(a) && id@ == trim(a@)),
{
    if busy {
        return None;
    }
    match answer {
        Some(a) => {
            let t = trimmed(a.as_str());
            if t.as_str().unicode_len() == 0 {
                None
            } else {
                Some(t)
            }
        },
        None => None,
    }
}

/// The main menu's action state: whether a create or join is running, and the error
/// of the last one.
#[derive(Clone, Debug, PartialEq, Eq)]
pub struct MenuActions {
    pub action_busy: bool,
    pub action_error: Option<String>,
}

impl MenuActions {
    /// Idle, with no error.
    pub fn new() -> (r: Self)
        ensures
            !r.action_busy && r.action_error is None,
    {
        MenuActions { action_busy: false, action_error: None }
    }

    /// The create button: ignored while an action runs; else the menu turns busy, the
    /// error is cleared, and `true` says to ask the connector for a new room.
    pub fn on_create(&mut self) -> (r: bool)
        ensures
            r == !old(self).action_busy,
            old(self).action_busy ==> *final(self) == *old(self),
            !old(self).action_busy ==> final(self).action_busy && final(self).action_error is None,
    {
        if self.action_busy {
            return false;
        }
        self.action_busy = true;
        self.action_error = None;
        true
    }

    /// The join button with the prompt's `answer`: ignored while an action runs or when
    /// the answer is missing or blank; else the menu turns busy, the error is cleared,
    /// and the trimmed room id is returned for the connector.
    pub fn on_join(&mut self, answer: Option<String>) -> (r: Option<String>)
        ensures
            r is Some <==> (!old(self).action_busy && (answer matches Some(a) && trim(a@).len() > 0)),
            r matches Some(id) ==> (answer matches Some(a) && id@ == trim(a@)),
            r is None ==> *final(self) == *old(self),
            r is Some ==> final(self).action_busy && final(self).action_error is None,
    {
        let room_id = prompted_room_id(self.action_busy, answer);
        if room_id.is_some() {
            self.action_busy = true;
            self.action_error = None;
        }
        room_id
    }

    /// The connector's answer to a create or join: the menu is idle again; `true` says
    /// the handoff to signaling is complete, and a failure's message is kept.
    pub fn on_action_result(&mut self, result: Result<(), String>) -> (r: bool)
        ensures
            !final(self).action_busy,
            r == result is Ok,
            match result {
                Ok(()) => final(self).action_error == old(self).action_error,
                Err(m) => final(self).action_error == Some(m),
            },
    {
        self.action_busy = false;
        match result {
            Ok(()) => true,
            Err(m) => {
                self.action_error = Some(m);
                false
            },
        }
    }
}

} // verus!
