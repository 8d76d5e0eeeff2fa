//! The per-process timeout of storage operations: set once at start-up, two seconds
//! until then.

use vstd::prelude::*;

verus! {

/// Milliseconds a storage operation may take when none was configured.
pub const DEFAULT_OP_TIMEOUT_MS: u64 = 2_000;

/// A write-once cell for the storage operation timeout, in milliseconds.
pub struct OpTimeout {
    configured: Option<u64>,
}

/// The cell after `set(value)`: the first value set stays.
pub open spec fn spec_set(cell: Option<u64>, value: u64) -> Option<u64> {
    match cell {
        Some(v) => Some(v),
        None => Some(value),
    }
}

/// The timeout that a cell holding `cell` gives.
pub open spec fn spec_get(cell: Option<u64>) -> u64 {
    match cell {
        Some(v) => v,
        None => DEFAULT_OP_TIMEOUT_MS,
    }
}

impl View for OpTimeout {
    type V = Option<u64>;

    closed spec fn view(&self) -> Option<u64> {
        self.configured
    }
}

impl OpTimeout {
    /// A cell with nothing set.
    pub fn new() -> (r: Self)
        ensures
            r@ is None,
    {
        OpTimeout { configured: None }
    }

    /// Records `value_ms` unless a value was recorded before.
    pub fn set(&mut self, value_ms: u64)
        ensures
            final(self)@ == spec_set(old(self)@, value_ms),
    {
        if self.configured.is_none() {
            self.configured = Some(value_ms);
        }
    }

    /// The recorded timeout, or the default.
    pub fn get(&self) -> (r: u64)
        ensures
            r == spec_get(self@),
    {
        match self.configured {
            Some(v) => v,
            None => DEFAULT_OP_TIMEOUT_MS,
        }
    }
}

/// Only the first timeout set counts: later ones leave it unchanged, and before any
/// is set the timeout is two seconds.
pub proof fn law_first_timeout_wins(cell: Option<u64>, first: u64, later: u64)
    ensures
        spec_get(None) == 2_000,
        cell is None ==> spec_get(spec_set(spec_set(cell, first), later)) == first,
        cell matches Some(v) ==> spec_get(spec_set(cell, first)) == v,
{
}

} // verus!
