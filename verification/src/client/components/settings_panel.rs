//! The settings panel: its device data, and the level sliders.

pub mod data;

use vstd::prelude::*;
use crate::decimal::{parse_u32, parse_unsigned};

verus! {

pub const MIN_LEVEL: u32 = 0;
pub const MAX_LEVEL: u32 = 200;
pub const DEFAULT_LEVEL: u32 = 100;

/// The level a slider's text gives: its number clamped to 0..=200, the default 100
/// when the text is not a `u32`.
pub open spec fn spec_slider_level(text: Seq<char>) -> u32 {
    match parse_unsigned(text, u32::MAX as nat) {
        Some(n) => if n > MAX_LEVEL { MAX_LEVEL } else { n as u32 },
        None => DEFAULT_LEVEL,
    }
}

/// The level a slider reports for its input text.
pub fn slider_level(text: &str) -> (r: u32)
    ensures
        r == spec_slider_level(text@),
        MIN_LEVEL <= r <= MAX_LEVEL,
{
    let n = match parse_u32(text) {
        Some(n) => n,
        None => DEFAULT_LEVEL,
    };
    if n > MAX_LEVEL { MAX_LEVEL } else { n }
}

} // verus!
