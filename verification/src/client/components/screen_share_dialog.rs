//! The display picker: selecting a display, and the status line and share button.

use vstd::prelude::*;
use crate::text::{concat3, strings_view};

verus! {

/// Picking the selected display again clears the selection; picking another selects it.
pub fn toggle_selection(selected: Option<usize>, idx: usize) -> (r: Option<usize>)
    ensures
        r == if selected == Some(idx) { None } else { Some(idx) },
{
    match selected {
        Some(s) => if s == idx { None } else { Some(idx) },
        None => Some(idx),
    }
}

/// The status line over the display list.
pub open spec fn spec_status_text(loading: bool, labels: Seq<Seq<char>>, selected: Option<usize>) -> Seq<char> {
    if loading {
        "Loading displays\u{2026}"@
    } else if labels.len() == 0 {
        "No screens detected"@
    } else {
        match selected {
            Some(i) => "Selected: "@ + (if i < labels.len() { labels[i as int] } else { Seq::empty() })
                + " \u{2014} press Share to start"@,
            None => "Pick a display below, then press Share."@,
        }
    }
}

/// The status line, given the display labels in order.
pub fn status_text(loading: bool, labels: &Vec<String>, selected: Option<usize>) -> (r: String)
    ensures
        r@ == spec_status_text(loading, strings_view(labels@), selected),
{
    if loading {
        return String::from_str("Loading displays\u{2026}");
    }
    if labels.len() == 0 {
        return String::from_str("No screens detected");
    }
    match selected {
        Some(i) => {
            let label = if i < labels.len() { labels[i].as_str() } else { "" };
            proof {
                reveal_strlit("");
                assert(""@ =~= Seq::<char>::empty());
            }
            concat3("Selected: ", label, " \u{2014} press Share to start")
        },
        None => String::from_str("Pick a display below, then press Share."),
    }
}

/// Sharing is possible once displays are listed and one is selected.
pub fn share_disabled(loading: bool, display_count: usize, selected: Option<usize>) -> (r: bool)
    ensures
        r == (loading || display_count == 0 || selected is None),
{
    loading || display_count == 0 || selected.is_none()
}

/// The display shared when the share button is pressed: the selected one, if it exists.
pub fn share_target(selected: Option<usize>, display_count: usize) -> (r: Option<usize>)
    ensures
        r == match selected {
            Some(i) => if i < display_count { Some(i) } else { None },
            None => None,
        },
{
    match selected {
        Some(i) => if i < display_count { Some(i) } else { None },
        None => None,
    }
}

} // verus!
