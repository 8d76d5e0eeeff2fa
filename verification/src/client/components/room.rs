//! The room screen: which participants a page shows, the paging controls, the stage
//! caption, and the speaker device applied to playback. Tile geometry, which is
//! computed in floating point, stays with the page.

pub mod tiles;

use vstd::prelude::*;
use crate::client::webrtc_room::{eq_ignore_ascii_case, str_eq_ignore_ascii_case};
use crate::text::{trim, trimmed};

verus! {

/// Visible room-id length in the top chip; the full id is still copied.
pub const MAX_ROOM_ID_DISPLAY_CHARS: usize = 11;
/// Participants per page of the presentation rail.
pub const RAIL_TILES_PER_PAGE: usize = 4;
/// Columns and rows of the paged grid.
pub const GRID_COLS: usize = 3;
pub const GRID_ROWS: usize = 2;
/// Participants per page of the grid.
pub const TILES_PER_PAGE: usize = 6;

/// Pages of the grid: one while everyone fits, else enough pages of six.
pub open spec fn spec_grid_page_count(total: nat) -> nat {
    if total <= TILES_PER_PAGE { 1 } else { ((total + TILES_PER_PAGE - 1) / TILES_PER_PAGE as int) as nat }
}

/// Pages of the presentation rail: everyone but one, four to a page, plus one.
pub open spec fn spec_rail_page_count(total: nat) -> nat {
    (if total == 0 { 0 } else { total - 1 }) as nat / RAIL_TILES_PER_PAGE as nat + 1
}

/// The number of grid pages for `total` participants.
pub fn grid_page_count(total: usize) -> (r: usize)
    ensures
        r == spec_grid_page_count(total as nat),
{
    if total <= TILES_PER_PAGE {
        1
    } else {
        (total - 1) / TILES_PER_PAGE + 1
    }
}

/// The number of rail pages for `total` participants.
pub fn rail_page_count(total: usize) -> (r: usize)
    ensures
        r == spec_rail_page_count(total as nat),
{
    total.saturating_sub(1) / RAIL_TILES_PER_PAGE + 1
}

/// The participants a page shows, `start..end`, and its paging state.
#[derive(Clone, Copy, Debug, PartialEq, Eq)]
pub struct PageWindow {
    pub page: usize,
    pub page_count: usize,
    pub start: usize,
    pub end: usize,
    pub show_arrows: bool,
}

/// The page shown, the requested one clamped to the last page, and its participants:
/// in presentation the rail's four to a page (arrows when there are several pages),
/// otherwise the grid's six (arrows when the grid pages).
pub open spec fn spec_page_window(presentation: bool, page_index: nat, total: nat) -> (int, int, int, int, bool) {
    let per = if presentation { RAIL_TILES_PER_PAGE as int } else { TILES_PER_PAGE as int };
    let count = if presentation { spec_rail_page_count(total) as int } else { spec_grid_page_count(total) as int };
    let page = if page_index < count - 1 { page_index as int } else { count - 1 };
    let start = page * per;
    let end = if start + per < total { start + per } else { total as int };
    (page, count, start, end, count > 1)
}

/// Which participants the room page shows for the requested page.
pub fn page_window(presentation: bool, page_index: usize, participant_count: usize) -> (r: PageWindow)
    ensures
        (r.page as int, r.page_count as int, r.start as int, r.end as int, r.show_arrows)
            == spec_page_window(presentation, page_index as nat, participant_count as nat),
        r.page < r.page_count,
        r.start <= r.end <= participant_count || (participant_count == 0 && r.start == 0 && r.end == 0),
{
    let per: usize = if presentation { RAIL_TILES_PER_PAGE } else { TILES_PER_PAGE };
    let count = if presentation { rail_page_count(participant_count) } else { grid_page_count(participant_count) };
    let page = if page_index < count - 1 { page_index } else { count - 1 };
    assert(page * per <= participant_count || page == 0) by (nonlinear_arith)
        requires
            per == 4 || per == 6,
            page <= count - 1,
            per == 4 ==> count == (if participant_count == 0 { 0 } else { participant_count - 1 }) / 4 + 1,
            per == 6 ==> (participant_count <= 6 ==> count == 1),
            per == 6 ==> (participant_count > 6 ==> count == (participant_count - 1) / 6 + 1),
    ;
    let start = page * per;
    let end = if start < participant_count && participant_count - start > per { start + per } else { participant_count };
    PageWindow { page, page_count: count, start, end, show_arrows: count > 1 }
}

/// The page before `page_index`, staying at the first.
pub fn page_prev(page_index: usize) -> (r: usize)
    ensures
        r == if page_index == 0 { 0 } else { page_index - 1 },
{
    page_index.saturating_sub(1)
}

/// The page after `page_index`, staying at the last of `page_count`.
pub fn page_next(page_index: usize, page_count: usize) -> (r: usize)
    ensures
        r == if page_index + 1 < (if page_count == 0 { 0 } else { page_count - 1 }) {
            page_index + 1
        } else {
            if page_count == 0 { 0 } else { page_count - 1 }
        },
{
    let max_page = page_count.saturating_sub(1);
    if page_index < max_page && page_index + 1 < max_page { page_index + 1 } else { max_page }
}

/// Consecutive pages take consecutive participants: every page starts where the one
/// before it ended, the first at the first participant, and the last page ends with the
/// last participant.
pub proof fn law_pages_cover_participants(presentation: bool, total: nat, p: nat)
    requires
        total > 0,
        p + 1 < spec_page_window(presentation, 0, total).1,
    ensures
        spec_page_window(presentation, 0, total).2 == 0,
        spec_page_window(presentation, p + 1, total).2 == spec_page_window(presentation, p, total).3,
        spec_page_window(presentation, (spec_page_window(presentation, 0, total).1 - 1) as nat, total).3 == total,
{
    let per: int = if presentation { 4 } else { 6 };
    let count = spec_page_window(presentation, 0, total).1;
    assert(0int * per == 0);
    assert(0int * 4 == 0 && 0int * 6 == 0);
    assert((p + 1) * 4 == p * 4 + 4 && (p + 1) * 6 == p * 6 + 6) by (nonlinear_arith);
    if presentation {
        assert(count == (total - 1) / 4 + 1);
        assert((p + 1) * 4 <= total - 1) by (nonlinear_arith)
            requires
                p + 1 < (total - 1) / 4 + 1,
                total > 0,
        ;
        assert((count - 1) * 4 <= total - 1 && total - 1 < count * 4) by (nonlinear_arith)
            requires
                count == (total - 1) / 4 + 1,
                total > 0,
        ;
    } else {
        if total <= 6 {
            assert(count == 1);
        } else {
            assert(count == (total + 5) / 6);
            assert((p + 1) * 6 < total) by (nonlinear_arith)
                requires
                    p + 1 < (total + 5) / 6,
                    total > 6,
            ;
            assert((count - 1) * 6 < total && total <= count * 6) by (nonlinear_arith)
                requires
                    count == (total + 5) / 6,
                    total > 6,
            ;
        }
    }
}

/// The caption of the presentation stage: the client's own screen, the presenter's
/// name, or a generic caption.
pub fn stage_caption(screen_sharing: bool, remote_presentation_owner: Option<&str>) -> (r: String)
    ensures
        r@ == if screen_sharing {
            "Your screen"@
        } else {
            match remote_presentation_owner {
                Some(owner) => owner@,
                None => "Shared screen"@,
            }
        },
{
    if screen_sharing {
        String::from_str("Your screen")
    } else {
        match remote_presentation_owner {
            Some(owner) => String::from_str(owner),
            None => String::from_str("Shared screen"),
        }
    }
}

/// The speaker device applied to playback: the trimmed id, unless it is empty or
/// `default` (in any case), in which case the browser's output is left alone.
pub fn playback_sink_id(speaker_device_id: &str) -> (r: Option<String>)
    ensures
        r matches Some(id) ==> id@ == trim(speaker_device_id@),
        r is Some <==> (trim(speaker_device_id@).len() > 0 && !eq_ignore_ascii_case(trim(speaker_device_id@), "default"@)),
{
    let id = trimmed(speaker_device_id);
    if id.as_str().unicode_len() == 0 || str_eq_ignore_ascii_case(id.as_str(), "default") {
        None
    } else {
        Some(id)
    }
}

/// What the screen-share button does.
#[derive(Clone, Copy, Debug, PartialEq, Eq)]
pub enum ScreenShareToggle {
    /// Stop the share in progress.
    Stop,
    /// Open the display picker.
    OpenPicker,
}

/// Sharing stops the share; otherwise the picker opens.
pub fn screen_share_toggle(screen_sharing: bool) -> (r: ScreenShareToggle)
    ensures
        r == if screen_sharing { ScreenShareToggle::Stop } else { ScreenShareToggle::OpenPicker },
{
    if screen_sharing { ScreenShareToggle::Stop } else { ScreenShareToggle::OpenPicker }
}

} // verus!
