//! The media session's decisions: the SFU's fixed media ids written into an SDP offer,
//! which participant and source a relayed track belongs to, stale-generation checks,
//! and the device constraint asked of the browser.

use vstd::prelude::*;
use crate::client::sdp_text::{
    crlf_to_lf, join, join_with, lf_to_crlf, lines, lines_of, replace_crlf_with_lf,
    replace_lf_with_crlf, split_at_pattern, split_str,
};
use crate::fields::pairs_view;
use crate::text::{concat2, concat3, ends_with, has_prefix, has_suffix, split_once, split_once_char, starts_with, str_eq, strings_view, substring, trim, trimmed};

verus! {

/// The SDP attribute that names a media section.
pub const MID_PREFIX: &'static str = "a=mid:";
/// The SDP attribute that bundles media sections.
pub const BUNDLE_PREFIX: &'static str = "a=group:BUNDLE";
/// The SFU's media id for the microphone.
pub const AUDIO_MID: &'static str = "audio_main";
/// The SFU's media id for the camera (the first video section).
pub const VIDEO_CAMERA_MID: &'static str = "video_camera";
/// The SFU's media id for the screen share (later video sections).
pub const VIDEO_SCREEN_MID: &'static str = "video_screen";

/// `s` without every leading repetition of `p` (`str::trim_start_matches`).
pub open spec fn strip_all_prefix(s: Seq<char>, p: Seq<char>) -> Seq<char>
    decreases s.len(),
{
    if p.len() > 0 && has_prefix(s, p) {
        strip_all_prefix(s.skip(p.len() as int), p)
    } else {
        s
    }
}

/// A line of a media section, its media id replaced by `mid`.
pub open spec fn mid_line(line: Seq<char>, mid: Seq<char>) -> Seq<char> {
    if has_prefix(line, MID_PREFIX@) {
        MID_PREFIX@ + mid
    } else {
        line
    }
}

/// A media section with every `a=mid:` line naming `mid`, its lines joined by `\n`.
pub open spec fn rewrite_section(section: Seq<char>, mid: Seq<char>) -> Seq<char> {
    join(lines(section).map_values(|l: Seq<char>| mid_line(l, mid)), "\n"@)
}

/// The (old media id, new media id) pairs of the `a=mid:` lines among `ls`, in order.
pub open spec fn mid_entries(ls: Seq<Seq<char>>, mid: Seq<char>) -> Seq<(Seq<char>, Seq<char>)>
    decreases ls.len(),
{
    if ls.len() == 0 {
        Seq::empty()
    } else {
        mid_entries(ls.drop_last(), mid) + if has_prefix(ls.last(), MID_PREFIX@) {
            seq![(strip_all_prefix(ls.last(), MID_PREFIX@), mid)]
        } else {
            Seq::empty()
        }
    }
}

/// `s` without every leading repetition of the non-empty `p`.
fn trim_start_matches(s: &str, p: &str) -> (r: String)
    requires
        p@.len() > 0,
    ensures
        r@ == strip_all_prefix(s@, p@),
{
    let n = s.unicode_len();
    let m = p.unicode_len();
    let mut i: usize = 0;
    proof {
        assert(s@.skip(0) =~= s@);
    }
    while m <= n - i && starts_with(s.substring_char(i, n), p)
        invariant
            n == s@.len(),
            m == p@.len(),
            m > 0,
            i <= n,
            strip_all_prefix(s@.skip(i as int), p@) == strip_all_prefix(s@, p@),
        decreases n - i,
    {
        proof {
            assert(s@.subrange(i as int, n as int) =~= s@.skip(i as int));
            assert(s@.skip(i as int).skip(m as int) =~= s@.skip(i + m));
        }
        i = i + m;
    }
    proof {
        assert(s@.subrange(i as int, n as int) =~= s@.skip(i as int));
        if m > n - i {
            assert(!has_prefix(s@.skip(i as int), p@));
        }
    }
    substring(s, i, n)
}

/// Rewrites every `a=mid:` line of `section` to name `next_mid`, recording each (old,
/// new) media id pair in `mid_map`; the lines come back joined by `\n`.
pub fn rewrite_section_mid(section: &str, next_mid: &str, mid_map: &mut Vec<(String, String)>) -> (r: String)
    ensures
        r@ == rewrite_section(section@, next_mid@),
        pairs_view(final(mid_map)@) == pairs_view(old(mid_map)@) + mid_entries(lines(section@), next_mid@),
{
    let ls = lines_of(section);
    let ghost lv = strings_view(ls@);
    let ghost start = pairs_view(mid_map@);
    let mut out: Vec<String> = Vec::new();
    let mut i: usize = 0;
    proof {
        reveal_strlit("a=mid:");
        assert(lv.take(0) =~= Seq::<Seq<char>>::empty());
        assert(pairs_view(mid_map@) =~= start + mid_entries(lv.take(0), next_mid@));
    }
    while i < ls.len()
        invariant
            lv == strings_view(ls@),
            lv == lines(section@),
            i <= ls@.len(),
            strings_view(out@) == lv.take(i as int).map_values(|l: Seq<char>| mid_line(l, next_mid@)),
            pairs_view(mid_map@) == start + mid_entries(lv.take(i as int), next_mid@),
            MID_PREFIX@.len() > 0,
        decreases ls.len() - i,
    {
        let line = ls[i].as_str();
        let ghost before_out = out@;
        let ghost before_map = mid_map@;
        proof {
            assert(lv.take(i + 1).drop_last() =~= lv.take(i as int));
            assert(lv.take(i + 1).last() == line@);
        }
        if starts_with(line, MID_PREFIX) {
            let old_mid = trim_start_matches(line, MID_PREFIX);
            mid_map.push((old_mid, String::from_str(next_mid)));
            out.push(concat2(MID_PREFIX, next_mid));
            proof {
                assert(pairs_view(mid_map@) =~= pairs_view(before_map).push((strip_all_prefix(line@, MID_PREFIX@), next_mid@)));
            }
        } else {
            out.push(String::from_str(line));
            proof {
                assert(pairs_view(mid_map@) =~= pairs_view(before_map));
            }
        }
        proof {
            assert(strings_view(out@) =~= strings_view(before_out).push(mid_line(line@, next_mid@)));
            assert(lv.take(i + 1).map_values(|l: Seq<char>| mid_line(l, next_mid@)) =~= lv.take(i as int).map_values(
                |l: Seq<char>| mid_line(l, next_mid@),
            ).push(mid_line(line@, next_mid@)));
        }
        i = i + 1;
    }
    proof {
        assert(lv.take(ls@.len() as int) =~= lv);
    }
    join_with(&out, "\n")
}

/// A session line; a bundle group line lists the new media ids instead, when there are any.
pub open spec fn bundle_line(line: Seq<char>, mids: Seq<Seq<char>>) -> Seq<char> {
    if has_prefix(line, BUNDLE_PREFIX@) && mids.len() > 0 {
        BUNDLE_PREFIX@ + " "@ + join(mids, " "@)
    } else {
        line
    }
}

/// The session part with its bundle group listing `mids`, its lines joined by `\n`.
pub open spec fn rewrite_bundle(session: Seq<char>, mids: Seq<Seq<char>>) -> Seq<char> {
    join(lines(session).map_values(|l: Seq<char>| bundle_line(l, mids)), "\n"@)
}

/// The new media ids of a media id map, in order.
pub open spec fn new_mids(mid_map: Seq<(Seq<char>, Seq<char>)>) -> Seq<Seq<char>> {
    mid_map.map_values(|e: (Seq<char>, Seq<char>)| e.1)
}

/// Rewrites the bundle group of the session part to list the new media ids of
/// `mid_map` (left alone when the map is empty); the lines come back joined by `\n`.
pub fn rewrite_bundle_group(session: &str, mid_map: &[(String, String)]) -> (r: String)
    ensures
        r@ == rewrite_bundle(session@, new_mids(pairs_view(mid_map@))),
{
    let ghost mids = new_mids(pairs_view(mid_map@));
    let mut names: Vec<String> = Vec::new();
    let mut j: usize = 0;
    while j < mid_map.len()
        invariant
            mids == new_mids(pairs_view(mid_map@)),
            j <= mid_map@.len(),
            strings_view(names@) == mids.take(j as int),
        decreases mid_map.len() - j,
    {
        let ghost before = names@;
        names.push(mid_map[j].1.clone());
        proof {
            assert(strings_view(names@) =~= strings_view(before).push(mid_map@[j as int].1@));
            assert(mids.take(j + 1) =~= mids.take(j as int).push(mid_map@[j as int].1@));
        }
        j = j + 1;
    }
    proof {
        assert(mids.take(mid_map@.len() as int) =~= mids);
    }
    let group = concat2("a=group:BUNDLE ", join_with(&names, " ").as_str());
    proof {
        reveal_strlit("a=group:BUNDLE ");
        reveal_strlit("a=group:BUNDLE");
        reveal_strlit(" ");
        assert("a=group:BUNDLE "@ =~= BUNDLE_PREFIX@ + " "@);
    }
    let ls = lines_of(session);
    let ghost lv = strings_view(ls@);
    let mut out: Vec<String> = Vec::new();
    let mut i: usize = 0;
    while i < ls.len()
        invariant
            lv == strings_view(ls@),
            lv == lines(session@),
            i <= ls@.len(),
            strings_view(out@) == lv.take(i as int).map_values(|l: Seq<char>| bundle_line(l, mids)),
            group@ == BUNDLE_PREFIX@ + " "@ + join(mids, " "@),
            names@.len() == mids.len(),
        decreases ls.len() - i,
    {
        let line = ls[i].as_str();
        let ghost before = out@;
        if starts_with(line, BUNDLE_PREFIX) && names.len() > 0 {
            out.push(group.clone());
        } else {
            out.push(String::from_str(line));
        }
        proof {
            assert(strings_view(out@) =~= strings_view(before).push(bundle_line(line@, mids)));
            assert(lv.take(i + 1).map_values(|l: Seq<char>| bundle_line(l, mids)) =~= lv.take(i as int).map_values(
                |l: Seq<char>| bundle_line(l, mids),
            ).push(bundle_line(lv[i as int], mids)));
        }
        i = i + 1;
    }
    proof {
        assert(lv.take(ls@.len() as int) =~= lv);
    }
    join_with(&out, "\n")
}

/// A media section as written in the offer: `m=` and the text after it.
pub open spec fn full_section(sec: Seq<char>) -> Seq<char> {
    "m="@ + sec
}

pub open spec fn is_audio_section(sec: Seq<char>) -> bool {
    has_prefix(full_section(sec), "m=audio"@)
}

pub open spec fn is_video_section(sec: Seq<char>) -> bool {
    has_prefix(full_section(sec), "m=video"@)
}

/// How many of `secs` are video sections.
pub open spec fn video_sections(secs: Seq<Seq<char>>) -> nat
    decreases secs.len(),
{
    if secs.len() == 0 {
        0
    } else {
        video_sections(secs.drop_last()) + if is_video_section(secs.last()) && !is_audio_section(secs.last()) {
            1nat
        } else {
            0nat
        }
    }
}

/// The media id section `k` of `secs` gets: the microphone's for audio, the camera's
/// for the first video section and the screen share's for later ones; none for others.
pub open spec fn section_mid(secs: Seq<Seq<char>>, k: int) -> Option<Seq<char>> {
    if is_audio_section(secs[k]) {
        Some(AUDIO_MID@)
    } else if is_video_section(secs[k]) {
        if video_sections(secs.take(k)) == 0 {
            Some(VIDEO_CAMERA_MID@)
        } else {
            Some(VIDEO_SCREEN_MID@)
        }
    } else {
        None
    }
}

/// Section `k` of `secs` as it goes out.
pub open spec fn rewritten_section(secs: Seq<Seq<char>>, k: int) -> Seq<char> {
    match section_mid(secs, k) {
        Some(mid) => rewrite_section(full_section(secs[k]), mid),
        None => full_section(secs[k]),
    }
}

/// The media id pairs recorded while rewriting `secs`, in order.
pub open spec fn section_entries(secs: Seq<Seq<char>>) -> Seq<(Seq<char>, Seq<char>)>
    decreases secs.len(),
{
    if secs.len() == 0 {
        Seq::empty()
    } else {
        section_entries(secs.drop_last()) + match section_mid(secs, secs.len() - 1) {
            Some(mid) => mid_entries(lines(full_section(secs.last())), mid),
            None => Seq::empty(),
        }
    }
}

/// `head` followed by each part, each starting on a new line.
pub open spec fn assemble(head: Seq<char>, parts: Seq<Seq<char>>) -> Seq<char>
    decreases parts.len(),
{
    if parts.len() == 0 {
        head
    } else {
        let prev = assemble(head, parts.drop_last());
        (if prev.len() > 0 && prev.last() == '\n' {
            prev
        } else {
            prev.push('\n')
        }) + parts.last()
    }
}

/// The offer the SFU receives: line ends read as `\n`, the text split into the session
/// part and the media sections at each `\nm=`, every media id replaced by the SFU's
/// fixed one (microphone, camera, screen share), the bundle group listing the new ids,
/// the parts put back together on separate lines, and line ends written as `\r\n`.
pub open spec fn rewrite_offer(sdp: Seq<char>) -> Seq<char> {
    let parts = split_str(crlf_to_lf(sdp), "\nm="@);
    let secs = parts.drop_first();
    let head = rewrite_bundle(parts[0], new_mids(section_entries(secs)));
    lf_to_crlf(assemble(head, Seq::new(secs.len(), |k: int| rewritten_section(secs, k))))
}

proof fn lemma_split_str_len(s: Seq<char>, pat: Seq<char>)
    ensures
        split_str(s, pat).len() >= 1,
    decreases s.len(),
{
    if s.len() > 0 {
        if pat.len() > 0 && has_prefix(s, pat) {
            lemma_split_str_len(s.skip(pat.len() as int), pat);
        } else {
            lemma_split_str_len(s.skip(1), pat);
        }
    }
}

/// Rewrites an offer for the SFU's fixed media slots: `audio_main` for the microphone,
/// `video_camera` for the first video section, `video_screen` for later ones.
pub fn rewrite_offer_mids_for_sfu(sdp: &str) -> (r: String)
    ensures
        r@ == rewrite_offer(sdp@),
{
    proof {
        reveal_strlit("\nm=");
        reveal_strlit("m=");
        reveal_strlit("m=audio");
        reveal_strlit("m=video");
        reveal_strlit("\n");
    }
    let normalized = replace_crlf_with_lf(sdp);
    let sections = split_at_pattern(normalized.as_str(), "\nm=");
    let ghost parts = split_str(crlf_to_lf(sdp@), "\nm="@);
    let ghost secs = parts.drop_first();
    proof {
        lemma_split_str_len(crlf_to_lf(sdp@), "\nm="@);
        assert(strings_view(sections@).len() == sections@.len());
    }
    let mut video_seen: usize = 0;
    let mut mid_map: Vec<(String, String)> = Vec::new();
    let mut rewritten: Vec<String> = Vec::new();
    let mut k: usize = 1;
    proof {
        assert(secs.take(0) =~= Seq::<Seq<char>>::empty());
        assert(pairs_view(mid_map@) =~= Seq::<(Seq<char>, Seq<char>)>::empty());
    }
    while k < sections.len()
        invariant
            strings_view(sections@) == parts,
            parts.len() >= 1,
            secs == parts.drop_first(),
            1 <= k <= sections@.len(),
            video_seen == video_sections(secs.take(k - 1)),
            video_seen <= k - 1,
            pairs_view(mid_map@) == section_entries(secs.take(k - 1)),
            rewritten@.len() == k - 1,
            forall|j: int| 0 <= j < k - 1 ==> (#[trigger] rewritten@[j])@ == rewritten_section(secs, j),
        decreases sections.len() - k,
    {
        let sec = sections[k].as_str();
        let full = concat2("m=", sec);
        let ghost j = k - 1;
        let ghost pre = secs.take(j as int);
        let ghost cur = secs.take(j + 1);
        proof {
            assert(sec@ == secs[j as int]);
            assert(cur.drop_last() =~= pre);
            assert(cur.last() == secs[j as int]);
            assert(cur.take(j as int) =~= pre);
            assert(secs.take(j as int) =~= pre);
        }
        let ghost before_map = mid_map@;
        let out = if starts_with(full.as_str(), "m=audio") {
            rewrite_section_mid(full.as_str(), AUDIO_MID, &mut mid_map)
        } else if starts_with(full.as_str(), "m=video") {
            video_seen = video_seen + 1;
            let mid = if video_seen == 1 { VIDEO_CAMERA_MID } else { VIDEO_SCREEN_MID };
            rewrite_section_mid(full.as_str(), mid, &mut mid_map)
        } else {
            full
        };
        proof {
            assert(section_mid(cur, j as int) == section_mid(secs, j as int));
            assert(!(is_audio_section(secs[j as int]) && is_video_section(secs[j as int]))) by {
                let f = full_section(secs[j as int]);
                reveal_strlit("m=audio");
                reveal_strlit("m=video");
                if is_audio_section(secs[j as int]) && is_video_section(secs[j as int]) {
                    assert(f.subrange(0, "m=audio"@.len() as int) == "m=audio"@);
                    assert(f.subrange(0, "m=video"@.len() as int) == "m=video"@);
                    assert("m=audio"@[2] == 'a');
                    assert("m=video"@[2] == 'v');
                    assert(f.subrange(0, 7)[2] == f[2]);
                }
            }
            assert(out@ == rewritten_section(secs, j as int));
            assert(pairs_view(mid_map@) =~= section_entries(cur));
        }
        rewritten.push(out);
        k = k + 1;
    }
    proof {
        assert(secs.take(secs.len() as int) =~= secs);
    }
    let session = rewrite_bundle_group(sections[0].as_str(), mid_map.as_slice());
    let ghost all = Seq::new(secs.len(), |k: int| rewritten_section(secs, k));
    let mut out = session;
    let mut i: usize = 0;
    while i < rewritten.len()
        invariant
            rewritten@.len() == secs.len(),
            forall|j: int| 0 <= j < secs.len() ==> (#[trigger] rewritten@[j])@ == rewritten_section(secs, j),
            all == Seq::new(secs.len(), |k: int| rewritten_section(secs, k)),
            i <= rewritten@.len(),
            out@ == assemble(session@, all.take(i as int)),
            "\n"@ == seq!['\n'],
        decreases rewritten.len() - i,
    {
        proof {
            assert(all.take(i + 1).drop_last() =~= all.take(i as int));
            assert(all.take(i + 1).last() == rewritten@[i as int]@);
        }
        if !ends_with(out.as_str(), "\n") {
            out.append("\n");
        }
        out.append(rewritten[i].as_str());
        proof {
            let prev = assemble(session@, all.take(i as int));
            if prev.len() > 0 && prev.last() == '\n' {
                assert(has_suffix(prev, "\n"@)) by {
                    assert(prev.subrange(prev.len() - 1, prev.len() as int) =~= seq!['\n']);
                }
            } else {
                assert(!has_suffix(prev, "\n"@)) by {
                    if has_suffix(prev, "\n"@) {
                        assert(prev.subrange(prev.len() - 1, prev.len() as int)[0] == prev.last());
                    }
                }
                assert(prev + "\n"@ =~= prev.push('\n'));
            }
        }
        i = i + 1;
    }
    proof {
        assert(all.take(secs.len() as int) =~= all);
        assert(session@ == rewrite_bundle(parts[0], new_mids(section_entries(secs))));
    }
    replace_lf_with_crlf(out.as_str())
}

// ── Media errors ─────────────────────────────────────────────────────────────

/// How bad a media failure is.
#[derive(Clone, Copy, Debug, PartialEq, Eq)]
pub enum WebRtcMediaSeverity {
    Warning,
    Recoverable,
    Fatal,
}

/// A media failure as the room shows it.
#[derive(Clone, Debug, PartialEq, Eq)]
pub struct WebRtcMediaError {
    pub severity: WebRtcMediaSeverity,
    pub stage: &'static str,
    pub message: String,
    pub technical: String,
}

/// The text a JavaScript error reads as, from its `name` and its message (its
/// `message` property, else its own text): `name: message` when both are there and
/// the message is not empty, else whichever is there; none when neither is.
pub fn js_error_text(name: Option<String>, message: Option<String>) -> (r: Option<String>)
    ensures
        match (name, message) {
            (Some(n), Some(m)) => r matches Some(t) && t@ == if m@.len() > 0 { n@ + ": "@ + m@ } else { n@ },
            (Some(n), None) => r matches Some(t) && t@ == n@,
            (None, Some(m)) => r matches Some(t) && t@ == m@,
            (None, None) => r is None,
        },
{
    match (name, message) {
        (Some(n), Some(m)) => {
            if m.as_str().unicode_len() > 0 {
                Some(concat3(n.as_str(), ": ", m.as_str()))
            } else {
                Some(n)
            }
        },
        (Some(n), None) => Some(n),
        (None, Some(m)) => Some(m),
        (None, None) => None,
    }
}

// ── Relayed tracks ───────────────────────────────────────────────────────────

/// Which of a participant's sources a relayed track carries.
#[derive(Clone, Copy, Debug, PartialEq, Eq)]
pub enum RemoteSource {
    Camera,
    Screen,
}

/// The publisher and source of a relayed track id `{publisher}|{source}:{mid}`: none
/// unless both separators are there and the publisher and source are not empty; a
/// `screen` source is the screen share, any other the camera.
pub open spec fn spec_remote_source(track_id: Seq<char>) -> Option<(Seq<char>, RemoteSource)> {
    match split_once(track_id, '|') {
        Some((publisher, rest)) => match split_once(rest, ':') {
            Some((source, _)) => if publisher.len() == 0 || source.len() == 0 {
                None
            } else {
                Some((publisher, if source == "screen"@ { RemoteSource::Screen } else { RemoteSource::Camera }))
            },
            None => None,
        },
        None => None,
    }
}

/// The publisher and source of a relayed track, by its id.
pub fn remote_source_from_relay_track_id(track_id: &str) -> (r: Option<(String, RemoteSource)>)
    ensures
        match r {
            Some((p, src)) => spec_remote_source(track_id@) == Some((p@, src)),
            None => spec_remote_source(track_id@) is None,
        },
{
    let (publisher, rest) = match split_once_char(track_id, '|') {
        Some(halves) => halves,
        None => return None,
    };
    let (source_type, _mid) = match split_once_char(rest.as_str(), ':') {
        Some(halves) => halves,
        None => return None,
    };
    if publisher.as_str().unicode_len() == 0 || source_type.as_str().unicode_len() == 0 {
        return None;
    }
    let source = if str_eq(source_type.as_str(), "screen") { RemoteSource::Screen } else { RemoteSource::Camera };
    Some((publisher, source))
}

// ── Media generations ────────────────────────────────────────────────────────

/// The generation after `g`: one more, staying at `u64::MAX` once there.
pub open spec fn spec_next_generation(g: u64) -> u64 {
    if g == u64::MAX { u64::MAX } else { (g + 1) as u64 }
}

/// Work begun in `generation` is stale once the session is closed or another
/// generation is current.
pub open spec fn spec_is_stale(closed: bool, current_generation: u64, generation: u64) -> bool {
    closed || current_generation != generation
}

/// Starts a new media generation and returns it.
pub fn next_generation(cell: &mut u64) -> (r: u64)
    ensures
        *final(cell) == spec_next_generation(*old(cell)),
        r == *final(cell),
{
    *cell = cell.saturating_add(1);
    *cell
}

/// Whether work begun in `generation` is stale.
pub fn is_stale(closed: bool, current_generation: u64, generation: u64) -> (r: bool)
    ensures
        r == spec_is_stale(closed, current_generation, generation),
{
    closed || current_generation != generation
}

/// Work of the current generation goes on while the session is open, and starting a
/// new generation makes it stale (below `u64::MAX`).
pub proof fn law_new_generation_makes_old_work_stale(generation: u64)
    requires
        generation < u64::MAX,
    ensures
        !spec_is_stale(false, generation, generation),
        spec_is_stale(false, spec_next_generation(generation), generation),
{
}

// ── Device constraints ───────────────────────────────────────────────────────

/// The media constraint asked of the browser for one kind of device.
#[derive(Clone, Debug, PartialEq, Eq)]
pub enum MediaConstraint {
    /// The kind is not wanted.
    Off,
    /// Any device, the browser's default.
    Any,
    /// The device with this id.
    Device(String),
}

/// The code of a character with ASCII letters taken in lower case.
pub open spec fn ascii_lower(c: char) -> u32 {
    if 'A' <= c && c <= 'Z' {
        ((c as u32) + 32) as u32
    } else {
        c as u32
    }
}

/// `str::eq_ignore_ascii_case`.
pub open spec fn eq_ignore_ascii_case(a: Seq<char>, b: Seq<char>) -> bool {
    a.len() == b.len() && forall|i: int| 0 <= i < a.len() ==> ascii_lower(#[trigger] a[i]) == ascii_lower(b[i])
}

fn char_ascii_lower(c: char) -> (r: u32)
    ensures
        r == ascii_lower(c),
{
    if 'A' <= c && c <= 'Z' {
        (c as u32) + 32
    } else {
        c as u32
    }
}

/// Whether `a` and `b` are equal ignoring the case of ASCII letters.
pub fn str_eq_ignore_ascii_case(a: &str, b: &str) -> (r: bool)
    ensures
        r == eq_ignore_ascii_case(a@, b@),
{
    let n = a.unicode_len();
    if n != b.unicode_len() {
        return false;
    }
    let mut i: usize = 0;
    while i < n
        invariant
            n == a@.len(),
            n == b@.len(),
            i <= n,
            forall|k: int| 0 <= k < i ==> ascii_lower(#[trigger] a@[k]) == ascii_lower(b@[k]),
        decreases n - i,
    {
        if char_ascii_lower(a.get_char(i)) != char_ascii_lower(b.get_char(i)) {
            return false;
        }
        i = i + 1;
    }
    true
}

/// The constraint for one kind: off when not enabled; any device when the trimmed id
/// is empty or `default` (in any case); otherwise the trimmed id.
pub open spec fn spec_media_constraint(enabled: bool, device_id: Seq<char>) -> Option<Option<Seq<char>>> {
    if !enabled {
        None
    } else if trim(device_id).len() == 0 || eq_ignore_ascii_case(trim(device_id), "default"@) {
        Some(None)
    } else {
        Some(Some(trim(device_id)))
    }
}

/// The constraint the browser is asked for one kind of device.
pub fn media_track_constraint(enabled: bool, device_id: &str) -> (r: MediaConstraint)
    ensures
        match r {
            MediaConstraint::Off => spec_media_constraint(enabled, device_id@) is None,
            MediaConstraint::Any => spec_media_constraint(enabled, device_id@) == Some(None::<Seq<char>>),
            MediaConstraint::Device(id) => spec_media_constraint(enabled, device_id@) == Some(Some(id@)),
        },
{
    if !enabled {
        return MediaConstraint::Off;
    }
    let id = trimmed(device_id);
    if id.as_str().unicode_len() == 0 || str_eq_ignore_ascii_case(id.as_str(), "default") {
        return MediaConstraint::Any;
    }
    MediaConstraint::Device(id)
}


/// The ICE candidate to send to signaling: the candidate line and its media id
/// (empty when the browser gave none); none when either is empty, which the server
/// would refuse.
pub fn outgoing_ice_candidate(candidate: String, sdp_mid: Option<String>) -> (r: Option<(String, String)>)
    ensures
        r is Some <==> (candidate@.len() > 0 && (sdp_mid matches Some(m) && m@.len() > 0)),
        r matches Some(p) ==> p.0 == candidate && sdp_mid == Some(p.1),
{
    match sdp_mid {
        Some(mid) => if candidate.as_str().unicode_len() > 0 && mid.as_str().unicode_len() > 0 {
            Some((candidate, mid))
        } else {
            None
        },
        None => None,
    }
}

/// Which of a remote participant's two streams a track joins.
#[derive(Debug, Clone, Copy, PartialEq, Eq)]
pub enum TrackSlot {
    Camera,
    Screen,
}

/// A relayed track joins the participant's screen stream when it is a screen share,
/// and the camera stream (with its audio) otherwise.
pub fn slot_for_source(source: RemoteSource) -> (r: TrackSlot)
    ensures
        r == (if source == RemoteSource::Screen { TrackSlot::Screen } else { TrackSlot::Camera }),
{
    match source {
        RemoteSource::Screen => TrackSlot::Screen,
        RemoteSource::Camera => TrackSlot::Camera,
    }
}

/// The sender a local track goes out on.
#[derive(Debug, Clone, Copy, PartialEq, Eq)]
pub enum SenderKind {
    Audio,
    Video,
}

/// How a local track is put on its sender.
#[derive(Debug, Clone, Copy, PartialEq, Eq)]
pub enum SenderUse {
    /// The sender exists: its track is replaced.
    ReplaceTrack,
    /// No sender yet: the track is added, which creates one.
    AddTrack,
}

/// Where a local track of kind `kind` goes: audio tracks to the audio sender, video
/// tracks to the camera sender, others nowhere; the track replaces the sender's track
/// when that sender exists (`audio_sender_exists` / `video_sender_exists`), and is
/// added otherwise.
pub fn local_track_route(kind: &str, audio_sender_exists: bool, video_sender_exists: bool) -> (r: Option<(SenderKind, SenderUse)>)
    ensures
        kind@ == "audio"@ ==> r == Some((SenderKind::Audio, if audio_sender_exists { SenderUse::ReplaceTrack } else { SenderUse::AddTrack })),
        kind@ == "video"@ ==> r == Some((SenderKind::Video, if video_sender_exists { SenderUse::ReplaceTrack } else { SenderUse::AddTrack })),
        kind@ != "audio"@ && kind@ != "video"@ ==> r is None,
{
    proof {
        reveal_strlit("audio");
        reveal_strlit("video");
        assert("audio"@[0] != "video"@[0]);
    }
    if str_eq(kind, "audio") {
        Some((SenderKind::Audio, if audio_sender_exists { SenderUse::ReplaceTrack } else { SenderUse::AddTrack }))
    } else if str_eq(kind, "video") {
        Some((SenderKind::Video, if video_sender_exists { SenderUse::ReplaceTrack } else { SenderUse::AddTrack }))
    } else {
        None
    }
}

} // verus!
