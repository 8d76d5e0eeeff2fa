//! Degradation of the signaling service: why it purges, the once-only purge flag,
//! and which SFU peers a purge deletes.

use vstd::prelude::*;
use crate::text::{opt_view, str_eq};

verus! {

/// The dependency whose loss forces a purge.
#[derive(Debug, Clone, Copy, PartialEq, Eq)]
pub enum DegradationReason {
    RedisDown,
    RoomManagerDown,
}

impl DegradationReason {
    /// The dependency's name, as clients are told it.
    pub fn as_str(&self) -> (r: &'static str)
        ensures
            *self == DegradationReason::RedisDown ==> r@ == "redis"@,
            *self == DegradationReason::RoomManagerDown ==> r@ == "room_manager"@,
    {
        match self {
            DegradationReason::RedisDown => "redis",
            DegradationReason::RoomManagerDown => "room_manager",
        }
    }
}

/// Milliseconds clients are told to wait before retrying after a purge.
pub const PURGE_RETRY_AFTER_MS: u32 = 5_000;

/// Whether a purge has begun; once begun it stays so.
pub struct PurgeFlag {
    purging: bool,
}

impl View for PurgeFlag {
    type V = bool;

    closed spec fn view(&self) -> bool {
        self.purging
    }
}

impl PurgeFlag {
    pub fn new() -> (r: Self)
        ensures
            !r@,
    {
        PurgeFlag { purging: false }
    }

    /// Whether a purge has begun.
    pub fn is_purging(&self) -> (r: bool)
        ensures
            r == self@,
    {
        self.purging
    }

    /// Begins the purge; true only for the call that began it.
    pub fn try_begin_purge(&mut self) -> (r: bool)
        ensures
            r == !old(self)@,
            final(self)@,
    {
        if self.purging {
            false
        } else {
            self.purging = true;
            true
        }
    }
}

/// What `try_begin_purge` returns on a flag that reads `flag`.
pub open spec fn spec_try_begin(flag: bool) -> bool {
    !flag
}

/// Once any attempt to begin a purge has run, every later attempt fails: the purge
/// protocol runs at most once.
pub proof fn law_purge_begins_once(flag: bool)
    ensures
        !spec_try_begin(true),
        spec_try_begin(flag) ==> !flag,
{
}

/// One participant of a room, with the SFU it is attached to.
#[derive(Debug, Clone, PartialEq, Eq)]
pub struct PeerAttachment {
    pub nickname: String,
    pub sfu_addr: Option<String>,
}

/// One room of the local registry and its participants.
#[derive(Debug, Clone, PartialEq, Eq)]
pub struct RoomPeers {
    pub room_id: String,
    pub participants: Vec<PeerAttachment>,
}

/// One SFU peer deletion: address, room, nickname.
pub struct PeerDeletionView {
    pub sfu_addr: Seq<char>,
    pub room_id: Seq<char>,
    pub nickname: Seq<char>,
}

/// The SFU peer deletions of one room: each participant attached to an SFU, in order.
pub open spec fn room_deletions(room_id: Seq<char>, peers: Seq<PeerAttachment>) -> Seq<PeerDeletionView>
    decreases peers.len(),
{
    if peers.len() == 0 {
        Seq::empty()
    } else {
        room_deletions(room_id, peers.drop_last()) + match peers.last().sfu_addr {
            Some(a) => seq![PeerDeletionView { sfu_addr: a@, room_id, nickname: peers.last().nickname@ }],
            None => Seq::empty(),
        }
    }
}

/// The SFU peer deletions of a purge: room by room, each participant attached to an SFU.
pub open spec fn purge_deletions(rooms: Seq<RoomPeers>) -> Seq<PeerDeletionView>
    decreases rooms.len(),
{
    if rooms.len() == 0 {
        Seq::empty()
    } else {
        purge_deletions(rooms.drop_last()) + room_deletions(rooms.last().room_id@, rooms.last().participants@)
    }
}

/// A peer deletion of a purge.
#[derive(Debug, Clone, PartialEq, Eq)]
pub struct PeerDeletion {
    pub sfu_addr: String,
    pub room_id: String,
    pub nickname: String,
}

pub open spec fn deletions_view(v: Seq<PeerDeletion>) -> Seq<PeerDeletionView> {
    v.map_values(|d: PeerDeletion| PeerDeletionView { sfu_addr: d.sfu_addr@, room_id: d.room_id@, nickname: d.nickname@ })
}

/// The SFU peers that `run_purge` deletes, best effort, after telling every room.
pub fn purge_plan(rooms: &Vec<RoomPeers>) -> (r: Vec<PeerDeletion>)
    ensures
        deletions_view(r@) == purge_deletions(rooms@),
{
    let mut out: Vec<PeerDeletion> = Vec::new();
    let mut i: usize = 0;
    while i < rooms.len()
        invariant
            i <= rooms@.len(),
            deletions_view(out@) == purge_deletions(rooms@.take(i as int)),
        decreases rooms.len() - i,
    {
        let room = &rooms[i];
        let ghost start = deletions_view(out@);
        let mut j: usize = 0;
        while j < room.participants.len()
            invariant
                room == rooms@[i as int],
                j <= room.participants@.len(),
                deletions_view(out@) == start + room_deletions(room.room_id@, room.participants@.take(j as int)),
            decreases room.participants.len() - j,
        {
            let p = &room.participants[j];
            assert(room.participants@.take(j + 1).drop_last() =~= room.participants@.take(j as int));
            assert(room.participants@.take(j + 1).last() == room.participants@[j as int]);
            let ghost before = out@;
            match &p.sfu_addr {
                Some(a) => {
                    out.push(PeerDeletion { sfu_addr: a.clone(), room_id: room.room_id.clone(), nickname: p.nickname.clone() });
                    assert(deletions_view(out@) =~= deletions_view(before).push(
                        PeerDeletionView { sfu_addr: a@, room_id: room.room_id@, nickname: p.nickname@ },
                    ));
                },
                None => {},
            }
            j = j + 1;
        }
        assert(room.participants@.take(j as int) =~= room.participants@);
        assert(rooms@.take(i + 1).drop_last() =~= rooms@.take(i as int));
        i = i + 1;
    }
    assert(rooms@.take(i as int) =~= rooms@);
    out
}

/// A room is closed after an SFU is lost when its route names that SFU.
pub fn room_on_sfu(route_sfu_addr: &Option<String>, sfu_addr: &str) -> (r: bool)
    ensures
        r == (opt_view(*route_sfu_addr) == Some(sfu_addr@)),
{
    match route_sfu_addr {
        Some(a) => str_eq(a.as_str(), sfu_addr),
        None => false,
    }
}

/// How many of the rooms, given by their routes' SFU addresses, are on the SFU at
/// `sfu_addr`.
pub open spec fn count_on_sfu(route_sfus: Seq<Option<String>>, sfu_addr: Seq<char>) -> nat
    decreases route_sfus.len(),
{
    if route_sfus.len() == 0 {
        0
    } else {
        count_on_sfu(route_sfus.drop_last(), sfu_addr) + if opt_view(route_sfus.last()) == Some(sfu_addr) { 1nat } else { 0nat }
    }
}

/// The number of rooms a close-rooms-by-SFU request reports: the rooms whose route
/// names that SFU (capped at `u32::MAX`).
pub fn rooms_on_sfu_count(route_sfus: &Vec<Option<String>>, sfu_addr: &str) -> (r: u32)
    ensures
        r == (if count_on_sfu(route_sfus@, sfu_addr@) > u32::MAX { u32::MAX as nat } else { count_on_sfu(route_sfus@, sfu_addr@) }),
{
    let mut n: u32 = 0;
    let mut i: usize = 0;
    while i < route_sfus.len()
        invariant
            i <= route_sfus@.len(),
            n == (if count_on_sfu(route_sfus@.take(i as int), sfu_addr@) > u32::MAX { u32::MAX as nat }
                else { count_on_sfu(route_sfus@.take(i as int), sfu_addr@) }),
        decreases route_sfus.len() - i,
    {
        assert(route_sfus@.take(i + 1).drop_last() =~= route_sfus@.take(i as int));
        if room_on_sfu(&route_sfus[i], sfu_addr) {
            n = n.saturating_add(1);
        }
        i = i + 1;
    }
    assert(route_sfus@.take(i as int) =~= route_sfus@);
    n
}

/// A WebSocket upgrade is refused with `503 service degraded` while a purge runs.
pub fn upgrade_refusal(purging: bool) -> (r: Option<(u16, &'static str)>)
    ensures
        purging ==> (r matches Some(x) && x.0 == 503 && x.1@ == "service degraded"@),
        !purging ==> r is None,
{
    if purging { Some((503, "service degraded")) } else { None }
}

} // verus!
