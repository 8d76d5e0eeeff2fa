//! The signaling service's view of the store: its keys, the session and room records
//! it reads, and what the store's replies mean.

use vstd::prelude::*;
use crate::control_store::keys::{nick_key as store_nick_key, room_binding_key as store_room_binding_key, room_members_key as store_room_members_key, session_key as store_session_key, session_lock_key as store_session_lock_key, spec_nick_key, spec_room_binding_key, spec_room_members_key, spec_session_key, spec_session_lock_key, SIGNALING_JTI_PREFIX};
use crate::decimal::{parse_u16, parse_unsigned};
use crate::fields::{field, get_field, lemma_lookup_at, pairs_view};
use crate::connector::redis::session_create_pairs;
use crate::control_store::storage::binding_pairs;
use crate::decimal::lemma_parse_decimal_roundtrip;
use crate::op_timeout::OpTimeout;
use crate::text::{concat2, filter_non_empty, non_empty, opt_view, or_default, str_eq, strings_view, unwrap_or_str};

verus! {

pub const INSTANCE_LOAD_KEY: &'static str = "signaling:instance_load";
pub const SFU_INSTANCES_KEY: &'static str = "sfu:instances";
pub const SFU_ROOM_LOAD_KEY: &'static str = "sfu:room_load";
/// Marker that the room assignment script returns when the room already exists.
pub const ROOM_EXISTS_MARKER: &'static str = "__ROOM_EXISTS__";

/// A session as the signaling service reads it.
#[derive(Debug, Clone, PartialEq, Eq)]
pub struct SessionState {
    pub nickname: String,
    pub room_id: Option<String>,
}

pub struct SessionStateView {
    pub nickname: Seq<char>,
    pub room_id: Option<Seq<char>>,
}

impl View for SessionState {
    type V = SessionStateView;

    open spec fn view(&self) -> SessionStateView {
        SessionStateView { nickname: self.nickname@, room_id: opt_view(self.room_id) }
    }
}

/// Where a room lives: its owner's address, its state and its SFU.
#[derive(Debug, Clone, PartialEq, Eq)]
pub struct RoomRoute {
    pub owner_host: String,
    pub owner_port: u16,
    pub room_state: String,
    pub sfu_grpc_addr: Option<String>,
}

pub struct RoomRouteView {
    pub owner_host: Seq<char>,
    pub owner_port: u16,
    pub room_state: Seq<char>,
    pub sfu_grpc_addr: Option<Seq<char>>,
}

impl View for RoomRoute {
    type V = RoomRouteView;

    open spec fn view(&self) -> RoomRouteView {
        RoomRouteView {
            owner_host: self.owner_host@,
            owner_port: self.owner_port,
            room_state: self.room_state@,
            sfu_grpc_addr: opt_view(self.sfu_grpc_addr),
        }
    }
}

/// The SFU a new room was bound to.
#[derive(Debug, Clone, PartialEq, Eq)]
pub struct SfuAssignment {
    pub sfu_grpc_addr: String,
}

/// Outcome of leaving a room.
#[derive(Debug, Clone, Copy, PartialEq, Eq)]
pub struct LeaveRoomResult {
    pub room_empty: bool,
}

/// A failed store operation.
#[derive(Debug, Clone, PartialEq, Eq)]
pub enum RedisRoomError {
    RoomNotFound,
    NicknameTaken,
    ParticipantNotInRoom,
    InvalidRoomTarget,
    NoSfuCapacity,
    RoomAlreadyExists,
    Timeout,
    /// The store itself failed; the text is its error message.
    Redis(String),
}

/// Records the storage operation timeout; only the first call counts.
pub fn set_op_timeout(cell: &mut OpTimeout, value_ms: u64)
    ensures
        final(cell)@ == crate::op_timeout::spec_set(old(cell)@, value_ms),
{
    cell.set(value_ms);
}

/// The storage operation timeout in milliseconds.
pub fn op_timeout(cell: &OpTimeout) -> (r: u64)
    ensures
        r == crate::op_timeout::spec_get(cell@),
{
    cell.get()
}

pub fn session_key(session_id: &str) -> (r: String)
    ensures
        r@ == spec_session_key(session_id@),
{
    store_session_key(session_id)
}

pub fn session_lock_key(session_id: &str) -> (r: String)
    ensures
        r@ == spec_session_lock_key(session_id@),
{
    store_session_lock_key(session_id)
}

pub fn nick_key(nickname: &str) -> (r: String)
    ensures
        r@ == spec_nick_key(nickname@),
{
    store_nick_key(nickname)
}

pub fn room_binding_key(room_id: &str) -> (r: String)
    ensures
        r@ == spec_room_binding_key(room_id@),
{
    store_room_binding_key(room_id)
}

pub fn room_members_key(room_id: &str) -> (r: String)
    ensures
        r@ == spec_room_members_key(room_id@),
{
    store_room_members_key(room_id)
}

/// Key that marks a token id as used.
pub fn jti_key(jti: &str) -> (r: String)
    ensures
        r@ == SIGNALING_JTI_PREFIX@ + jti@,
{
    concat2(SIGNALING_JTI_PREFIX, jti)
}

/// The session that the session hash `fields` decodes to: none for an empty hash; a
/// missing nickname reads as empty and an empty room as none.
pub open spec fn spec_session(fields: Seq<(String, String)>) -> Option<SessionStateView> {
    if fields.len() == 0 {
        None
    } else {
        Some(SessionStateView {
            nickname: or_default(field(fields, "nickname"@), Seq::empty()),
            room_id: non_empty(field(fields, "room_id"@)),
        })
    }
}

/// Decodes a session hash (`session_get`).
pub fn session_from_fields(fields: &Vec<(String, String)>) -> (r: Option<SessionState>)
    ensures
        r matches Some(s) ==> spec_session(fields@) == Some(s@),
        r is None <==> spec_session(fields@) is None,
{
    if fields.len() == 0 {
        return None;
    }
    let nickname = unwrap_or_str(get_field(fields, "nickname"), "");
    let room_id = filter_non_empty(get_field(fields, "room_id"));
    proof {
        reveal_strlit("");
        assert(""@ =~= Seq::<char>::empty());
    }
    Some(SessionState { nickname, room_id })
}

/// The route that the binding hash `fields` decodes to: no such room for an empty
/// hash; the owner's host must be set and its port a port number; a missing state
/// reads as active and an empty SFU address as none.
pub open spec fn spec_room_route(fields: Seq<(String, String)>) -> Result<RoomRouteView, RedisRoomError> {
    if fields.len() == 0 {
        Err(RedisRoomError::RoomNotFound)
    } else {
        match non_empty(field(fields, "owner_host"@)) {
            None => Err(RedisRoomError::InvalidRoomTarget),
            Some(host) => match field(fields, "owner_port"@) {
                None => Err(RedisRoomError::InvalidRoomTarget),
                Some(p) => match parse_unsigned(p, 65535) {
                    None => Err(RedisRoomError::InvalidRoomTarget),
                    Some(port) => Ok(RoomRouteView {
                        owner_host: host,
                        owner_port: port as u16,
                        room_state: or_default(field(fields, "room_state"@), "active"@),
                        sfu_grpc_addr: non_empty(field(fields, "sfu_grpc_addr"@)),
                    }),
                },
            },
        }
    }
}

/// Decodes a room binding hash into the room's route (`get_room_route`).
pub fn room_route_from_fields(fields: &Vec<(String, String)>) -> (r: Result<RoomRoute, RedisRoomError>)
    ensures
        match r {
            Ok(route) => spec_room_route(fields@) == Ok::<RoomRouteView, RedisRoomError>(route@),
            Err(e) => spec_room_route(fields@) == Err::<RoomRouteView, RedisRoomError>(e),
        },
{
    if fields.len() == 0 {
        return Err(RedisRoomError::RoomNotFound);
    }
    let host = match filter_non_empty(get_field(fields, "owner_host")) {
        Some(h) => h,
        None => return Err(RedisRoomError::InvalidRoomTarget),
    };
    let port = match get_field(fields, "owner_port") {
        Some(p) => match parse_u16(p.as_str()) {
            Some(port) => port,
            None => return Err(RedisRoomError::InvalidRoomTarget),
        },
        None => return Err(RedisRoomError::InvalidRoomTarget),
    };
    let room_state = unwrap_or_str(get_field(fields, "room_state"), "active");
    let sfu_grpc_addr = filter_non_empty(get_field(fields, "sfu_grpc_addr"));
    Ok(RoomRoute { owner_host: host, owner_port: port, room_state, sfu_grpc_addr })
}

/// What the room assignment script's reply means: no reply means no SFU can take the
/// room; the room-exists marker that the room is already bound; otherwise the second
/// element is the SFU's address, which must not be empty.
pub open spec fn spec_assignment(reply: Seq<Seq<char>>) -> Result<Seq<char>, RedisRoomError> {
    if reply.len() == 0 {
        Err(RedisRoomError::NoSfuCapacity)
    } else if reply[0] == ROOM_EXISTS_MARKER@ {
        Err(RedisRoomError::RoomAlreadyExists)
    } else if reply.len() > 1 && reply[1].len() > 0 {
        Ok(reply[1])
    } else {
        Err(RedisRoomError::InvalidRoomTarget)
    }
}

/// Reads the room assignment script's reply (`assign_room_to_least_loaded_sfu`).
pub fn assignment_from_reply(reply: &Vec<String>) -> (r: Result<SfuAssignment, RedisRoomError>)
    ensures
        match r {
            Ok(a) => spec_assignment(strings_view(reply@)) == Ok::<Seq<char>, RedisRoomError>(a.sfu_grpc_addr@),
            Err(e) => spec_assignment(strings_view(reply@)) == Err::<Seq<char>, RedisRoomError>(e),
        },
{
    if reply.len() == 0 {
        return Err(RedisRoomError::NoSfuCapacity);
    }
    if str_eq(reply[0].as_str(), ROOM_EXISTS_MARKER) {
        return Err(RedisRoomError::RoomAlreadyExists);
    }
    if reply.len() > 1 && reply[1].as_str().unicode_len() > 0 {
        Ok(SfuAssignment { sfu_grpc_addr: reply[1].clone() })
    } else {
        Err(RedisRoomError::InvalidRoomTarget)
    }
}

/// The members other than `nickname`, in order.
pub open spec fn others(members: Seq<Seq<char>>, nickname: Seq<char>) -> Seq<Seq<char>>
    decreases members.len(),
{
    if members.len() == 0 {
        Seq::empty()
    } else {
        others(members.drop_last(), nickname) + if members.last() == nickname {
            Seq::empty()
        } else {
            seq![members.last()]
        }
    }
}

/// The participants a joining member is told about: the room's members but itself.
pub fn other_participants(members: Vec<String>, nickname: &str) -> (r: Vec<String>)
    ensures
        strings_view(r@) == others(strings_view(members@), nickname@),
{
    let ghost mv = strings_view(members@);
    let mut out: Vec<String> = Vec::new();
    let mut i: usize = 0;
    while i < members.len()
        invariant
            mv == strings_view(members@),
            i <= members@.len(),
            strings_view(out@) == others(mv.take(i as int), nickname@),
        decreases members.len() - i,
    {
        assert(mv.take(i + 1).drop_last() =~= mv.take(i as int));
        assert(mv.take(i + 1).last() == members@[i as int]@);
        let ghost before = out@;
        if !str_eq(members[i].as_str(), nickname) {
            out.push(members[i].clone());
            assert(strings_view(out@) =~= strings_view(before) + seq![members@[i as int]@]);
        } else {
            assert(strings_view(out@) =~= strings_view(before) + Seq::<Seq<char>>::empty());
        }
        i = i + 1;
    }
    assert(mv.take(i as int) =~= mv);
    out
}

/// The joining member is never among the participants it is told about, and every
/// other member is.
pub proof fn law_others_exclude_self(members: Seq<Seq<char>>, nickname: Seq<char>)
    ensures
        !others(members, nickname).contains(nickname),
        forall|m: Seq<char>| members.contains(m) && m != nickname ==> others(members, nickname).contains(m),
    decreases members.len(),
{
    if members.len() > 0 {
        law_others_exclude_self(members.drop_last(), nickname);
        let prev = others(members.drop_last(), nickname);
        let cur = others(members, nickname);
        assert forall|m: Seq<char>| members.contains(m) && m != nickname implies cur.contains(m) by {
            let k = choose|k: int| 0 <= k < members.len() && members[k] == m;
            if k < members.len() - 1 {
                assert(members.drop_last()[k] == m);
                assert(members.drop_last().contains(m));
                assert(prev.contains(m));
                let j = choose|j: int| 0 <= j < prev.len() && prev[j] == m;
                assert(cur[j] == prev[j]);
            } else {
                assert(cur[cur.len() - 1] == m);
            }
        }
        assert(!cur.contains(nickname)) by {
            if cur.contains(nickname) {
                let j = choose|j: int| 0 <= j < cur.len() && cur[j] == nickname;
                if j < prev.len() {
                    assert(prev[j] == nickname);
                }
            }
        }
    }
}

/// A conditional `SET ... NX` took effect exactly when the reply is `OK`.
pub fn set_nx_succeeded(reply: &Option<String>) -> (r: bool)
    ensures
        r == (reply matches Some(s) && s@ == "OK"@),
{
    match reply {
        Some(s) => str_eq(s.as_str(), "OK"),
        None => false,
    }
}

/// Whether a member may join a room: the room must be bound, and the nickname not
/// already among its members.
pub fn join_room_check(binding_exists: bool, already_member: bool) -> (r: Result<(), RedisRoomError>)
    ensures
        !binding_exists ==> r == Err::<(), RedisRoomError>(RedisRoomError::RoomNotFound),
        binding_exists && already_member ==> r == Err::<(), RedisRoomError>(RedisRoomError::NicknameTaken),
        binding_exists && !already_member ==> r is Ok,
{
    if !binding_exists {
        Err(RedisRoomError::RoomNotFound)
    } else if already_member {
        Err(RedisRoomError::NicknameTaken)
    } else {
        Ok(())
    }
}

/// Whether a member may leave a room: the room must be bound.
pub fn leave_room_check(binding_exists: bool) -> (r: Result<(), RedisRoomError>)
    ensures
        binding_exists ==> r is Ok,
        !binding_exists ==> r == Err::<(), RedisRoomError>(RedisRoomError::RoomNotFound),
{
    if binding_exists { Ok(()) } else { Err(RedisRoomError::RoomNotFound) }
}

/// What leaving a room reports: nothing removed means the member was not there; the
/// room is empty when no member remains.
pub fn leave_outcome(removed: u64, remaining: u64) -> (r: Result<LeaveRoomResult, RedisRoomError>)
    ensures
        removed == 0 ==> r == Err::<LeaveRoomResult, RedisRoomError>(RedisRoomError::ParticipantNotInRoom),
        removed != 0 ==> r == Ok::<LeaveRoomResult, RedisRoomError>(LeaveRoomResult { room_empty: remaining == 0 }),
        r matches Ok(o) ==> (o.room_empty <==> remaining == 0),
{
    if removed == 0 {
        Err(RedisRoomError::ParticipantNotInRoom)
    } else {
        Ok(LeaveRoomResult { room_empty: remaining == 0 })
    }
}


/// A session that the connector just created reads, in the signaling service, as its
/// nickname with no room.
pub proof fn law_session_read_after_create(fields: Seq<(String, String)>, nickname: Seq<char>)
    requires
        pairs_view(fields) == session_create_pairs(nickname),
    ensures
        spec_session(fields) == Some(SessionStateView { nickname, room_id: None }),
{
    let p = pairs_view(fields);
    assert(fields.len() == 3) by {
        assert(p.len() == fields.len());
    }
    reveal_strlit("nickname");
    reveal_strlit("room_id");
    lemma_lookup_at(p, "nickname"@, 0);
    assert(p[0].0 != "room_id"@) by {
        assert(p[0].0.len() != "room_id"@.len());
    }
    lemma_lookup_at(p, "room_id"@, 1);
}

/// A room that the supervisor's store layer bound to an SFU routes, in the signaling
/// service, to the owner's host and port, as an active room on that SFU, when the
/// host is set.
pub proof fn law_route_read_after_binding(
    fields: Seq<(String, String)>,
    owner_host: Seq<char>,
    owner_port: u16,
    owner_id: Seq<char>,
    sfu_instance_id: Seq<char>,
    sfu_grpc_addr: Seq<char>,
)
    requires
        pairs_view(fields) == binding_pairs(owner_host, owner_port, owner_id, sfu_instance_id, sfu_grpc_addr),
        owner_host.len() > 0,
    ensures
        spec_room_route(fields) == Ok::<RoomRouteView, RedisRoomError>(RoomRouteView {
            owner_host,
            owner_port,
            room_state: "active"@,
            sfu_grpc_addr: non_empty(Some(sfu_grpc_addr)),
        }),
{
    let p = pairs_view(fields);
    assert(fields.len() == 6) by {
        assert(p.len() == fields.len());
    }
    reveal_strlit("owner_host");
    reveal_strlit("owner_port");
    reveal_strlit("signaling_owner_id");
    reveal_strlit("room_state");
    reveal_strlit("sfu_instance_id");
    reveal_strlit("sfu_grpc_addr");
    reveal_strlit("active");
    let k = seq!["owner_host"@, "owner_port"@, "signaling_owner_id"@, "room_state"@, "sfu_instance_id"@, "sfu_grpc_addr"@];
    assert forall|i: int, j: int| 0 <= i < 6 && 0 <= j < 6 && i != j implies #[trigger] k[i] != #[trigger] k[j] by {
        if k[i].len() == k[j].len() {
            assert(k[i][0] != k[j][0] || k[i][6] != k[j][6]);
        }
    }
    assert forall|i: int| 0 <= i < 6 implies p[i].0 == #[trigger] k[i] by {}
    lemma_lookup_at(p, k[0], 0);
    lemma_lookup_at(p, k[1], 1);
    lemma_lookup_at(p, k[3], 3);
    lemma_lookup_at(p, k[5], 5);
    lemma_parse_decimal_roundtrip(owner_port as nat, 65535);
}

} // verus!
