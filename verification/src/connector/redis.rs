//! The connector's view of the store: its keys, the session and room records it
//! reads, and what the store's replies mean.

use vstd::prelude::*;

use crate::fields::{field, get_field, pair, pairs_view};
use crate::op_timeout::OpTimeout;
use crate::text::{concat3, filter_non_empty, non_empty, opt_view, str_eq};

verus! {

pub const INSTANCE_LOAD_KEY: &'static str = "signaling:instance_load";
pub const SIGNALING_NODES_KEY: &'static str = "signaling:nodes";
pub const SESSION_PREFIX: &'static str = "signaling:session:";
pub const NICK_PREFIX: &'static str = "signaling:nick:";
pub const ROOM_BINDING_PREFIX: &'static str = "room_manager:room:";

/// Where a room's signaling node is: its `host:port` id.
#[derive(Debug, Clone, PartialEq, Eq)]
pub struct RoomRoute {
    pub signaling_instance_id: String,
}

/// A session as the connector reads it.
#[derive(Debug, Clone, PartialEq, Eq)]
pub struct SessionData {
    pub nickname: String,
}

/// A failed store operation.
#[derive(Debug, Clone, PartialEq, Eq)]
pub enum RedisError {
    NicknameTaken,
    RoomNotFound,
    InvalidRoomRoute,
    Timeout,
    /// The store itself failed; the text is its error message.
    Redis(String),
}

/// Records the storage operation timeout; only the first call counts.
pub fn set_op_timeout(cell: &mut OpTimeout, value_ms: u64)
    ensures
        final(cell)@ == crate::op_timeout::spec_set(old(cell)@, value_ms),
{
    cell.set(value_ms);
}

/// The storage operation timeout in milliseconds.
pub fn op_timeout(cell: &OpTimeout) -> (r: u64)
    ensures
        r == crate::op_timeout::spec_get(cell@),
{
    cell.get()
}

pub fn session_key(session_id: &str) -> (r: String)
    ensures
        r@ == SESSION_PREFIX@ + session_id@,
{
    let r = concat3(SESSION_PREFIX, session_id, "");
    proof {
        reveal_strlit("");
        assert(r@ =~= SESSION_PREFIX@ + session_id@);
    }
    r
}

pub fn nick_key(nickname: &str) -> (r: String)
    ensures
        r@ == NICK_PREFIX@ + nickname@,
{
    let r = concat3(NICK_PREFIX, nickname, "");
    proof {
        reveal_strlit("");
        assert(r@ =~= NICK_PREFIX@ + nickname@);
    }
    r
}

pub fn room_binding_key(room_id: &str) -> (r: String)
    ensures
        r@ == ROOM_BINDING_PREFIX@ + room_id@ + ":binding"@,
{
    concat3(ROOM_BINDING_PREFIX, room_id, ":binding")
}

/// What reading a room's binding hash `fields` gives the connector: no such room for
/// an empty hash; otherwise the `host:port` of its owner, both of which must be set.
pub open spec fn spec_room_route(fields: Seq<(String, String)>) -> Result<Seq<char>, RedisError> {
    if fields.len() == 0 {
        Err(RedisError::RoomNotFound)
    } else {
        match (non_empty(field(fields, "owner_host"@)), non_empty(field(fields, "owner_port"@))) {
            (Some(host), Some(port)) => Ok(host + ":"@ + port),
            _ => Err(RedisError::InvalidRoomRoute),
        }
    }
}

/// The route to a room from its binding hash (`get_room_route`).
pub fn room_route_from_fields(fields: &Vec<(String, String)>) -> (r: Result<RoomRoute, RedisError>)
    ensures
        match r {
            Ok(route) => spec_room_route(fields@) == Ok::<Seq<char>, RedisError>(route.signaling_instance_id@),
            Err(e) => spec_room_route(fields@) == Err::<Seq<char>, RedisError>(e),
        },
{
    if fields.len() == 0 {
        return Err(RedisError::RoomNotFound);
    }
    let host = filter_non_empty(get_field(fields, "owner_host"));
    let port = filter_non_empty(get_field(fields, "owner_port"));
    match (host, port) {
        (Some(h), Some(p)) => Ok(RoomRoute { signaling_instance_id: concat3(h.as_str(), ":", p.as_str()) }),
        _ => Err(RedisError::InvalidRoomRoute),
    }
}

/// A session exists for the connector when its stored nickname is set and not empty.
pub fn session_from_nickname(nickname: Option<String>) -> (r: Option<SessionData>)
    ensures
        match r {
            Some(s) => non_empty(opt_view(nickname)) == Some(s.nickname@),
            None => non_empty(opt_view(nickname)) is None,
        },
{
    match filter_non_empty(nickname) {
        Some(nickname) => Some(SessionData { nickname }),
        None => None,
    }
}

/// The reply to a conditional `SET ... NX` means the lease was taken exactly when it
/// is `OK`.
pub fn nick_lease_reply(reply: Option<String>) -> (r: Result<(), RedisError>)
    ensures
        r is Ok <==> (reply matches Some(s) && s@ == "OK"@),
        r matches Err(e) ==> e == RedisError::NicknameTaken,
{
    match reply {
        Some(s) => if str_eq(s.as_str(), "OK") { Ok(()) } else { Err(RedisError::NicknameTaken) },
        None => Err(RedisError::NicknameTaken),
    }
}

/// Seconds a nickname lease lives for a lease time of `ttl_ms`: whole seconds, at
/// least one.
pub fn lease_ttl_secs(ttl_ms: u64) -> (r: u64)
    ensures
        r == if ttl_ms / 1000 >= 1 { ttl_ms / 1000 } else { 1 },
{
    let secs = ttl_ms / 1000;
    if secs >= 1 { secs } else { 1 }
}

/// The fields that creating a session stores.
pub open spec fn session_create_pairs(nickname: Seq<char>) -> Seq<(Seq<char>, Seq<char>)> {
    seq![
        ("nickname"@, nickname),
        ("room_id"@, Seq::empty()),
        ("pending_room_id"@, Seq::empty()),
    ]
}

/// The fields that `session_create` stores for a new session.
pub fn session_create_fields(nickname: &str) -> (r: Vec<(String, String)>)
    ensures
        pairs_view(r@) == session_create_pairs(nickname@),
{
    let mut r: Vec<(String, String)> = Vec::new();
    r.push(pair("nickname", String::from_str(nickname)));
    r.push(pair("room_id", String::new()));
    r.push(pair("pending_room_id", String::new()));
    assert(pairs_view(r@) =~= session_create_pairs(nickname@));
    r
}

} // verus!
