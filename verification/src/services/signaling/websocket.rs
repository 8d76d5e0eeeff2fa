//! The decisions of the signaling WebSocket protocol: who may attach, create, join,
//! leave and exchange media descriptions, and how failures are answered.

use vstd::prelude::*;
use crate::text::{opt_view, str_eq};
use super::redis::{RedisRoomError, RoomRoute, RoomRouteView, SessionState};

verus! {

/// Error codes that the signaling protocol reports to clients.
#[derive(Debug, Clone, Copy, PartialEq, Eq)]
pub enum ServerErrorCode {
    InvalidJson,
    InvalidPayload,
    Unauthorized,
    SessionConflict,
    AlreadyAuthorized,
    LeaveRoomMismatch,
    RoomNotFound,
    NicknameTaken,
    AlreadyInRoom,
    NotInRoom,
    SfuCapacityExhausted,
    SfuUnavailable,
    SfuRejected,
    InvalidRoomAssignment,
    StorageUnavailable,
    WriteFailed,
}

/// Why handling a client message failed.
#[derive(Debug, Clone, Copy, PartialEq, Eq)]
pub enum WsHandlerError {
    AlreadyAuthorized,
    Unauthorized,
    SessionConflict,
    NotInRoom,
    LeaveRoomMismatch,
    AlreadyInRoom,
    RoomNotFound,
    NicknameTaken,
    ParticipantNotInRoom,
    RedisError,
    InvalidRoomAssignment,
    SfuCapacityExhausted,
    SfuUnavailable,
    SfuRejected,
    WriteFailed,
}

/// A failed call to an SFU.
#[derive(Debug, Clone, PartialEq, Eq)]
pub enum SfuClientError {
    Transport(String),
    Connect(String),
    Timeout,
    Rejected(String),
}

/// The code and message a failure is reported with.
pub open spec fn spec_error_code(err: WsHandlerError) -> ServerErrorCode {
    match err {
        WsHandlerError::WriteFailed => ServerErrorCode::WriteFailed,
        WsHandlerError::AlreadyAuthorized => ServerErrorCode::AlreadyAuthorized,
        WsHandlerError::Unauthorized => ServerErrorCode::Unauthorized,
        WsHandlerError::SessionConflict => ServerErrorCode::SessionConflict,
        WsHandlerError::LeaveRoomMismatch => ServerErrorCode::LeaveRoomMismatch,
        WsHandlerError::AlreadyInRoom => ServerErrorCode::AlreadyInRoom,
        WsHandlerError::RoomNotFound => ServerErrorCode::RoomNotFound,
        WsHandlerError::NicknameTaken => ServerErrorCode::NicknameTaken,
        WsHandlerError::ParticipantNotInRoom => ServerErrorCode::NotInRoom,
        WsHandlerError::InvalidRoomAssignment => ServerErrorCode::InvalidRoomAssignment,
        WsHandlerError::SfuCapacityExhausted => ServerErrorCode::SfuCapacityExhausted,
        WsHandlerError::RedisError => ServerErrorCode::StorageUnavailable,
        WsHandlerError::NotInRoom => ServerErrorCode::NotInRoom,
        WsHandlerError::SfuUnavailable => ServerErrorCode::SfuUnavailable,
        WsHandlerError::SfuRejected => ServerErrorCode::SfuRejected,
    }
}

/// The message a failure is reported with.
pub open spec fn spec_error_message(err: WsHandlerError) -> Seq<char> {
    match err {
        WsHandlerError::WriteFailed => "Failed to send message"@,
        WsHandlerError::AlreadyAuthorized => "Connection is already authorized"@,
        WsHandlerError::Unauthorized => "Unauthorized"@,
        WsHandlerError::SessionConflict => "Invalid or conflicting session"@,
        WsHandlerError::LeaveRoomMismatch => "Leave room does not match active room"@,
        WsHandlerError::AlreadyInRoom => "Connection already belongs to a room"@,
        WsHandlerError::RoomNotFound => "Room not found"@,
        WsHandlerError::NicknameTaken => "Nickname already taken"@,
        WsHandlerError::ParticipantNotInRoom => "Participant is not in room"@,
        WsHandlerError::InvalidRoomAssignment => "Invalid room assignment"@,
        WsHandlerError::SfuCapacityExhausted => "No ready SFU capacity is available"@,
        WsHandlerError::RedisError => "Storage operation failed"@,
        WsHandlerError::NotInRoom => "Connection is not joined to this room"@,
        WsHandlerError::SfuUnavailable => "SFU is unavailable"@,
        WsHandlerError::SfuRejected => "SFU rejected signaling request"@,
    }
}

pub fn map_error(err: &WsHandlerError) -> (r: (ServerErrorCode, &'static str))
    ensures
        r.0 == spec_error_code(*err),
        r.1@ == spec_error_message(*err),
{
    match err {
        WsHandlerError::WriteFailed => (ServerErrorCode::WriteFailed, "Failed to send message"),
        WsHandlerError::AlreadyAuthorized => (ServerErrorCode::AlreadyAuthorized, "Connection is already authorized"),
        WsHandlerError::Unauthorized => (ServerErrorCode::Unauthorized, "Unauthorized"),
        WsHandlerError::SessionConflict => (ServerErrorCode::SessionConflict, "Invalid or conflicting session"),
        WsHandlerError::LeaveRoomMismatch => (ServerErrorCode::LeaveRoomMismatch, "Leave room does not match active room"),
        WsHandlerError::AlreadyInRoom => (ServerErrorCode::AlreadyInRoom, "Connection already belongs to a room"),
        WsHandlerError::RoomNotFound => (ServerErrorCode::RoomNotFound, "Room not found"),
        WsHandlerError::NicknameTaken => (ServerErrorCode::NicknameTaken, "Nickname already taken"),
        WsHandlerError::ParticipantNotInRoom => (ServerErrorCode::NotInRoom, "Participant is not in room"),
        WsHandlerError::InvalidRoomAssignment => (ServerErrorCode::InvalidRoomAssignment, "Invalid room assignment"),
        WsHandlerError::SfuCapacityExhausted => (ServerErrorCode::SfuCapacityExhausted, "No ready SFU capacity is available"),
        WsHandlerError::RedisError => (ServerErrorCode::StorageUnavailable, "Storage operation failed"),
        WsHandlerError::NotInRoom => (ServerErrorCode::NotInRoom, "Connection is not joined to this room"),
        WsHandlerError::SfuUnavailable => (ServerErrorCode::SfuUnavailable, "SFU is unavailable"),
        WsHandlerError::SfuRejected => (ServerErrorCode::SfuRejected, "SFU rejected signaling request"),
    }
}

/// The protocol failure that a store failure becomes.
pub open spec fn spec_map_redis_error(err: RedisRoomError) -> WsHandlerError {
    match err {
        RedisRoomError::RoomNotFound => WsHandlerError::RoomNotFound,
        RedisRoomError::NicknameTaken => WsHandlerError::NicknameTaken,
        RedisRoomError::ParticipantNotInRoom => WsHandlerError::ParticipantNotInRoom,
        RedisRoomError::NoSfuCapacity => WsHandlerError::SfuCapacityExhausted,
        RedisRoomError::RoomAlreadyExists => WsHandlerError::InvalidRoomAssignment,
        RedisRoomError::InvalidRoomTarget => WsHandlerError::InvalidRoomAssignment,
        RedisRoomError::Timeout => WsHandlerError::RedisError,
        RedisRoomError::Redis(_) => WsHandlerError::RedisError,
    }
}

pub fn map_redis_error(err: RedisRoomError) -> (r: WsHandlerError)
    ensures
        r == spec_map_redis_error(err),
{
    match err {
        RedisRoomError::RoomNotFound => WsHandlerError::RoomNotFound,
        RedisRoomError::NicknameTaken => WsHandlerError::NicknameTaken,
        RedisRoomError::ParticipantNotInRoom => WsHandlerError::ParticipantNotInRoom,
        RedisRoomError::NoSfuCapacity => WsHandlerError::SfuCapacityExhausted,
        RedisRoomError::RoomAlreadyExists => WsHandlerError::InvalidRoomAssignment,
        RedisRoomError::InvalidRoomTarget => WsHandlerError::InvalidRoomAssignment,
        RedisRoomError::Timeout | RedisRoomError::Redis(_) => WsHandlerError::RedisError,
    }
}

/// The protocol failure that an SFU failure becomes: an SFU that cannot be reached
/// is unavailable; one that answers no has rejected the request.
pub fn map_sfu_error(err: SfuClientError) -> (r: WsHandlerError)
    ensures
        err is Rejected ==> r == WsHandlerError::SfuRejected,
        !(err is Rejected) ==> r == WsHandlerError::SfuUnavailable,
{
    match err {
        SfuClientError::Transport(_) | SfuClientError::Connect(_) | SfuClientError::Timeout => WsHandlerError::SfuUnavailable,
        SfuClientError::Rejected(_) => WsHandlerError::SfuRejected,
    }
}

/// The route names this node as the room's owner.
pub open spec fn spec_is_local_target(route: RoomRouteView, public_host: Seq<char>, public_port: u16) -> bool {
    route.owner_host == public_host && route.owner_port == public_port
}

pub fn is_local_target(route: &RoomRoute, public_host: &str, public_port: u16) -> (r: bool)
    ensures
        r == spec_is_local_target(route@, public_host@, public_port),
{
    str_eq(route.owner_host.as_str(), public_host) && route.owner_port == public_port
}

/// A connection may attach only while it has no session.
pub fn attach_admission(bound_session: &Option<String>) -> (r: Result<(), WsHandlerError>)
    ensures
        r is Ok <==> bound_session is None,
        r matches Err(e) ==> e == WsHandlerError::AlreadyAuthorized,
{
    if bound_session.is_some() {
        Err(WsHandlerError::AlreadyAuthorized)
    } else {
        Ok(())
    }
}

/// The session a token admits: the stored session, which must carry the token's
/// nickname.
pub fn attach_session(stored: Option<SessionState>, claimed_nickname: &str) -> (r: Result<SessionState, WsHandlerError>)
    ensures
        match r {
            Ok(s) => stored == Some(s) && s.nickname@ == claimed_nickname@,
            Err(e) => e == WsHandlerError::Unauthorized && !(stored matches Some(s) && s.nickname@ == claimed_nickname@),
        },
{
    match stored {
        Some(s) => if str_eq(s.nickname.as_str(), claimed_nickname) { Ok(s) } else { Err(WsHandlerError::Unauthorized) },
        None => Err(WsHandlerError::Unauthorized),
    }
}

/// A message may name only the session the connection is bound to, if it is bound.
pub fn bound_session_check(bound_session: &Option<String>, session_id: &str) -> (r: Result<(), WsHandlerError>)
    ensures
        r is Ok <==> !(bound_session matches Some(b) && b@ != session_id@),
        r matches Err(e) ==> e == WsHandlerError::SessionConflict,
{
    match bound_session {
        Some(b) => if str_eq(b.as_str(), session_id) { Ok(()) } else { Err(WsHandlerError::SessionConflict) },
        None => Ok(()),
    }
}

/// The named session must exist with a nickname.
pub fn existing_session(stored: Option<SessionState>) -> (r: Result<SessionState, WsHandlerError>)
    ensures
        match r {
            Ok(s) => stored == Some(s) && s.nickname@.len() > 0,
            Err(e) => e == WsHandlerError::SessionConflict && !(stored matches Some(s) && s.nickname@.len() > 0),
        },
{
    match stored {
        Some(s) => if s.nickname.as_str().unicode_len() > 0 { Ok(s) } else { Err(WsHandlerError::SessionConflict) },
        None => Err(WsHandlerError::SessionConflict),
    }
}

/// A session may create a room when it is in none and its token was issued to create.
pub fn create_admission(session: &SessionState, allowed_intent: &Option<String>) -> (r: Result<(), WsHandlerError>)
    ensures
        session.room_id is Some ==> r == Err::<(), WsHandlerError>(WsHandlerError::AlreadyInRoom),
        session.room_id is None ==> (r is Ok <==> opt_view(*allowed_intent) == Some("create"@)),
        session.room_id is None && r is Err ==> r == Err::<(), WsHandlerError>(WsHandlerError::Unauthorized),
{
    if session.room_id.is_some() {
        return Err(WsHandlerError::AlreadyInRoom);
    }
    match allowed_intent {
        Some(i) => if str_eq(i.as_str(), "create") { Ok(()) } else { Err(WsHandlerError::Unauthorized) },
        None => Err(WsHandlerError::Unauthorized),
    }
}

/// A session may join `room_id` when it is in no room and its token was issued to
/// join that very room.
pub fn join_admission(
    session: &SessionState,
    allowed_intent: &Option<String>,
    allowed_room_id: &Option<String>,
    room_id: &str,
) -> (r: Result<(), WsHandlerError>)
    ensures
        session.room_id is Some ==> r == Err::<(), WsHandlerError>(WsHandlerError::AlreadyInRoom),
        session.room_id is None ==> (r is Ok <==> (opt_view(*allowed_intent) == Some("join"@)
            && opt_view(*allowed_room_id) == Some(room_id@))),
        session.room_id is None && r is Err ==> r == Err::<(), WsHandlerError>(WsHandlerError::Unauthorized),
{
    if session.room_id.is_some() {
        return Err(WsHandlerError::AlreadyInRoom);
    }
    let intent_ok = match allowed_intent {
        Some(i) => str_eq(i.as_str(), "join"),
        None => false,
    };
    let room_ok = match allowed_room_id {
        Some(a) => str_eq(a.as_str(), room_id),
        None => false,
    };
    if intent_ok && room_ok {
        Ok(())
    } else {
        Err(WsHandlerError::Unauthorized)
    }
}

/// The SFU a joining member is attached to: the room must be owned by this node and
/// active, and must have an SFU.
pub fn join_target(route: &RoomRoute, public_host: &str, public_port: u16) -> (r: Result<String, WsHandlerError>)
    ensures
        !spec_is_local_target(route@, public_host@, public_port) ==> r == Err::<String, WsHandlerError>(WsHandlerError::InvalidRoomAssignment),
        spec_is_local_target(route@, public_host@, public_port) && route@.room_state != "active"@ ==> r == Err::<String, WsHandlerError>(WsHandlerError::InvalidRoomAssignment),
        spec_is_local_target(route@, public_host@, public_port) && route@.room_state == "active"@ ==> match route@.sfu_grpc_addr {
            Some(a) => r matches Ok(x) && x@ == a && route.sfu_grpc_addr == Some(x),
            None => r == Err::<String, WsHandlerError>(WsHandlerError::SfuUnavailable),
        },
{
    if !is_local_target(route, public_host, public_port) {
        return Err(WsHandlerError::InvalidRoomAssignment);
    }
    if !str_eq(route.room_state.as_str(), "active") {
        return Err(WsHandlerError::InvalidRoomAssignment);
    }
    match &route.sfu_grpc_addr {
        Some(a) => Ok(a.clone()),
        None => Err(WsHandlerError::SfuUnavailable),
    }
}

/// A session may leave `room_id` only when that is the room it is in.
pub fn leave_admission(session: &SessionState, room_id: &str) -> (r: Result<(), WsHandlerError>)
    ensures
        session.room_id is None ==> r == Err::<(), WsHandlerError>(WsHandlerError::NotInRoom),
        session.room_id matches Some(c) ==> (if c@ == room_id@ {
            r is Ok
        } else {
            r == Err::<(), WsHandlerError>(WsHandlerError::LeaveRoomMismatch)
        }),
{
    match &session.room_id {
        Some(c) => if str_eq(c.as_str(), room_id) { Ok(()) } else { Err(WsHandlerError::LeaveRoomMismatch) },
        None => Err(WsHandlerError::NotInRoom),
    }
}

/// The room a media message concerns: the session's room, which it must be in.
pub fn current_room(session: &SessionState) -> (r: Result<String, WsHandlerError>)
    ensures
        match r {
            Ok(x) => session.room_id == Some(x),
            Err(e) => e == WsHandlerError::NotInRoom && session.room_id is None,
        },
{
    match &session.room_id {
        Some(c) => Ok(c.clone()),
        None => Err(WsHandlerError::NotInRoom),
    }
}

/// The SFU a media message goes to: the room's SFU, which it must have.
pub fn route_sfu(route: &RoomRoute) -> (r: Result<String, WsHandlerError>)
    ensures
        match r {
            Ok(x) => route.sfu_grpc_addr == Some(x),
            Err(e) => e == WsHandlerError::SfuUnavailable && route@.sfu_grpc_addr is None,
        },
{
    match &route.sfu_grpc_addr {
        Some(a) => Ok(a.clone()),
        None => Err(WsHandlerError::SfuUnavailable),
    }
}

} // verus!
