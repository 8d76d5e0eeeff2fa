//! The decisions of the connector's HTTP handlers: which signaling node a new room
//! goes to, whether room creation is open, and how failures are answered.

use vstd::prelude::*;
use crate::control_store::models::{SupervisorStatus, SupervisorStatusView};
use crate::fields::{load_for, load_of};
use crate::select::{first_least, least_loaded};
use crate::text::{str_eq, strings_view};
use super::config::SignalingInstance;
use super::message::ServerErrorCode;
use super::redis::RedisError;

verus! {

/// Why a handler failed.
#[derive(Debug, Clone, Copy, PartialEq, Eq)]
pub enum HandlerError {
    Unauthorized,
    NicknameTaken,
    RoomNotFound,
    Redis,
    SignalingUnavailable,
    UnknownSignalingRoute,
    InvalidPayload(&'static str),
    Token,
    SupervisorUnavailable,
}

/// The handler failure that a store failure becomes.
pub open spec fn spec_map_redis_error(err: RedisError) -> HandlerError {
    match err {
        RedisError::NicknameTaken => HandlerError::NicknameTaken,
        RedisError::RoomNotFound => HandlerError::RoomNotFound,
        _ => HandlerError::Redis,
    }
}

pub fn map_redis_error(err: RedisError) -> (r: HandlerError)
    ensures
        r == spec_map_redis_error(err),
{
    match err {
        RedisError::NicknameTaken => HandlerError::NicknameTaken,
        RedisError::RoomNotFound => HandlerError::RoomNotFound,
        RedisError::InvalidRoomRoute | RedisError::Timeout | RedisError::Redis(_) => HandlerError::Redis,
    }
}

/// The error code and message a failure is answered with.
pub fn map_error(err: &HandlerError) -> (r: (ServerErrorCode, &'static str))
    ensures
        match *err {
            HandlerError::Unauthorized => r.0 == ServerErrorCode::Unauthorized && r.1@ == "Unauthorized session"@,
            HandlerError::NicknameTaken => r.0 == ServerErrorCode::NicknameTaken && r.1@ == "Nickname already taken"@,
            HandlerError::RoomNotFound => r.0 == ServerErrorCode::RoomNotFound && r.1@ == "Room not found"@,
            HandlerError::Redis => r.0 == ServerErrorCode::StorageUnavailable && r.1@ == "Storage operation failed"@,
            HandlerError::SignalingUnavailable => r.0 == ServerErrorCode::NoHealthySignaling && r.1@ == "No healthy signaling instance"@,
            HandlerError::UnknownSignalingRoute => r.0 == ServerErrorCode::UnknownSignalingRoute && r.1@ == "Signaling route is not configured on this connector"@,
            HandlerError::Token => r.0 == ServerErrorCode::TokenIssueFailed && r.1@ == "Failed to issue token"@,
            HandlerError::InvalidPayload(message) => r.0 == ServerErrorCode::InvalidPayload && r.1 == message,
            HandlerError::SupervisorUnavailable => r.0 == ServerErrorCode::StorageUnavailable && r.1@ == "Supervisor not available; retry shortly"@,
        },
{
    match err {
        HandlerError::Unauthorized => (ServerErrorCode::Unauthorized, "Unauthorized session"),
        HandlerError::NicknameTaken => (ServerErrorCode::NicknameTaken, "Nickname already taken"),
        HandlerError::RoomNotFound => (ServerErrorCode::RoomNotFound, "Room not found"),
        HandlerError::Redis => (ServerErrorCode::StorageUnavailable, "Storage operation failed"),
        HandlerError::SignalingUnavailable => (ServerErrorCode::NoHealthySignaling, "No healthy signaling instance"),
        HandlerError::UnknownSignalingRoute => (
            ServerErrorCode::UnknownSignalingRoute,
            "Signaling route is not configured on this connector",
        ),
        HandlerError::Token => (ServerErrorCode::TokenIssueFailed, "Failed to issue token"),
        HandlerError::InvalidPayload(message) => (ServerErrorCode::InvalidPayload, *message),
        HandlerError::SupervisorUnavailable => (
            ServerErrorCode::StorageUnavailable,
            "Supervisor not available; retry shortly",
        ),
    }
}

/// The HTTP status a failure is answered with.
pub open spec fn spec_status_for_error(err: HandlerError) -> u16 {
    match err {
        HandlerError::Unauthorized => 401,
        HandlerError::NicknameTaken => 409,
        HandlerError::RoomNotFound => 404,
        HandlerError::InvalidPayload(_) => 400,
        HandlerError::Token => 500,
        _ => 503,
    }
}

pub fn status_for_error(err: &HandlerError) -> (r: u16)
    ensures
        r == spec_status_for_error(*err),
{
    match err {
        HandlerError::Unauthorized => 401,
        HandlerError::NicknameTaken => 409,
        HandlerError::RoomNotFound => 404,
        HandlerError::Redis => 503,
        HandlerError::SignalingUnavailable => 503,
        HandlerError::UnknownSignalingRoute => 503,
        HandlerError::InvalidPayload(_) => 400,
        HandlerError::Token => 500,
        HandlerError::SupervisorUnavailable => 503,
    }
}

/// `id` is among `alive`.
pub open spec fn is_listed(alive: Seq<Seq<char>>, id: Seq<char>) -> bool {
    exists|i: int| 0 <= i < alive.len() && alive[i] == id
}

/// Whether `id` is among `alive`.
pub fn listed(alive: &Vec<String>, id: &str) -> (r: bool)
    ensures
        r == is_listed(strings_view(alive@), id@),
{
    let mut i: usize = 0;
    while i < alive.len()
        invariant
            i <= alive@.len(),
            forall|k: int| 0 <= k < i ==> strings_view(alive@)[k] != id@,
        decreases alive.len() - i,
    {
        if str_eq(alive[i].as_str(), id) {
            assert(strings_view(alive@)[i as int] == id@);
            return true;
        }
        i = i + 1;
    }
    false
}

pub open spec fn signaling_eligibility(instances: Seq<SignalingInstance>, alive: Seq<String>) -> Seq<bool> {
    Seq::new(instances.len(), |i: int| is_listed(strings_view(alive), instances[i].id@))
}

pub open spec fn signaling_loads(instances: Seq<SignalingInstance>, loads: Seq<(String, u64)>) -> Seq<u64> {
    Seq::new(instances.len(), |i: int| load_of(loads, instances[i].id@))
}

/// The signaling node for a new room (`select_least_loaded_signaling`): of the
/// configured nodes that are alive, the least loaded, the first configured on ties;
/// `SignalingUnavailable` when none is alive.
pub fn select_least_loaded_signaling(
    instances: &Vec<SignalingInstance>,
    alive: &Vec<String>,
    loads: &Vec<(String, u64)>,
) -> (r: Result<usize, HandlerError>)
    ensures
        match least_loaded(signaling_eligibility(instances@, alive@), signaling_loads(instances@, loads@)) {
            Some(i) => r == Ok::<usize, HandlerError>(i as usize),
            None => r == Err::<usize, HandlerError>(HandlerError::SignalingUnavailable),
        },
{
    let mut eligible: Vec<bool> = Vec::new();
    let mut load: Vec<u64> = Vec::new();
    let mut i: usize = 0;
    while i < instances.len()
        invariant
            i <= instances@.len(),
            eligible@ == signaling_eligibility(instances@, alive@).take(i as int),
            load@ == signaling_loads(instances@, loads@).take(i as int),
        decreases instances.len() - i,
    {
        eligible.push(listed(alive, instances[i].id.as_str()));
        load.push(load_for(loads, instances[i].id.as_str()));
        i = i + 1;
        assert(eligible@ =~= signaling_eligibility(instances@, alive@).take(i as int));
        assert(load@ =~= signaling_loads(instances@, loads@).take(i as int));
    }
    assert(eligible@ =~= signaling_eligibility(instances@, alive@));
    assert(load@ =~= signaling_loads(instances@, loads@));
    match first_least(&eligible, &load) {
        Some(k) => Ok(k),
        None => Err(HandlerError::SignalingUnavailable),
    }
}

/// Room creation is open only while the supervisor's heartbeat is at most
/// `stale_sec` seconds old (`check_supervisor_freshness`).
pub open spec fn supervisor_fresh(status: Option<SupervisorStatusView>, now: i64, stale_sec: i64) -> bool {
    match status {
        Some(s) => now - s.last_seen_unix <= stale_sec,
        None => false,
    }
}

pub fn check_supervisor_freshness(status: &Option<SupervisorStatus>, now: i64, stale_sec: i64) -> (r: Result<(), HandlerError>)
    ensures
        r is Ok <==> supervisor_fresh(
            match *status {
                Some(s) => Some(s@),
                None => None,
            },
            now,
            stale_sec,
        ),
        r matches Err(e) ==> e == HandlerError::SupervisorUnavailable,
{
    match status {
        Some(s) => {
            if (now as i128) - (s.last_seen_unix as i128) > stale_sec as i128 {
                Err(HandlerError::SupervisorUnavailable)
            } else {
                Ok(())
            }
        },
        None => Err(HandlerError::SupervisorUnavailable),
    }
}

/// A session may renew its lifetime only while it still owns its nickname lease and
/// the renewal took effect.
pub fn session_renew_decision(lease_owner: &Option<String>, session_id: &str, renewed: bool) -> (r: Result<(), HandlerError>)
    ensures
        r is Ok <==> (lease_owner matches Some(o) && o@ == session_id@ && renewed),
        r matches Err(e) ==> e == HandlerError::Unauthorized,
{
    match lease_owner {
        Some(o) => if str_eq(o.as_str(), session_id) && renewed { Ok(()) } else { Err(HandlerError::Unauthorized) },
        None => Err(HandlerError::Unauthorized),
    }
}

} // verus!
