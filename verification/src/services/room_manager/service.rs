//! The answers of the room manager's requests: looking a room up, closing it, and
//! reporting the SFUs. The storage reads and writes happen around these functions.

use vstd::prelude::*;
use crate::control_store::models::RoomBinding;
use crate::control_store::storage::ROOM_STATE_ACTIVE;
use crate::fields::{load_for, load_of};
use crate::services::room_manager::storage::{SfuInstance, ROOM_STATE_ALLOCATING};
use crate::text::{or_default, opt_view, str_eq, unwrap_or_str};

verus! {

/// Where a room stands.
#[derive(Debug, Clone, Copy, PartialEq, Eq)]
pub enum RoomBindingStatus {
    Assigned,
    Pending,
    NotFound,
}

/// The answer to a room lookup.
#[derive(Debug, Clone, PartialEq, Eq)]
pub struct GetRoomResponse {
    pub status: RoomBindingStatus,
    pub room_id: String,
    pub sfu_instance_id: String,
    pub sfu_grpc_addr: String,
    pub signaling_owner_id: String,
    pub signaling_owner_host: String,
    pub signaling_owner_port: u32,
    pub room_state: String,
    pub message: String,
}

/// A room lookup.
#[derive(Debug, Clone, PartialEq, Eq)]
pub struct GetRoomRequest {
    pub room_id: String,
    pub signaling_owner_id: String,
    pub signaling_owner_host: String,
    pub signaling_owner_port: u32,
    pub create_if_missing: bool,
}

/// A request the room manager refuses.
#[derive(Debug, Clone, PartialEq, Eq)]
pub enum RequestError {
    /// The request is malformed; the message says how.
    InvalidArgument(String),
}

/// The answer to closing a room.
#[derive(Debug, Clone, PartialEq, Eq)]
pub struct CloseRoomResponse {
    pub closed: bool,
    pub message: String,
}

/// One SFU as the status report shows it.
#[derive(Debug, Clone, PartialEq, Eq)]
pub struct SfuStatus {
    pub instance_id: String,
    pub grpc_addr: String,
    pub max_clients: u32,
    pub current_load: u32,
    pub alive: bool,
    pub last_ping_unix: i64,
    pub provisioned: bool,
}

/// The status a room state reports: active rooms are assigned, allocating ones
/// pending, any other state reads as not found.
pub open spec fn status_of_state(state: Seq<char>) -> RoomBindingStatus {
    if state == ROOM_STATE_ACTIVE@ {
        RoomBindingStatus::Assigned
    } else if state == ROOM_STATE_ALLOCATING@ {
        RoomBindingStatus::Pending
    } else {
        RoomBindingStatus::NotFound
    }
}

/// The answer for a room that has a binding: its status by state, its SFU (empty
/// when none), its owner and its state, and no message.
pub fn build_room_response(assignment: RoomBinding) -> (r: GetRoomResponse)
    ensures
        r.status == status_of_state(assignment.state@),
        r.room_id@ == assignment.room_id@,
        r.sfu_instance_id@ == or_default(assignment@.sfu_instance_id, Seq::empty()),
        r.sfu_grpc_addr@ == or_default(assignment@.sfu_grpc_addr, Seq::empty()),
        r.signaling_owner_id@ == assignment.owner_id@,
        r.signaling_owner_host@ == assignment.owner_host@,
        r.signaling_owner_port == assignment.owner_port,
        r.room_state@ == assignment.state@,
        r.message@ == Seq::<char>::empty(),
{
    let status = if str_eq(assignment.state.as_str(), ROOM_STATE_ACTIVE) {
        RoomBindingStatus::Assigned
    } else if str_eq(assignment.state.as_str(), ROOM_STATE_ALLOCATING) {
        RoomBindingStatus::Pending
    } else {
        RoomBindingStatus::NotFound
    };
    proof {
        reveal_strlit("");
        assert(""@ =~= Seq::<char>::empty());
    }
    GetRoomResponse {
        status,
        room_id: assignment.room_id,
        sfu_instance_id: unwrap_or_str(assignment.sfu_instance_id, ""),
        sfu_grpc_addr: unwrap_or_str(assignment.sfu_grpc_addr, ""),
        signaling_owner_id: assignment.owner_id,
        signaling_owner_host: assignment.owner_host,
        signaling_owner_port: assignment.owner_port as u32,
        room_state: assignment.state,
        message: String::new(),
    }
}

/// The owner port of a lookup, which must fit in 16 bits.
pub fn owner_port_of(request: &GetRoomRequest) -> (r: Result<u16, RequestError>)
    ensures
        r matches Ok(p) ==> p == request.signaling_owner_port,
        r is Ok <==> request.signaling_owner_port <= u16::MAX,
        r matches Err(RequestError::InvalidArgument(m)) ==> m@ == "signaling_owner_port out of range"@,
{
    if request.signaling_owner_port <= u16::MAX as u32 {
        Ok(request.signaling_owner_port as u16)
    } else {
        Err(RequestError::InvalidArgument(String::from_str("signaling_owner_port out of range")))
    }
}

/// The answer for a room that has no binding and is not to be created.
pub fn not_found_response(room_id: String) -> (r: GetRoomResponse)
    ensures
        r.status == RoomBindingStatus::NotFound,
        r.room_id@ == room_id@,
        r.message@ == "room not found"@,
        r.sfu_instance_id@.len() == 0 && r.sfu_grpc_addr@.len() == 0,
        r.signaling_owner_id@.len() == 0 && r.signaling_owner_host@.len() == 0,
        r.signaling_owner_port == 0 && r.room_state@.len() == 0,
{
    GetRoomResponse {
        status: RoomBindingStatus::NotFound,
        room_id,
        sfu_instance_id: String::new(),
        sfu_grpc_addr: String::new(),
        signaling_owner_id: String::new(),
        signaling_owner_host: String::new(),
        signaling_owner_port: 0,
        room_state: String::new(),
        message: String::from_str("room not found"),
    }
}

/// The answer for a room queued for SFU capacity: pending, allocating, owned by the
/// requesting node, with no SFU yet.
pub fn pending_response(request: GetRoomRequest, owner_port: u16) -> (r: GetRoomResponse)
    ensures
        r.status == RoomBindingStatus::Pending,
        r.room_id@ == request.room_id@,
        r.signaling_owner_id@ == request.signaling_owner_id@,
        r.signaling_owner_host@ == request.signaling_owner_host@,
        r.signaling_owner_port == owner_port,
        r.room_state@ == ROOM_STATE_ALLOCATING@,
        r.message@ == "no SFU capacity available yet; retry later"@,
        r.sfu_instance_id@.len() == 0 && r.sfu_grpc_addr@.len() == 0,
{
    GetRoomResponse {
        status: RoomBindingStatus::Pending,
        room_id: request.room_id,
        sfu_instance_id: String::new(),
        sfu_grpc_addr: String::new(),
        signaling_owner_id: request.signaling_owner_id,
        signaling_owner_host: request.signaling_owner_host,
        signaling_owner_port: owner_port as u32,
        room_state: String::from_str(ROOM_STATE_ALLOCATING),
        message: String::from_str("no SFU capacity available yet; retry later"),
    }
}

/// The first step of a lookup, once the binding has been read: the answer when there
/// is one now (the bound room's, or not found when creation was not asked for), or
/// none when an SFU must be found for the room.
pub fn lookup_answer(request: &GetRoomRequest, existing: Option<RoomBinding>) -> (r: Option<GetRoomResponse>)
    ensures
        existing matches Some(b) ==> (r matches Some(resp) && resp.status == status_of_state(b.state@)
            && resp.room_id@ == b.room_id@ && resp.room_state@ == b.state@),
        existing is None ==> (r is Some <==> !request.create_if_missing),
        existing is None && !request.create_if_missing ==> (r matches Some(resp)
            && resp.status == RoomBindingStatus::NotFound && resp.room_id@ == request.room_id@),
{
    match existing {
        Some(b) => Some(build_room_response(b)),
        None => {
            if request.create_if_missing {
                None
            } else {
                Some(not_found_response(request.room_id.clone()))
            }
        },
    }
}

/// What closing a room does: decrement the load of its SFU (when it has one), delete
/// its binding, and answer.
#[derive(Debug, Clone, PartialEq, Eq)]
pub struct CloseRoomPlan {
    pub decrement_sfu: Option<String>,
    pub delete_binding: bool,
    pub response: CloseRoomResponse,
}

/// Closing a room with binding `existing`: an unknown room is answered not found and
/// nothing is changed.
pub fn close_room_plan(existing: Option<RoomBinding>) -> (r: CloseRoomPlan)
    ensures
        r.delete_binding == existing is Some,
        r.response.closed == existing is Some,
        opt_view(r.decrement_sfu) == match existing {
            Some(b) => b@.sfu_instance_id,
            None => None,
        },
        r.response.message@ == if existing is Some { "room closed"@ } else { "room not found"@ },
{
    match existing {
        Some(b) => CloseRoomPlan {
            decrement_sfu: b.sfu_instance_id,
            delete_binding: true,
            response: CloseRoomResponse { closed: true, message: String::from_str("room closed") },
        },
        None => CloseRoomPlan {
            decrement_sfu: None,
            delete_binding: false,
            response: CloseRoomResponse { closed: false, message: String::from_str("room not found") },
        },
    }
}

/// A room load as a 32-bit count, saturating at `u32::MAX`.
pub open spec fn load_u32(load: u64) -> u32 {
    if load > u32::MAX { u32::MAX } else { load as u32 }
}

/// The status line of one SFU: its record with its current room load.
pub fn sfu_status(instance: SfuInstance, loads: &Vec<(String, u64)>) -> (r: SfuStatus)
    ensures
        r.instance_id@ == instance.instance_id@,
        r.grpc_addr@ == instance.grpc_addr@,
        r.max_clients == instance.max_rooms,
        r.current_load == load_u32(load_of(loads@, instance.instance_id@)),
        r.alive == instance.alive,
        r.last_ping_unix == instance.last_ping_unix,
        r.provisioned == instance.provisioned,
{
    let load = load_for(loads, instance.instance_id.as_str());
    let current_load: u32 = if load > u32::MAX as u64 { u32::MAX } else { load as u32 };
    SfuStatus {
        instance_id: instance.instance_id,
        grpc_addr: instance.grpc_addr,
        max_clients: instance.max_rooms,
        current_load,
        alive: instance.alive,
        last_ping_unix: instance.last_ping_unix,
        provisioned: instance.provisioned,
    }
}

/// The status lines of all SFUs, in order.
pub fn sfu_statuses(instances: Vec<SfuInstance>, loads: &Vec<(String, u64)>) -> (r: Vec<SfuStatus>)
    ensures
        r@.len() == instances@.len(),
        forall|i: int| 0 <= i < r@.len() ==> (#[trigger] r@[i]).instance_id@ == instances@[i].instance_id@
            && r@[i].current_load == load_u32(load_of(loads@, instances@[i].instance_id@))
            && r@[i].max_clients == instances@[i].max_rooms && r@[i].alive == instances@[i].alive
            && r@[i].grpc_addr@ == instances@[i].grpc_addr@ && r@[i].last_ping_unix == instances@[i].last_ping_unix
            && r@[i].provisioned == instances@[i].provisioned,
{
    let mut out: Vec<SfuStatus> = Vec::new();
    let mut i: usize = 0;
    while i < instances.len()
        invariant
            i <= instances@.len(),
            out@.len() == i,
            forall|k: int| 0 <= k < i ==> (#[trigger] out@[k]).instance_id@ == instances@[k].instance_id@
                && out@[k].current_load == load_u32(load_of(loads@, instances@[k].instance_id@))
                && out@[k].max_clients == instances@[k].max_rooms && out@[k].alive == instances@[k].alive
                && out@[k].grpc_addr@ == instances@[k].grpc_addr@ && out@[k].last_ping_unix == instances@[k].last_ping_unix
                && out@[k].provisioned == instances@[k].provisioned,
        decreases instances.len() - i,
    {
        let s = sfu_status(instances[i].clone_record(), loads);
        out.push(s);
        i = i + 1;
    }
    out
}

} // verus!
