//! What the first room manager's storage operations compute: the keys of a room, the
//! SFU chosen for a new room, and the records and fields its writes store. Decoding a
//! room's hash, closing a room's load and the queued-room fields are those of
//! `services::room_manager::storage`.

use vstd::prelude::*;
use crate::control_store::models::RoomBindingView;
use crate::control_store::storage::{binding_pairs, SFU_PING_FRESH_SECS, SFU_STATE_READY, ROOM_STATE_ACTIVE,
    FIELD_OWNER_HOST, FIELD_OWNER_PORT, FIELD_SIGNALING_OWNER_ID, FIELD_ROOM_STATE,
    FIELD_SFU_INSTANCE_ID, FIELD_SFU_GRPC_ADDR};
use crate::control_store::keys::SIGNALING_ROOM_PREFIX;
use crate::decimal::decimal_string;
use crate::fields::{load_for, load_of, pair, pairs_view};
use crate::room_manager::models::{RoomAssignment, SfuCandidate, SfuInstanceRecord};
use crate::select::{first_least, least_loaded};
use crate::services::room_manager::storage::SFU_STATE_STARTING;
use crate::text::str_eq;

verus! {

pub const SFU_INSTANCES_KEY: &'static str = "room_manager:sfu_instances";
pub const SFU_LOAD_KEY: &'static str = "room_manager:sfu_load";
pub const WAITING_REQUESTS_KEY: &'static str = "room_manager:waiting_requests";
pub const META_SUFFIX: &'static str = ":meta";

/// `signaling:room:{room_id}:meta`.
pub open spec fn spec_room_meta_key(room_id: Seq<char>) -> Seq<char> {
    SIGNALING_ROOM_PREFIX@ + room_id + META_SUFFIX@
}

/// The key of a room's metadata hash.
pub fn room_meta_key(room_id: &str) -> (r: String)
    ensures
        r@ == spec_room_meta_key(room_id@),
{
    String::from_str(SIGNALING_ROOM_PREFIX).concat(room_id).concat(META_SUFFIX)
}

/// The key of a room's member set: `signaling:room:{room_id}:members`.
pub fn room_members_key(room_id: &str) -> (r: String)
    ensures
        r@ == crate::control_store::keys::spec_room_members_key(room_id@),
{
    crate::control_store::keys::room_members_key(room_id)
}

pub open spec fn record_eligible(inst: SfuInstanceRecord, load: u64, now: i64) -> bool {
    &&& inst.alive
    &&& now - inst.last_ping_unix <= SFU_PING_FRESH_SECS
    &&& inst.state@ == SFU_STATE_READY@
    &&& load < inst.max_clients
}

pub open spec fn record_eligibility(instances: Seq<SfuInstanceRecord>, loads: Seq<(String, u64)>, now: i64) -> Seq<bool> {
    Seq::new(instances.len(), |i: int| record_eligible(instances[i], load_of(loads, instances[i].instance_id@), now))
}

pub open spec fn record_loads(instances: Seq<SfuInstanceRecord>, loads: Seq<(String, u64)>) -> Seq<u64> {
    Seq::new(instances.len(), |i: int| load_of(loads, instances[i].instance_id@))
}

/// The SFU for a new room: of those alive, pinged within thirty seconds, ready and
/// below their client capacity, the least loaded (a missing load counts as zero), the
/// first listed on ties; none when none qualifies.
pub fn select_least_loaded_instance(
    instances: Vec<SfuInstanceRecord>,
    loads: &Vec<(String, u64)>,
    now: i64,
) -> (r: Option<SfuInstanceRecord>)
    ensures
        r == match least_loaded(record_eligibility(instances@, loads@, now), record_loads(instances@, loads@)) {
            Some(i) => Some(instances@[i]),
            None => None::<SfuInstanceRecord>,
        },
{
    let mut instances = instances;
    let mut ok: Vec<bool> = Vec::new();
    let mut load: Vec<u64> = Vec::new();
    let mut i: usize = 0;
    while i < instances.len()
        invariant
            i <= instances@.len(),
            ok@ == record_eligibility(instances@, loads@, now).take(i as int),
            load@ == record_loads(instances@, loads@).take(i as int),
        decreases instances.len() - i,
    {
        let inst = &instances[i];
        let l = load_for(loads, inst.instance_id.as_str());
        let e = inst.alive && (now as i128) - (inst.last_ping_unix as i128) <= SFU_PING_FRESH_SECS as i128
            && str_eq(inst.state.as_str(), SFU_STATE_READY) && l < inst.max_clients as u64;
        ok.push(e);
        load.push(l);
        proof {
            assert(ok@ =~= record_eligibility(instances@, loads@, now).take(i + 1));
            assert(load@ =~= record_loads(instances@, loads@).take(i + 1));
        }
        i = i + 1;
    }
    proof {
        assert(ok@ =~= record_eligibility(instances@, loads@, now));
        assert(load@ =~= record_loads(instances@, loads@));
    }
    match first_least(&ok, &load) {
        Some(k) => Some(instances.swap_remove(k)),
        None => None,
    }
}

/// The fields `assign_room_to_instance` stores in the room's metadata hash: owner
/// host, port and id, the active state, and the SFU's id and address.
pub fn assignment_fields(
    signaling_owner_id: &str,
    signaling_owner_host: &str,
    signaling_owner_port: u16,
    instance: &SfuInstanceRecord,
) -> (r: Vec<(String, String)>)
    ensures
        pairs_view(r@) == binding_pairs(
            signaling_owner_host@,
            signaling_owner_port,
            signaling_owner_id@,
            instance.instance_id@,
            instance.grpc_addr@,
        ),
{
    let mut r: Vec<(String, String)> = Vec::new();
    r.push(pair(FIELD_OWNER_HOST, String::from_str(signaling_owner_host)));
    r.push(pair(FIELD_OWNER_PORT, decimal_string(signaling_owner_port as u64)));
    r.push(pair(FIELD_SIGNALING_OWNER_ID, String::from_str(signaling_owner_id)));
    r.push(pair(FIELD_ROOM_STATE, String::from_str(ROOM_STATE_ACTIVE)));
    r.push(pair(FIELD_SFU_INSTANCE_ID, instance.instance_id.clone()));
    r.push(pair(FIELD_SFU_GRPC_ADDR, instance.grpc_addr.clone()));
    assert(pairs_view(r@) =~= binding_pairs(
        signaling_owner_host@,
        signaling_owner_port,
        signaling_owner_id@,
        instance.instance_id@,
        instance.grpc_addr@,
    ));
    r
}

/// The assignment `assign_room_to_instance` returns: the room, its owner, the active
/// state and the chosen SFU.
pub fn assignment_for(
    room_id: &str,
    signaling_owner_id: &str,
    signaling_owner_host: &str,
    signaling_owner_port: u16,
    instance: &SfuInstanceRecord,
) -> (r: RoomAssignment)
    ensures
        r@ == (RoomBindingView {
            room_id: room_id@,
            owner_id: signaling_owner_id@,
            owner_host: signaling_owner_host@,
            owner_port: signaling_owner_port,
            state: ROOM_STATE_ACTIVE@,
            sfu_instance_id: Some(instance.instance_id@),
            sfu_grpc_addr: Some(instance.grpc_addr@),
        }),
{
    RoomAssignment {
        room_id: String::from_str(room_id),
        owner_id: String::from_str(signaling_owner_id),
        owner_host: String::from_str(signaling_owner_host),
        owner_port: signaling_owner_port,
        state: String::from_str(ROOM_STATE_ACTIVE),
        sfu_instance_id: Some(instance.instance_id.clone()),
        sfu_grpc_addr: Some(instance.grpc_addr.clone()),
    }
}

/// The record `register_provisioning_instance` stores for `candidate` at `now`: not
/// alive, provisioned, starting, never pinged, idle since `now`.
pub fn provisioning_record(candidate: &SfuCandidate, now: i64) -> (r: SfuInstanceRecord)
    ensures
        r.instance_id@ == candidate.instance_id@,
        r.grpc_addr@ == candidate.grpc_addr@,
        r.max_clients == candidate.max_clients,
        !r.alive && r.provisioned,
        r.state@ == SFU_STATE_STARTING@,
        r.last_ping_unix == 0,
        r.idle_since_unix == now,
{
    SfuInstanceRecord {
        instance_id: candidate.instance_id.clone(),
        grpc_addr: candidate.grpc_addr.clone(),
        max_clients: candidate.max_clients,
        alive: false,
        provisioned: true,
        state: String::from_str(SFU_STATE_STARTING),
        last_ping_unix: 0,
        idle_since_unix: now,
    }
}

/// The record `update_sfu_health` stores after a probe: liveness as probed; a live SFU
/// also gets the probe time as its last ping and the ready state.
pub fn record_with_health(instance: SfuInstanceRecord, alive: bool, now: i64) -> (r: SfuInstanceRecord)
    ensures
        r.alive == alive,
        r.last_ping_unix == if alive { now } else { instance.last_ping_unix },
        r.state@ == if alive { SFU_STATE_READY@ } else { instance.state@ },
        r.instance_id == instance.instance_id && r.grpc_addr == instance.grpc_addr,
        r.max_clients == instance.max_clients && r.provisioned == instance.provisioned,
        r.idle_since_unix == instance.idle_since_unix,
{
    let mut instance = instance;
    instance.alive = alive;
    if alive {
        instance.last_ping_unix = now;
        instance.state = String::from_str(SFU_STATE_READY);
    }
    instance
}

/// The record `update_idle_since` stores: the same SFU, idle since `idle_since_unix`.
pub fn record_idle_since(instance: SfuInstanceRecord, idle_since_unix: i64) -> (r: SfuInstanceRecord)
    ensures
        r == (SfuInstanceRecord { idle_since_unix, ..instance }),
{
    let mut instance = instance;
    instance.idle_since_unix = idle_since_unix;
    instance
}

/// The first room manager queues a request only below the queue's maximum; a request
/// beyond it is dropped without an error.
pub fn queue_accepts(current: usize, max_waiting_requests: usize) -> (r: bool)
    ensures
        r == (current < max_waiting_requests),
{
    current < max_waiting_requests
}

} // verus!
