//! The room manager's records and what its storage operations compute: the binding key
//! of a room, the SFU chosen for a new room, the records written when an SFU is
//! provisioned or probed, and the waiting-queue admission.

use vstd::prelude::*;
use crate::control_store::models::{RoomBinding, RoomBindingView};
use crate::control_store::storage::{load_after_close, room_binding_from_fields, spec_load_after_close, spec_room_binding, SFU_PING_FRESH_SECS, SFU_STATE_READY, FIELD_OWNER_HOST, FIELD_OWNER_PORT, FIELD_SIGNALING_OWNER_ID, FIELD_ROOM_STATE};
use crate::decimal::{decimal, decimal_string, lemma_parse_decimal_roundtrip};
use crate::fields::{lemma_lookup_at, lemma_lookup_absent, load_for, load_of, pair, pairs_view};
use crate::op_timeout::OpTimeout;
use crate::select::{first_least, least_loaded};
use crate::text::str_eq;

verus! {

pub const SFU_INSTANCES_KEY: &'static str = "room_manager:sfu_instances";
pub const SFU_ROOM_LOAD_KEY: &'static str = "room_manager:sfu_room_load";
pub const WAITING_REQUESTS_KEY: &'static str = "room_manager:waiting_requests";
pub const ROOM_PREFIX: &'static str = "room_manager:room:";
pub const BINDING_SUFFIX: &'static str = ":binding";

/// Room state of a room waiting for SFU capacity.
pub const ROOM_STATE_ALLOCATING: &'static str = "allocating";
/// State of an SFU whose process is being started.
pub const SFU_STATE_STARTING: &'static str = "starting";
/// State of an SFU being provisioned.
pub const SFU_STATE_PROVISIONING: &'static str = "provisioning";

/// An SFU the inventory can provision.
#[derive(Debug, Clone, PartialEq, Eq)]
pub struct SfuCandidate {
    pub instance_id: String,
    pub grpc_addr: String,
    pub max_rooms: u32,
}

/// An SFU as the room manager records it.
#[derive(Debug, Clone, PartialEq, Eq)]
pub struct SfuInstance {
    pub instance_id: String,
    pub grpc_addr: String,
    pub max_rooms: u32,
    pub alive: bool,
    /// Started by the room manager from its inventory (and so released to it).
    pub provisioned: bool,
    pub state: String,
    pub last_ping_unix: i64,
    pub idle_since_unix: i64,
}

pub struct SfuInstanceView {
    pub instance_id: Seq<char>,
    pub grpc_addr: Seq<char>,
    pub max_rooms: u32,
    pub alive: bool,
    pub provisioned: bool,
    pub state: Seq<char>,
    pub last_ping_unix: i64,
    pub idle_since_unix: i64,
}

impl View for SfuInstance {
    type V = SfuInstanceView;

    open spec fn view(&self) -> SfuInstanceView {
        SfuInstanceView {
            instance_id: self.instance_id@,
            grpc_addr: self.grpc_addr@,
            max_rooms: self.max_rooms,
            alive: self.alive,
            provisioned: self.provisioned,
            state: self.state@,
            last_ping_unix: self.last_ping_unix,
            idle_since_unix: self.idle_since_unix,
        }
    }
}

impl SfuInstance {
    /// A copy of the record.
    pub fn clone_record(&self) -> (r: SfuInstance)
        ensures
            r@ == self@,
            r == *self,
    {
        SfuInstance {
            instance_id: self.instance_id.clone(),
            grpc_addr: self.grpc_addr.clone(),
            max_rooms: self.max_rooms,
            alive: self.alive,
            provisioned: self.provisioned,
            state: self.state.clone(),
            last_ping_unix: self.last_ping_unix,
            idle_since_unix: self.idle_since_unix,
        }
    }
}

/// A room waiting for SFU capacity.
#[derive(Debug, Clone, PartialEq, Eq)]
pub struct WaitingRequestRecord {
    pub room_id: String,
    pub signaling_owner_id: String,
    pub signaling_owner_host: String,
    pub signaling_owner_port: u16,
    pub enqueued_at_unix: i64,
}

/// Why a room could not be queued.
#[derive(Debug, Clone, PartialEq, Eq)]
pub enum EnqueueError {
    /// The waiting queue holds its maximum.
    QueueFull,
    /// A storage operation failed, with its message.
    Other(String),
}

impl EnqueueError {
    /// The error's message.
    pub fn message(&self) -> (r: String)
        ensures
            self is QueueFull ==> r@ == "waiting queue is full"@,
            self matches EnqueueError::Other(m) ==> r@ == m@,
    {
        match self {
            EnqueueError::QueueFull => String::from_str("waiting queue is full"),
            EnqueueError::Other(m) => m.clone(),
        }
    }
}

/// Records the storage operation timeout; only the first call counts.
pub fn set_op_timeout(cell: &mut OpTimeout, value_ms: u64)
    ensures
        final(cell)@ == crate::op_timeout::spec_set(old(cell)@, value_ms),
{
    cell.set(value_ms);
}

/// The storage operation timeout in milliseconds: the one set, else two seconds.
pub fn op_timeout(cell: &OpTimeout) -> (r: u64)
    ensures
        r == crate::op_timeout::spec_get(cell@),
{
    cell.get()
}

/// `room_manager:room:{room_id}:binding`.
pub open spec fn spec_room_binding_key(room_id: Seq<char>) -> Seq<char> {
    ROOM_PREFIX@ + room_id + BINDING_SUFFIX@
}

/// The key of a room's binding hash.
pub fn room_binding_key(room_id: &str) -> (r: String)
    ensures
        r@ == spec_room_binding_key(room_id@),
{
    String::from_str(ROOM_PREFIX).concat(room_id).concat(BINDING_SUFFIX)
}

/// An SFU may take a new room: alive, pinged within the last thirty seconds, ready, and
/// below its room capacity.
pub open spec fn eligible(inst: SfuInstanceView, load: u64, now: i64) -> bool {
    &&& inst.alive
    &&& now - inst.last_ping_unix <= SFU_PING_FRESH_SECS
    &&& inst.state == SFU_STATE_READY@
    &&& load < inst.max_rooms
}

pub open spec fn eligibility(instances: Seq<SfuInstance>, loads: Seq<(String, u64)>, now: i64) -> Seq<bool> {
    Seq::new(instances.len(), |i: int| eligible(instances[i]@, load_of(loads, instances[i].instance_id@), now))
}

pub open spec fn room_loads(instances: Seq<SfuInstance>, loads: Seq<(String, u64)>) -> Seq<u64> {
    Seq::new(instances.len(), |i: int| load_of(loads, instances[i].instance_id@))
}

/// Whether `inst`, carrying `load` rooms, may take a new room at `now`.
pub fn is_eligible(inst: &SfuInstance, load: u64, now: i64) -> (r: bool)
    ensures
        r == eligible(inst@, load, now),
{
    inst.alive && (now as i128) - (inst.last_ping_unix as i128) <= SFU_PING_FRESH_SECS as i128
        && str_eq(inst.state.as_str(), SFU_STATE_READY) && load < inst.max_rooms as u64
}

/// The SFU for a new room: of those that may take one, the least loaded (a missing
/// load counts as zero), the first listed on ties; none when none may.
pub fn select_least_loaded_instance(
    instances: Vec<SfuInstance>,
    loads: &Vec<(String, u64)>,
    now: i64,
) -> (r: Option<SfuInstance>)
    ensures
        r == match least_loaded(eligibility(instances@, loads@, now), room_loads(instances@, loads@)) {
            Some(i) => Some(instances@[i]),
            None => None::<SfuInstance>,
        },
{
    let mut instances = instances;
    let mut ok: Vec<bool> = Vec::new();
    let mut load: Vec<u64> = Vec::new();
    let mut i: usize = 0;
    while i < instances.len()
        invariant
            i <= instances@.len(),
            ok@ == eligibility(instances@, loads@, now).take(i as int),
            load@ == room_loads(instances@, loads@).take(i as int),
        decreases instances.len() - i,
    {
        let l = load_for(loads, instances[i].instance_id.as_str());
        let e = is_eligible(&instances[i], l, now);
        ok.push(e);
        load.push(l);
        proof {
            assert(ok@ =~= eligibility(instances@, loads@, now).take(i + 1));
            assert(load@ =~= room_loads(instances@, loads@).take(i + 1));
        }
        i = i + 1;
    }
    proof {
        assert(ok@ =~= eligibility(instances@, loads@, now));
        assert(load@ =~= room_loads(instances@, loads@));
    }
    match first_least(&ok, &load) {
        Some(k) => Some(instances.swap_remove(k)),
        None => None,
    }
}

/// An SFU is being brought up: its state is `starting` or `provisioning`.
pub open spec fn is_provisioning_state(state: Seq<char>) -> bool {
    state == SFU_STATE_STARTING@ || state == SFU_STATE_PROVISIONING@
}

/// Whether some SFU is being brought up.
pub fn has_provisioning_instance(instances: &Vec<SfuInstance>) -> (r: bool)
    ensures
        r == exists|i: int| 0 <= i < instances@.len() && is_provisioning_state(#[trigger] instances@[i].state@),
{
    let mut i: usize = 0;
    while i < instances.len()
        invariant
            i <= instances@.len(),
            forall|k: int| 0 <= k < i ==> !is_provisioning_state(#[trigger] instances@[k].state@),
        decreases instances.len() - i,
    {
        let s = instances[i].state.as_str();
        if str_eq(s, SFU_STATE_STARTING) || str_eq(s, SFU_STATE_PROVISIONING) {
            assert(is_provisioning_state(instances@[i as int].state@));
            return true;
        }
        i = i + 1;
    }
    false
}

/// The binding that assigning `room_id` to `instance` records and returns.
pub open spec fn spec_assigned_binding(
    room_id: Seq<char>,
    owner_id: Seq<char>,
    owner_host: Seq<char>,
    owner_port: u16,
    instance: SfuInstanceView,
) -> RoomBindingView {
    RoomBindingView {
        room_id,
        owner_id,
        owner_host,
        owner_port,
        state: crate::control_store::storage::ROOM_STATE_ACTIVE@,
        sfu_instance_id: Some(instance.instance_id),
        sfu_grpc_addr: Some(instance.grpc_addr),
    }
}

/// The binding `assign_room_to_instance` returns: the room, its owner, the active state
/// and the chosen SFU. The stored fields are `control_store::storage::binding_fields`.
pub fn assigned_binding(
    room_id: &str,
    signaling_owner_id: &str,
    signaling_owner_host: &str,
    signaling_owner_port: u16,
    instance: &SfuInstance,
) -> (r: RoomBinding)
    ensures
        r@ == spec_assigned_binding(room_id@, signaling_owner_id@, signaling_owner_host@, signaling_owner_port, instance@),
{
    RoomBinding {
        room_id: String::from_str(room_id),
        owner_id: String::from_str(signaling_owner_id),
        owner_host: String::from_str(signaling_owner_host),
        owner_port: signaling_owner_port,
        state: String::from_str(crate::control_store::storage::ROOM_STATE_ACTIVE),
        sfu_instance_id: Some(instance.instance_id.clone()),
        sfu_grpc_addr: Some(instance.grpc_addr.clone()),
    }
}

/// Decodes a room's binding hash (`get_room_assignment`): nothing for an empty hash,
/// a missing room state reads as `allocating`.
pub fn room_assignment_from_fields(room_id: &str, fields: &Vec<(String, String)>) -> (r: Option<RoomBinding>)
    ensures
        r matches Some(x) ==> spec_room_binding(room_id@, fields@, ROOM_STATE_ALLOCATING@) == Some(x@),
        r is None <==> spec_room_binding(room_id@, fields@, ROOM_STATE_ALLOCATING@) is None,
{
    room_binding_from_fields(room_id, fields, ROOM_STATE_ALLOCATING)
}

/// The record of an SFU being provisioned from `candidate` at `now`.
pub open spec fn spec_provisioning_instance(candidate: SfuCandidate, now: i64) -> SfuInstanceView {
    SfuInstanceView {
        instance_id: candidate.instance_id@,
        grpc_addr: candidate.grpc_addr@,
        max_rooms: candidate.max_rooms,
        alive: false,
        provisioned: true,
        state: SFU_STATE_STARTING@,
        last_ping_unix: 0,
        idle_since_unix: now,
    }
}

/// The record `register_provisioning_instance` stores (with a room load of zero).
pub fn provisioning_instance(candidate: &SfuCandidate, now: i64) -> (r: SfuInstance)
    ensures
        r@ == spec_provisioning_instance(*candidate, now),
{
    SfuInstance {
        instance_id: candidate.instance_id.clone(),
        grpc_addr: candidate.grpc_addr.clone(),
        max_rooms: candidate.max_rooms,
        alive: false,
        provisioned: true,
        state: String::from_str(SFU_STATE_STARTING),
        last_ping_unix: 0,
        idle_since_unix: now,
    }
}

/// The record after a health probe: liveness as probed; a live SFU also gets the
/// probe time as its last ping and the ready state.
pub open spec fn spec_with_health(inst: SfuInstanceView, alive: bool, now: i64) -> SfuInstanceView {
    if alive {
        SfuInstanceView { alive, last_ping_unix: now, state: SFU_STATE_READY@, ..inst }
    } else {
        SfuInstanceView { alive, ..inst }
    }
}

/// The record `update_sfu_health` stores after a probe.
pub fn with_health(instance: SfuInstance, alive: bool, now: i64) -> (r: SfuInstance)
    ensures
        r@ == spec_with_health(instance@, alive, now),
{
    let mut instance = instance;
    instance.alive = alive;
    if alive {
        instance.last_ping_unix = now;
        instance.state = String::from_str(SFU_STATE_READY);
    }
    instance
}

/// The record `update_idle_since` stores: the same SFU, idle since `idle_since_unix`.
pub fn with_idle_since(instance: SfuInstance, idle_since_unix: i64) -> (r: SfuInstance)
    ensures
        r@ == (SfuInstanceView { idle_since_unix, ..instance@ }),
{
    let mut instance = instance;
    instance.idle_since_unix = idle_since_unix;
    instance
}

/// What closing one room on an SFU stores: the load after the close, and whether the
/// SFU becomes idle (its idle time then set to now).
pub fn room_load_after_close(current: u64) -> (r: (u64, bool))
    ensures
        r.0 == spec_load_after_close(current),
        r.1 == (r.0 == 0),
{
    let next = load_after_close(current);
    (next, next == 0)
}

/// The waiting queue has room for one more request.
pub fn queue_admits(current: usize, max_waiting_requests: usize) -> (r: Result<(), EnqueueError>)
    ensures
        r is Ok <==> current < max_waiting_requests,
        r matches Err(e) ==> e is QueueFull,
{
    if current >= max_waiting_requests {
        Err(EnqueueError::QueueFull)
    } else {
        Ok(())
    }
}

/// A room is queued unless its binding already says it is allocating (queued before).
pub fn should_enqueue(existing: &Option<RoomBinding>) -> (r: bool)
    ensures
        r == !(existing matches Some(b) && b.state@ == ROOM_STATE_ALLOCATING@),
{
    match existing {
        Some(b) => !str_eq(b.state.as_str(), ROOM_STATE_ALLOCATING),
        None => true,
    }
}

/// The fields queueing a room stores in its binding hash.
pub open spec fn waiting_pairs(record: WaitingRequestRecord) -> Seq<(Seq<char>, Seq<char>)> {
    seq![
        (FIELD_OWNER_HOST@, record.signaling_owner_host@),
        (FIELD_OWNER_PORT@, decimal(record.signaling_owner_port as nat)),
        (FIELD_SIGNALING_OWNER_ID@, record.signaling_owner_id@),
        (FIELD_ROOM_STATE@, ROOM_STATE_ALLOCATING@),
    ]
}

/// The fields `enqueue_waiting_request` writes to the room's binding hash.
pub fn waiting_fields(record: &WaitingRequestRecord) -> (r: Vec<(String, String)>)
    ensures
        pairs_view(r@) == waiting_pairs(*record),
{
    let mut r: Vec<(String, String)> = Vec::new();
    r.push(pair(FIELD_OWNER_HOST, record.signaling_owner_host.clone()));
    r.push(pair(FIELD_OWNER_PORT, decimal_string(record.signaling_owner_port as u64)));
    r.push(pair(FIELD_SIGNALING_OWNER_ID, record.signaling_owner_id.clone()));
    r.push(pair(FIELD_ROOM_STATE, String::from_str(ROOM_STATE_ALLOCATING)));
    assert(pairs_view(r@) =~= waiting_pairs(*record));
    r
}

/// A queued room reads back as allocating, owned by the node that asked for it, with
/// no SFU yet.
pub proof fn law_queued_room_reads_allocating(
    room_id: Seq<char>,
    fields: Seq<(String, String)>,
    record: WaitingRequestRecord,
)
    requires
        pairs_view(fields) == waiting_pairs(record),
    ensures
        spec_room_binding(room_id, fields, ROOM_STATE_ALLOCATING@) == Some(RoomBindingView {
            room_id,
            owner_id: record.signaling_owner_id@,
            owner_host: record.signaling_owner_host@,
            owner_port: record.signaling_owner_port,
            state: ROOM_STATE_ALLOCATING@,
            sfu_instance_id: None,
            sfu_grpc_addr: None,
        }),
{
    let p = pairs_view(fields);
    assert(fields.len() == 4) by {
        assert(p.len() == fields.len());
    }
    reveal_strlit("owner_host");
    reveal_strlit("owner_port");
    reveal_strlit("signaling_owner_id");
    reveal_strlit("room_state");
    reveal_strlit("sfu_instance_id");
    reveal_strlit("sfu_grpc_addr");
    let k = seq![FIELD_OWNER_HOST@, FIELD_OWNER_PORT@, FIELD_SIGNALING_OWNER_ID@, FIELD_ROOM_STATE@];
    assert forall|i: int, j: int| 0 <= i < 4 && 0 <= j < 4 && i != j implies #[trigger] k[i] != #[trigger] k[j] by {
        if k[i].len() == k[j].len() {
            assert(k[i][0] != k[j][0] || k[i][6] != k[j][6]);
        }
    }
    assert forall|i: int| 0 <= i < 4 implies p[i].0 == #[trigger] k[i] by {}
    lemma_lookup_at(p, k[0], 0);
    lemma_lookup_at(p, k[1], 1);
    lemma_lookup_at(p, k[2], 2);
    lemma_lookup_at(p, k[3], 3);
    let sid = crate::control_store::storage::FIELD_SFU_INSTANCE_ID@;
    let saddr = crate::control_store::storage::FIELD_SFU_GRPC_ADDR@;
    assert forall|i: int| 0 <= i < 4 implies p[i].0 != sid && p[i].0 != saddr by {
        assert(p[i].0 == k[i]);
        if k[i].len() == sid.len() {
            assert(k[i][0] != sid[0] || k[i][4] != sid[4]);
        }
        if k[i].len() == saddr.len() {
            assert(k[i][0] != saddr[0] || k[i][4] != saddr[4]);
        }
    }
    lemma_lookup_absent(p, sid);
    lemma_lookup_absent(p, saddr);
    lemma_parse_decimal_roundtrip(record.signaling_owner_port as nat, 65535);
}

} // verus!
