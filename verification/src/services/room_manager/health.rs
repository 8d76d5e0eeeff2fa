//! The room manager's health pass as a state machine: from the stage the pass has
//! reached and the reply to the last outside operation, the next stage and action.
//! Each SFU is probed and its health stored; a provisioning SFU that timed out is
//! deleted and its slot released to the inventory. Then waiting rooms are assigned to
//! the least loaded SFU while one may take them, and idle provisioned SFUs are scaled
//! down. Failures of the later phases are only logged: they end that phase.

use vstd::prelude::*;
use crate::fields::{load_for, load_of};
use crate::select::{is_first_least, least_loaded};
use super::runtime::{
    candidate_of, provisioning_timed_out, should_scale_down, spec_candidate_of, spec_provisioning_timed_out,
    spec_should_scale_down,
};
use super::storage::{
    eligibility, eligible, room_loads, select_least_loaded_instance, SfuCandidate, SfuInstance, WaitingRequestRecord,
    SFU_STATE_PROVISIONING, SFU_STATE_STARTING,
};

verus! {

/// An outside operation of the pass.
#[derive(Debug, PartialEq, Eq)]
pub enum HealthOp {
    /// The SFU records. `Instances`.
    ListInstances,
    /// The room load of each SFU. `Loads`.
    LoadRoomLoads,
    /// Probe an SFU. `Alive`.
    Ping { grpc_addr: String },
    /// Store an SFU's probe result at `now`. `Stored`.
    UpdateHealth { instance_id: String, alive: bool, now: i64 },
    /// Delete an SFU record. `Stored`.
    DeleteInstance { instance_id: String },
    /// Return an SFU's slot to the inventory. `Done`.
    ReleaseSlot { instance_id: String, candidate: SfuCandidate },
    /// Take the oldest waiting room. `Waiting`.
    PopWaiting,
    /// Bind a waiting room to an SFU. `Stored`.
    AssignRoom { request: WaitingRequestRecord, instance: SfuInstance },
}

/// The reply to the last operation; `Start` begins a pass.
#[derive(Debug, PartialEq, Eq)]
pub enum HealthReply {
    Start,
    Done,
    Instances(Result<Vec<SfuInstance>, String>),
    Loads(Result<Vec<(String, u64)>, String>),
    Alive(bool),
    Stored(Result<(), String>),
    Waiting(Result<Option<WaitingRequestRecord>, String>),
}

/// How far the pass has got.
#[derive(Debug, PartialEq, Eq)]
pub enum HealthStage {
    Start,
    Listed,
    /// Waiting for the probe of `list[at]`; `now` is the pass's time.
    Pinged { list: Vec<SfuInstance>, at: usize, now: i64 },
    /// Waiting for the stored health of `list[at]`.
    Updated { list: Vec<SfuInstance>, at: usize, now: i64, alive: bool },
    /// Waiting for the deletion of the timed-out `list[at]`.
    Reclaiming { list: Vec<SfuInstance>, at: usize, now: i64 },
    AssignList,
    AssignLoads { list: Vec<SfuInstance> },
    Popped { instance: SfuInstance },
    Assigning,
    ScaleList,
    ScaleLoads { list: Vec<SfuInstance> },
    /// Waiting for the deletion of the idle `list[at]`.
    ScaleDeleting { list: Vec<SfuInstance>, loads: Vec<(String, u64)>, at: usize, now: i64 },
    Finished(Result<(), String>),
}

/// What the pass does next.
#[derive(Debug, PartialEq, Eq)]
pub enum HealthAction {
    Perform(Vec<HealthOp>),
    Finish(Result<(), String>),
}

pub enum HealthActionView {
    Perform(Seq<HealthOp>),
    Finish(Result<(), String>),
}

pub open spec fn health_action_view(a: HealthAction) -> HealthActionView {
    match a {
        HealthAction::Perform(ops) => HealthActionView::Perform(ops@),
        HealthAction::Finish(r) => HealthActionView::Finish(r),
    }
}

/// The reply kind each stage waits for.
pub open spec fn health_fits(stage: HealthStage, reply: HealthReply) -> bool {
    match stage {
        HealthStage::Start => reply is Start,
        HealthStage::Listed | HealthStage::AssignList | HealthStage::ScaleList => reply is Instances,
        HealthStage::Pinged { list, at, .. } => reply is Alive && at < list.len(),
        HealthStage::Updated { list, at, .. } | HealthStage::Reclaiming { list, at, .. } => reply is Stored && at < list.len(),
        HealthStage::ScaleDeleting { list, at, .. } => reply is Stored && at < list.len(),
        HealthStage::AssignLoads { .. } | HealthStage::ScaleLoads { .. } => reply is Loads,
        HealthStage::Popped { .. } => reply is Waiting,
        HealthStage::Assigning => reply is Stored,
        HealthStage::Finished(_) => reply is Done,
    }
}

pub struct HealthStepView {
    pub stage: HealthStage,
    pub action: HealthActionView,
}

pub open spec fn h_go(ops: Seq<HealthOp>, stage: HealthStage) -> HealthStepView {
    HealthStepView { stage, action: HealthActionView::Perform(ops) }
}

pub open spec fn h_end(result: Result<(), String>) -> HealthStepView {
    HealthStepView { stage: HealthStage::Finished(result), action: HealthActionView::Finish(result) }
}

/// After `prefix`, `list[at]` is probed, or the assignment of waiting rooms begins once
/// all were.
pub open spec fn next_probe(prefix: Seq<HealthOp>, list: Vec<SfuInstance>, at: usize, now: i64) -> HealthStepView {
    if at < list.len() {
        h_go(prefix.push(HealthOp::Ping { grpc_addr: list@[at as int].grpc_addr }), HealthStage::Pinged { list, at, now })
    } else {
        h_go(prefix.push(HealthOp::ListInstances), HealthStage::AssignList)
    }
}

/// From `list[at]` on, the first SFU that scale-down deletes is deleted, or the pass
/// ends when none is left.
pub open spec fn next_scale(prefix: Seq<HealthOp>, list: Vec<SfuInstance>, loads: Vec<(String, u64)>, at: usize, now: i64, idle_secs: int) -> HealthStepView
    decreases list.len() - at,
{
    if at >= list.len() {
        if prefix.len() == 0 { h_end(Ok(())) } else { h_go(prefix, HealthStage::Finished(Ok(()))) }
    } else if spec_should_scale_down(list@[at as int]@, load_of(loads@, list@[at as int].instance_id@), now, idle_secs) {
        h_go(prefix.push(HealthOp::DeleteInstance { instance_id: list@[at as int].instance_id }),
            HealthStage::ScaleDeleting { list, loads, at, now })
    } else {
        next_scale(prefix, list, loads, (at + 1) as usize, now, idle_secs)
    }
}

/// The scale-down phase begins.
pub open spec fn scale_phase() -> HealthStepView {
    h_go(seq![HealthOp::ListInstances], HealthStage::ScaleList)
}

/// One step of the health pass; `now` is the clock at this step, and the timeouts are
/// in whole seconds.
pub open spec fn spec_health_step(stage: HealthStage, reply: HealthReply, now: i64, provisioning_secs: int, idle_secs: int) -> HealthStepView {
    match (stage, reply) {
        (HealthStage::Start, _) => h_go(seq![HealthOp::ListInstances], HealthStage::Listed),
        (HealthStage::Listed, HealthReply::Instances(read)) => match read {
            Err(e) => h_end(Err(e)),
            Ok(list) => next_probe(Seq::empty(), list, 0, now),
        },
        (HealthStage::Pinged { list, at, now: pass_now }, HealthReply::Alive(alive)) => h_go(
            seq![HealthOp::UpdateHealth { instance_id: list@[at as int].instance_id, alive, now: pass_now }],
            HealthStage::Updated { list, at, now: pass_now, alive },
        ),
        (HealthStage::Updated { list, at, now: pass_now, alive }, HealthReply::Stored(done)) =>
            if done is Ok && spec_provisioning_timed_out(list@[at as int]@, alive, pass_now, provisioning_secs) {
                h_go(seq![HealthOp::DeleteInstance { instance_id: list@[at as int].instance_id }],
                    HealthStage::Reclaiming { list, at, now: pass_now })
            } else {
                next_probe(Seq::empty(), list, (at + 1) as usize, pass_now)
            },
        (HealthStage::Reclaiming { list, at, now: pass_now }, HealthReply::Stored(done)) => next_probe(
            if done is Ok {
                seq![HealthOp::ReleaseSlot {
                    instance_id: list@[at as int].instance_id,
                    candidate: spec_candidate_of(list@[at as int]),
                }]
            } else {
                Seq::empty()
            },
            list, (at + 1) as usize, pass_now,
        ),
        (HealthStage::AssignList, HealthReply::Instances(read)) => match read {
            Err(_) => scale_phase(),
            Ok(list) => h_go(seq![HealthOp::LoadRoomLoads], HealthStage::AssignLoads { list }),
        },
        (HealthStage::AssignLoads { list }, HealthReply::Loads(read)) => match read {
            Err(_) => scale_phase(),
            Ok(loads) => match least_loaded(eligibility(list@, loads@, now), room_loads(list@, loads@)) {
                None => scale_phase(),
                Some(i) => h_go(seq![HealthOp::PopWaiting], HealthStage::Popped { instance: list@[i] }),
            },
        },
        (HealthStage::Popped { instance }, HealthReply::Waiting(read)) => match read {
            Ok(Some(request)) => h_go(seq![HealthOp::AssignRoom { request, instance }], HealthStage::Assigning),
            _ => scale_phase(),
        },
        (HealthStage::Assigning, HealthReply::Stored(done)) => match done {
            Ok(()) => h_go(seq![HealthOp::ListInstances], HealthStage::AssignList),
            Err(_) => scale_phase(),
        },
        (HealthStage::ScaleList, HealthReply::Instances(read)) => match read {
            Err(_) => h_end(Ok(())),
            Ok(list) => h_go(seq![HealthOp::LoadRoomLoads], HealthStage::ScaleLoads { list }),
        },
        (HealthStage::ScaleLoads { list }, HealthReply::Loads(read)) => match read {
            Err(_) => h_end(Ok(())),
            Ok(loads) => next_scale(Seq::empty(), list, loads, 0, now, idle_secs),
        },
        (HealthStage::ScaleDeleting { list, loads, at, now: pass_now }, HealthReply::Stored(done)) => match done {
            Err(_) => h_end(Ok(())),
            Ok(()) => next_scale(
                seq![HealthOp::ReleaseSlot {
                    instance_id: list@[at as int].instance_id,
                    candidate: spec_candidate_of(list@[at as int]),
                }],
                list, loads, (at + 1) as usize, pass_now, idle_secs,
            ),
        },
        (HealthStage::Finished(r), _) => h_end(r),
        (stage, _) => HealthStepView { stage, action: HealthActionView::Finish(Ok(())) },
    }
}

/// A waiting request popped after an SFU was chosen is assigned to that SFU by the
/// very next operation; once stored, the assignment loop starts over by reading the
/// SFUs again.
pub proof fn law_popped_request_assigned(instance: SfuInstance, request: WaitingRequestRecord, now: i64, provisioning_secs: int, idle_secs: int)
    ensures
        ({
            let v = spec_health_step(HealthStage::Popped { instance }, HealthReply::Waiting(Ok(Some(request))), now,
                provisioning_secs, idle_secs);
            &&& v.stage == HealthStage::Assigning
            &&& v.action matches HealthActionView::Perform(ops) && ops.len() == 1
                && ops[0] == HealthOp::AssignRoom { request: request, instance: instance }
        }),
        ({
            let v = spec_health_step(HealthStage::Assigning, HealthReply::Stored(Ok(())), now, provisioning_secs, idle_secs);
            v.stage == HealthStage::AssignList && v.action == HealthActionView::Perform(seq![HealthOp::ListInstances])
        }),
{
}

/// When the assignment phase picks an SFU for the next waiting room, it is one of the
/// listed SFUs that may take a room, and no SFU that may take one carries fewer rooms.
pub proof fn law_assignment_picks_least_loaded(list: Vec<SfuInstance>, loads: Vec<(String, u64)>, now: i64, provisioning_secs: int, idle_secs: int)
    ensures
        ({
            let v = spec_health_step(HealthStage::AssignLoads { list }, HealthReply::Loads(Ok(loads)), now, provisioning_secs, idle_secs);
            v.stage matches HealthStage::Popped { instance } ==> exists|i: int| {
                &&& 0 <= i < list.len()
                &&& instance == list@[i]
                &&& eligible(list@[i]@, load_of(loads@, list@[i].instance_id@), now)
                &&& forall|j: int| 0 <= j < list.len() && eligible(list@[j]@, load_of(loads@, list@[j].instance_id@), now)
                    ==> load_of(loads@, list@[i].instance_id@) <= load_of(loads@, list@[j].instance_id@)
            }
        }),
{
    let e = eligibility(list@, loads@, now);
    let l = room_loads(list@, loads@);
    if let Some(i) = least_loaded(e, l) {
        assert(is_first_least(e, l, i));
        assert forall|j: int| 0 <= j < list.len() && eligible(list@[j]@, load_of(loads@, list@[j].instance_id@), now)
            implies load_of(loads@, list@[i].instance_id@) <= load_of(loads@, list@[j].instance_id@) by {
            assert(e[j]);
        }
    }
}

/// After an SFU's health was stored, it is deleted (to be released to the inventory)
/// exactly when it did not answer its probe, is still starting or provisioning, has a
/// start time, and started more than the provisioning timeout before the pass.
pub proof fn law_timed_out_provisioning_reclaimed(list: Vec<SfuInstance>, at: usize, pass_now: i64, alive: bool, now: i64, provisioning_secs: int, idle_secs: int)
    requires
        at < list.len(),
    ensures
        ({
            let v = spec_health_step(HealthStage::Updated { list, at, now: pass_now, alive }, HealthReply::Stored(Ok(())), now,
                provisioning_secs, idle_secs);
            let inst = list@[at as int];
            let timed_out = !alive && (inst.state@ == SFU_STATE_STARTING@ || inst.state@ == SFU_STATE_PROVISIONING@)
                && inst.idle_since_unix > 0 && pass_now - inst.idle_since_unix > provisioning_secs;
            &&& timed_out ==> v.action == HealthActionView::Perform(seq![HealthOp::DeleteInstance { instance_id: inst.instance_id }])
            &&& !timed_out ==> !(v.stage is Reclaiming)
        }),
{
}

/// `inst`, carrying `load` rooms, is one that scale-down returns to the inventory at
/// `now`: no rooms, provisioned by the room manager, with an idle start, idle for at
/// least `idle_secs`.
pub open spec fn idle_provisioned(inst: SfuInstance, load: u64, now: i64, idle_secs: int) -> bool {
    load == 0 && inst.provisioned && inst.idle_since_unix > 0 && now - inst.idle_since_unix >= idle_secs
}

proof fn lemma_next_scale(prefix: Seq<HealthOp>, list: Vec<SfuInstance>, loads: Vec<(String, u64)>, at: usize, now: i64, idle_secs: int)
    requires
        at <= list.len(),
    ensures
        ({
            let v = next_scale(prefix, list, loads, at, now, idle_secs);
            match v.stage {
                HealthStage::ScaleDeleting { list: l, loads: ld, at: k, now: n } => {
                    &&& l == list && ld == loads && n == now && at <= k < list.len()
                    &&& idle_provisioned(list@[k as int], load_of(loads@, list@[k as int].instance_id@), now, idle_secs)
                    &&& forall|j: int| at <= j < k ==> !idle_provisioned(list@[j], load_of(loads@, list@[j].instance_id@), now, idle_secs)
                    &&& v.action == HealthActionView::Perform(prefix.push(HealthOp::DeleteInstance { instance_id: list@[k as int].instance_id }))
                },
                HealthStage::Finished(r) => {
                    &&& r == Ok::<(), String>(())
                    &&& forall|j: int| at <= j < list.len() ==> !idle_provisioned(list@[j], load_of(loads@, list@[j].instance_id@), now, idle_secs)
                    &&& v.action == (if prefix.len() == 0 { HealthActionView::Finish(Ok(())) } else { HealthActionView::Perform(prefix) })
                },
                _ => false,
            }
        }),
    decreases list.len() - at,
{
    if at < list.len() {
        if !spec_should_scale_down(list@[at as int]@, load_of(loads@, list@[at as int].instance_id@), now, idle_secs) {
            lemma_next_scale(prefix, list, loads, (at + 1) as usize, now, idle_secs);
        }
    }
}

/// Scale-down deletes the first listed SFU that is idle and provisioned (no rooms, idle
/// for the idle timeout), skipping none such before it; when there is none, the pass
/// ends successfully. A deleted SFU is then released to the inventory as a candidate
/// with its id, address and capacity.
pub proof fn law_scale_down_first_idle(list: Vec<SfuInstance>, loads: Vec<(String, u64)>, now: i64, provisioning_secs: int, idle_secs: int)
    ensures
        ({
            let v = spec_health_step(HealthStage::ScaleLoads { list }, HealthReply::Loads(Ok(loads)), now, provisioning_secs, idle_secs);
            match v.stage {
                HealthStage::ScaleDeleting { at, .. } => {
                    &&& at < list.len()
                    &&& idle_provisioned(list@[at as int], load_of(loads@, list@[at as int].instance_id@), now, idle_secs)
                    &&& forall|j: int| 0 <= j < at ==> !idle_provisioned(list@[j], load_of(loads@, list@[j].instance_id@), now, idle_secs)
                    &&& v.action == HealthActionView::Perform(seq![HealthOp::DeleteInstance { instance_id: list@[at as int].instance_id }])
                },
                HealthStage::Finished(r) => r is Ok && v.action == HealthActionView::Finish(Ok(()))
                    && forall|j: int| 0 <= j < list.len() ==> !idle_provisioned(list@[j], load_of(loads@, list@[j].instance_id@), now, idle_secs),
                _ => false,
            }
        }),
{
    lemma_next_scale(Seq::empty(), list, loads, 0, now, idle_secs);
    assert(Seq::<HealthOp>::empty().push(HealthOp::DeleteInstance { instance_id: list@[0].instance_id })
        =~= seq![HealthOp::DeleteInstance { instance_id: list@[0].instance_id }]);
    let v = spec_health_step(HealthStage::ScaleLoads { list }, HealthReply::Loads(Ok(loads)), now, provisioning_secs, idle_secs);
    if let HealthStage::ScaleDeleting { at, .. } = v.stage {
        assert(Seq::<HealthOp>::empty().push(HealthOp::DeleteInstance { instance_id: list@[at as int].instance_id })
            =~= seq![HealthOp::DeleteInstance { instance_id: list@[at as int].instance_id }]);
    }
}

/// A deleted idle SFU is released to the inventory under its own id, as a candidate with
/// its address and capacity; a reclaimed provisioning SFU likewise; and each probe's
/// result is stored for the probed SFU at the pass's time.
pub proof fn law_release_and_health_records(list: Vec<SfuInstance>, loads: Vec<(String, u64)>, at: usize, pass_now: i64,
    alive: bool, now: i64, provisioning_secs: int, idle_secs: int)
    requires
        at < list.len(),
    ensures
        ({
            let inst = list@[at as int];
            let v = spec_health_step(HealthStage::ScaleDeleting { list, loads, at, now: pass_now }, HealthReply::Stored(Ok(())),
                now, provisioning_secs, idle_secs);
            v.action matches HealthActionView::Perform(ops) && ops.len() > 0 && ops[0] == HealthOp::ReleaseSlot {
                instance_id: inst.instance_id,
                candidate: SfuCandidate { instance_id: inst.instance_id, grpc_addr: inst.grpc_addr, max_rooms: inst.max_rooms },
            }
        }),
        ({
            let inst = list@[at as int];
            let v = spec_health_step(HealthStage::Reclaiming { list, at, now: pass_now }, HealthReply::Stored(Ok(())),
                now, provisioning_secs, idle_secs);
            v.action matches HealthActionView::Perform(ops) && ops.len() > 0 && ops[0] == HealthOp::ReleaseSlot {
                instance_id: inst.instance_id,
                candidate: SfuCandidate { instance_id: inst.instance_id, grpc_addr: inst.grpc_addr, max_rooms: inst.max_rooms },
            }
        }),
        spec_health_step(HealthStage::Pinged { list, at, now: pass_now }, HealthReply::Alive(alive), now, provisioning_secs, idle_secs).action
            == HealthActionView::Perform(seq![HealthOp::UpdateHealth { instance_id: list@[at as int].instance_id, alive, now: pass_now }]),
{
    let inst = list@[at as int];
    let rel = HealthOp::ReleaseSlot { instance_id: inst.instance_id, candidate: spec_candidate_of(inst) };
    lemma_next_scale(seq![rel], list, loads, (at + 1) as usize, pass_now, idle_secs);
    let v = spec_health_step(HealthStage::ScaleDeleting { list, loads, at, now: pass_now }, HealthReply::Stored(Ok(())),
        now, provisioning_secs, idle_secs);
    if let HealthStage::ScaleDeleting { at: k, .. } = v.stage {
        assert(seq![rel].push(HealthOp::DeleteInstance { instance_id: list@[k as int].instance_id })[0] == rel);
    }
    assert(spec_candidate_of(inst) == SfuCandidate { instance_id: inst.instance_id, grpc_addr: inst.grpc_addr, max_rooms: inst.max_rooms });
}

fn hop1(a: HealthOp) -> (r: Vec<HealthOp>)
    ensures
        r@ == seq![a],
{
    let mut v: Vec<HealthOp> = Vec::new();
    v.push(a);
    v
}

fn h_finish(result: Result<(), String>) -> (r: (HealthStage, HealthAction))
    ensures
        r.0 == h_end(result).stage,
        health_action_view(r.1) == h_end(result).action,
{
    match result {
        Ok(u) => (HealthStage::Finished(Ok(u)), HealthAction::Finish(Ok(u))),
        Err(e) => (HealthStage::Finished(Err(e.clone())), HealthAction::Finish(Err(e))),
    }
}

fn go_probe(prefix: Vec<HealthOp>, list: Vec<SfuInstance>, at: usize, now: i64) -> (r: (HealthStage, HealthAction))
    ensures
        r.0 == next_probe(prefix@, list, at, now).stage,
        health_action_view(r.1) == next_probe(prefix@, list, at, now).action,
{
    let mut ops = prefix;
    if at < list.len() {
        ops.push(HealthOp::Ping { grpc_addr: list[at].grpc_addr.clone() });
        (HealthStage::Pinged { list, at, now }, HealthAction::Perform(ops))
    } else {
        ops.push(HealthOp::ListInstances);
        (HealthStage::AssignList, HealthAction::Perform(ops))
    }
}

fn go_scale(prefix: Vec<HealthOp>, list: Vec<SfuInstance>, loads: Vec<(String, u64)>, at: usize, now: i64, idle_timeout_ms: u64) -> (r: (HealthStage, HealthAction))
    ensures
        r.0 == next_scale(prefix@, list, loads, at, now, (idle_timeout_ms / 1000) as int).stage,
        health_action_view(r.1) == next_scale(prefix@, list, loads, at, now, (idle_timeout_ms / 1000) as int).action,
    decreases list.len() - at,
{
    if at >= list.len() {
        if prefix.len() == 0 {
            (HealthStage::Finished(Ok(())), HealthAction::Finish(Ok(())))
        } else {
            (HealthStage::Finished(Ok(())), HealthAction::Perform(prefix))
        }
    } else {
        let load = load_for(&loads, list[at].instance_id.as_str());
        if should_scale_down(&list[at], load, now, idle_timeout_ms) {
            let mut ops = prefix;
            ops.push(HealthOp::DeleteInstance { instance_id: list[at].instance_id.clone() });
            (HealthStage::ScaleDeleting { list, loads, at, now }, HealthAction::Perform(ops))
        } else {
            go_scale(prefix, list, loads, at + 1, now, idle_timeout_ms)
        }
    }
}

fn scale_start() -> (r: (HealthStage, HealthAction))
    ensures
        r.0 == scale_phase().stage,
        health_action_view(r.1) == scale_phase().action,
{
    (HealthStage::ScaleList, HealthAction::Perform(hop1(HealthOp::ListInstances)))
}

/// One step of the room manager's health pass, at the clock's `now`, with the
/// provisioning and idle timeouts in milliseconds (whole seconds count): exactly
/// `spec_health_step`.
pub fn health_step(
    stage: HealthStage,
    reply: HealthReply,
    now: i64,
    provisioning_timeout_ms: u64,
    idle_timeout_ms: u64,
) -> (r: (HealthStage, HealthAction))
    requires
        health_fits(stage, reply),
    ensures
        r.0 == spec_health_step(stage, reply, now, (provisioning_timeout_ms / 1000) as int, (idle_timeout_ms / 1000) as int).stage,
        health_action_view(r.1) == spec_health_step(stage, reply, now, (provisioning_timeout_ms / 1000) as int,
            (idle_timeout_ms / 1000) as int).action,
{
    match (stage, reply) {
        (HealthStage::Start, _) => (HealthStage::Listed, HealthAction::Perform(hop1(HealthOp::ListInstances))),
        (HealthStage::Listed, HealthReply::Instances(read)) => match read {
            Err(e) => h_finish(Err(e)),
            Ok(list) => go_probe(Vec::new(), list, 0, now),
        },
        (HealthStage::Pinged { list, at, now: pass_now }, HealthReply::Alive(alive)) => {
            let op = HealthOp::UpdateHealth { instance_id: list[at].instance_id.clone(), alive, now: pass_now };
            (HealthStage::Updated { list, at, now: pass_now, alive }, HealthAction::Perform(hop1(op)))
        },
        (HealthStage::Updated { list, at, now: pass_now, alive }, HealthReply::Stored(done)) => {
            if done.is_ok() && provisioning_timed_out(&list[at], alive, pass_now, provisioning_timeout_ms) {
                let op = HealthOp::DeleteInstance { instance_id: list[at].instance_id.clone() };
                (HealthStage::Reclaiming { list, at, now: pass_now }, HealthAction::Perform(hop1(op)))
            } else {
                go_probe(Vec::new(), list, at + 1, pass_now)
            }
        },
        (HealthStage::Reclaiming { list, at, now: pass_now }, HealthReply::Stored(done)) => {
            let prefix = if done.is_ok() {
                let inst = list[at].clone_record();
                let instance_id = inst.instance_id.clone();
                hop1(HealthOp::ReleaseSlot { instance_id, candidate: candidate_of(inst) })
            } else {
                Vec::new()
            };
            go_probe(prefix, list, at + 1, pass_now)
        },
        (HealthStage::AssignList, HealthReply::Instances(read)) => match read {
            Err(_) => scale_start(),
            Ok(list) => (HealthStage::AssignLoads { list }, HealthAction::Perform(hop1(HealthOp::LoadRoomLoads))),
        },
        (HealthStage::AssignLoads { list }, HealthReply::Loads(read)) => match read {
            Err(_) => scale_start(),
            Ok(loads) => match select_least_loaded_instance(list, &loads, now) {
                None => scale_start(),
                Some(instance) => (HealthStage::Popped { instance }, HealthAction::Perform(hop1(HealthOp::PopWaiting))),
            },
        },
        (HealthStage::Popped { instance }, HealthReply::Waiting(read)) => match read {
            Ok(Some(request)) => (HealthStage::Assigning, HealthAction::Perform(hop1(HealthOp::AssignRoom { request, instance }))),
            _ => scale_start(),
        },
        (HealthStage::Assigning, HealthReply::Stored(done)) => match done {
            Ok(()) => (HealthStage::AssignList, HealthAction::Perform(hop1(HealthOp::ListInstances))),
            Err(_) => scale_start(),
        },
        (HealthStage::ScaleList, HealthReply::Instances(read)) => match read {
            Err(_) => h_finish(Ok(())),
            Ok(list) => (HealthStage::ScaleLoads { list }, HealthAction::Perform(hop1(HealthOp::LoadRoomLoads))),
        },
        (HealthStage::ScaleLoads { list }, HealthReply::Loads(read)) => match read {
            Err(_) => h_finish(Ok(())),
            Ok(loads) => go_scale(Vec::new(), list, loads, 0, now, idle_timeout_ms),
        },
        (HealthStage::ScaleDeleting { list, loads, at, now: pass_now }, HealthReply::Stored(done)) => match done {
            Err(_) => h_finish(Ok(())),
            Ok(()) => {
                let inst = list[at].clone_record();
                let instance_id = inst.instance_id.clone();
                let prefix = hop1(HealthOp::ReleaseSlot { instance_id, candidate: candidate_of(inst) });
                go_scale(prefix, list, loads, at + 1, pass_now, idle_timeout_ms)
            },
        },
        (HealthStage::Finished(r), _) => h_finish(r),
        (stage, _) => (stage, HealthAction::Finish(Ok(()))),
    }
}

} // verus!
