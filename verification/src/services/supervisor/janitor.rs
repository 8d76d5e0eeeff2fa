//! One janitor pass, and the sweep after an SFU is found dead, as state machines: from the stage the pass has reached and the
//! reply to the last store operation, the next stage and action. The pass reclaims
//! rooms of dead signaling nodes, deletes orphan member sets, stale load entries and
//! sessions of dead nodes, and compacts old heartbeats. Reads that fail end the pass;
//! deletions only log their failures, so their reply is `Done`.

use vstd::prelude::*;
use crate::control_store::models::RoomBinding;
use crate::text::strings_view;
use super::config::SignalingAdminInstance;
use super::probes::{
    absent_from, close_address, dead_sfu_room_plan, contains_name, heartbeat_cutoff, janitor_reclaim, names_contain, orphan_room_ids, reclaimable,
    stale_load_members,
};

verus! {

/// A store operation of the pass.
#[derive(Debug, PartialEq, Eq)]
pub enum JanitorOp {
    /// The signaling nodes seen recently. `Names`.
    AliveNodes,
    /// The ids of all room bindings. `Names`.
    ScanBindings,
    /// One room's binding. `Binding`.
    GetBinding { room_id: String },
    /// One room fewer on an SFU. `Done`.
    DecrementSfuLoad { sfu_instance_id: String },
    /// Delete a room's binding. `Done`.
    DeleteBinding { room_id: String },
    /// Delete a room's member set. `Done`.
    DeleteMembers { room_id: String },
    /// The rooms that have member sets. `Names`.
    ScanMemberRooms,
    /// The nodes with a load entry. `Names`.
    LoadMembers,
    /// Remove a node's load entry. `Done`.
    RemoveLoad { node_id: String },
    /// The ids of all sessions. `Names`.
    ScanSessions,
    /// A session's owning node. `Owner`.
    GetOwner { session_id: String },
    /// Delete a session. `Done`.
    DeleteSession { session_id: String },
    /// Remove heartbeats scored below `below`. `Done`.
    CompactHeartbeats { below: i64 },
    /// Ask the signaling node at `admin_addr` to close its rooms on the SFU at
    /// `sfu_grpc_addr` for the reason `sfu_down` (a failure is only logged). `Done`.
    CloseRoomsOnSfu { admin_addr: String, sfu_grpc_addr: String },
}

/// The reply to the last operation; `Start` begins a pass.
#[derive(Debug, PartialEq, Eq)]
pub enum JanitorReply {
    Start,
    Done,
    Names(Result<Vec<String>, String>),
    Binding(Result<Option<RoomBinding>, String>),
    Owner(Result<Option<String>, String>),
}

/// How far the pass has got, with what later steps need.
#[derive(Debug, PartialEq, Eq)]
pub enum JanitorStage {
    Start,
    Alive,
    Bindings { alive: Vec<String> },
    /// Waiting for the binding of `ids[at]`.
    Binding { alive: Vec<String>, ids: Vec<String>, at: usize },
    MemberRooms { alive: Vec<String>, ids: Vec<String> },
    Loads { alive: Vec<String> },
    Sessions { alive: Vec<String> },
    /// Waiting for the owner of `sessions[at]`.
    Owner { alive: Vec<String>, sessions: Vec<String>, at: usize },
    Compact,
    Finished(Result<(), String>),
}

/// What the pass does next.
#[derive(Debug, PartialEq, Eq)]
pub enum JanitorAction {
    Perform(Vec<JanitorOp>),
    Finish(Result<(), String>),
}

pub enum JanitorActionView {
    Perform(Seq<JanitorOp>),
    Finish(Result<(), String>),
}

pub open spec fn janitor_action_view(a: JanitorAction) -> JanitorActionView {
    match a {
        JanitorAction::Perform(ops) => JanitorActionView::Perform(ops@),
        JanitorAction::Finish(r) => JanitorActionView::Finish(r),
    }
}

/// The reply kind each stage waits for.
pub open spec fn janitor_fits(stage: JanitorStage, reply: JanitorReply) -> bool {
    match stage {
        JanitorStage::Start => reply is Start,
        JanitorStage::Binding { ids, at, .. } => reply is Binding && at < ids.len(),
        JanitorStage::Owner { sessions, at, .. } => reply is Owner && at < sessions.len(),
        JanitorStage::Compact | JanitorStage::Finished(_) => reply is Done,
        _ => reply is Names,
    }
}

/// The stage and action after a step.
pub struct JanitorStepView {
    pub stage: JanitorStage,
    pub action: JanitorActionView,
}

pub open spec fn j_go(ops: Seq<JanitorOp>, stage: JanitorStage) -> JanitorStepView {
    JanitorStepView { stage, action: JanitorActionView::Perform(ops) }
}

pub open spec fn j_end(result: Result<(), String>) -> JanitorStepView {
    JanitorStepView { stage: JanitorStage::Finished(result), action: JanitorActionView::Finish(result) }
}

/// What reclaiming the room `room_id` with binding `b` takes: one room fewer on its
/// SFU (when it names one), then deleting its binding and member set; nothing when the
/// binding is missing or its owner is unset or alive.
pub open spec fn reclaim_ops(room_id: String, b: Option<RoomBinding>, alive: Seq<String>) -> Seq<JanitorOp> {
    match b {
        Some(binding) => if reclaimable(binding.owner_id@, strings_view(alive)) {
            let dec = match binding.sfu_instance_id {
                Some(sfu) => seq![JanitorOp::DecrementSfuLoad { sfu_instance_id: sfu }],
                None => Seq::empty(),
            };
            dec + seq![JanitorOp::DeleteBinding { room_id }, JanitorOp::DeleteMembers { room_id }]
        } else {
            Seq::empty()
        },
        None => Seq::empty(),
    }
}

/// After `prefix`, the binding of `ids[at]` is read, or the member sets are scanned
/// once all were.
pub open spec fn next_binding(prefix: Seq<JanitorOp>, alive: Vec<String>, ids: Vec<String>, at: usize) -> JanitorStepView {
    if at < ids.len() {
        j_go(prefix.push(JanitorOp::GetBinding { room_id: ids@[at as int] }), JanitorStage::Binding { alive, ids, at })
    } else {
        j_go(prefix.push(JanitorOp::ScanMemberRooms), JanitorStage::MemberRooms { alive, ids })
    }
}

/// After `prefix`, the owner of `sessions[at]` is read, or old heartbeats are
/// compacted once all were.
pub open spec fn next_owner(prefix: Seq<JanitorOp>, alive: Vec<String>, sessions: Vec<String>, at: usize, cutoff: i64) -> JanitorStepView {
    if at < sessions.len() {
        j_go(prefix.push(JanitorOp::GetOwner { session_id: sessions@[at as int] }), JanitorStage::Owner { alive, sessions, at })
    } else {
        j_go(prefix.push(JanitorOp::CompactHeartbeats { below: cutoff }), JanitorStage::Compact)
    }
}

/// One step of a janitor pass that compacts heartbeats below `cutoff` at its end.
pub open spec fn spec_janitor_step(stage: JanitorStage, reply: JanitorReply, cutoff: i64) -> JanitorStepView {
    match (stage, reply) {
        (JanitorStage::Start, _) => j_go(seq![JanitorOp::AliveNodes], JanitorStage::Alive),
        (JanitorStage::Alive, JanitorReply::Names(read)) => match read {
            Err(e) => j_end(Err(e)),
            Ok(alive) => j_go(seq![JanitorOp::ScanBindings], JanitorStage::Bindings { alive }),
        },
        (JanitorStage::Bindings { alive }, JanitorReply::Names(read)) => match read {
            Err(e) => j_end(Err(e)),
            Ok(ids) => next_binding(Seq::empty(), alive, ids, 0),
        },
        (JanitorStage::Binding { alive, ids, at }, JanitorReply::Binding(read)) => match read {
            Err(e) => j_end(Err(e)),
            Ok(b) => next_binding(reclaim_ops(ids@[at as int], b, alive@), alive, ids, (at + 1) as usize),
        },
        (JanitorStage::MemberRooms { alive, ids }, JanitorReply::Names(read)) => match read {
            Err(e) => j_end(Err(e)),
            Ok(rooms) => j_go(
                absent_from(rooms@, ids@).map_values(|id: String| JanitorOp::DeleteMembers { room_id: id })
                    .push(JanitorOp::LoadMembers),
                JanitorStage::Loads { alive },
            ),
        },
        (JanitorStage::Loads { alive }, JanitorReply::Names(read)) => match read {
            Err(e) => j_end(Err(e)),
            Ok(nodes) => j_go(
                absent_from(nodes@, alive@).map_values(|id: String| JanitorOp::RemoveLoad { node_id: id })
                    .push(JanitorOp::ScanSessions),
                JanitorStage::Sessions { alive },
            ),
        },
        (JanitorStage::Sessions { alive }, JanitorReply::Names(read)) => match read {
            Err(e) => j_end(Err(e)),
            Ok(sessions) => next_owner(Seq::empty(), alive, sessions, 0, cutoff),
        },
        (JanitorStage::Owner { alive, sessions, at }, JanitorReply::Owner(read)) => match read {
            Err(e) => j_end(Err(e)),
            Ok(owner) => next_owner(
                if owner matches Some(o) && !names_contain(strings_view(alive@), o@) {
                    seq![JanitorOp::DeleteSession { session_id: sessions@[at as int] }]
                } else {
                    Seq::empty()
                },
                alive, sessions, (at + 1) as usize, cutoff,
            ),
        },
        (JanitorStage::Compact, _) => j_end(Ok(())),
        (JanitorStage::Finished(r), _) => j_end(r),
        (stage, _) => JanitorStepView { stage, action: JanitorActionView::Finish(Ok(())) },
    }
}

fn j_finish(result: Result<(), String>) -> (r: (JanitorStage, JanitorAction))
    ensures
        r.0 == j_end(result).stage,
        janitor_action_view(r.1) == j_end(result).action,
{
    match result {
        Ok(u) => (JanitorStage::Finished(Ok(u)), JanitorAction::Finish(Ok(u))),
        Err(e) => (JanitorStage::Finished(Err(e.clone())), JanitorAction::Finish(Err(e))),
    }
}

/// After the owner of `sessions[at]` is read, the janitor deletes that session exactly
/// when the owner is set and is none of the alive signaling nodes, and it deletes no
/// other session.
pub proof fn law_janitor_deletes_sessions_of_dead_owners(
    alive: Vec<String>,
    sessions: Vec<String>,
    at: usize,
    owner: Option<String>,
    cutoff: i64,
)
    requires
        at < sessions.len(),
    ensures
        ({
            let v = spec_janitor_step(JanitorStage::Owner { alive, sessions, at }, JanitorReply::Owner(Ok(owner)), cutoff);
            let dead_owner = owner matches Some(o) && forall|k: int| 0 <= k < alive.len() ==> alive@[k]@ != o@;
            v.action matches JanitorActionView::Perform(ops) && {
                &&& (exists|i: int| 0 <= i < ops.len() && ops[i] == JanitorOp::DeleteSession { session_id: sessions@[at as int] })
                    <==> dead_owner
                &&& forall|i: int| 0 <= i < ops.len() && ops[i] is DeleteSession
                    ==> ops[i] == JanitorOp::DeleteSession { session_id: sessions@[at as int] }
            }
        }),
{
    let v = spec_janitor_step(JanitorStage::Owner { alive, sessions, at }, JanitorReply::Owner(Ok(owner)), cutoff);
    let dead_owner = owner matches Some(o) && forall|k: int| 0 <= k < alive.len() ==> alive@[k]@ != o@;
    let stale = owner matches Some(o) && !names_contain(strings_view(alive@), o@);
    assert(stale == dead_owner) by {
        if owner is Some {
            let o = owner->0;
            if names_contain(strings_view(alive@), o@) {
                let k = choose|k: int| 0 <= k < strings_view(alive@).len() && strings_view(alive@)[k] == o@;
                assert(alive@[k]@ == o@);
            }
            if !(forall|k: int| 0 <= k < alive.len() ==> alive@[k]@ != o@) {
                let k = choose|k: int| !(0 <= k < alive.len() ==> alive@[k]@ != o@);
                assert(strings_view(alive@)[k] == o@);
            }
        }
    }
    let del = JanitorOp::DeleteSession { session_id: sessions@[at as int] };
    if stale {
        assert(v.action matches JanitorActionView::Perform(ops) && ops[0] == del);
    }
}

/// After the binding of `ids[at]` is read, the janitor reclaims that room (deleting its
/// binding and member set) exactly when the binding exists and names an owner that is
/// none of the alive signaling nodes, and it touches no other room.
pub proof fn law_janitor_reclaims_rooms_of_dead_owners(
    alive: Vec<String>,
    ids: Vec<String>,
    at: usize,
    binding: Option<RoomBinding>,
    cutoff: i64,
)
    requires
        at < ids.len(),
    ensures
        ({
            let v = spec_janitor_step(JanitorStage::Binding { alive, ids, at }, JanitorReply::Binding(Ok(binding)), cutoff);
            let dead_owner = binding matches Some(b) && b.owner_id@.len() > 0
                && forall|k: int| 0 <= k < alive.len() ==> alive@[k]@ != b.owner_id@;
            v.action matches JanitorActionView::Perform(ops) && {
                &&& (exists|i: int| 0 <= i < ops.len() && ops[i] == JanitorOp::DeleteBinding { room_id: ids@[at as int] })
                    <==> dead_owner
                &&& (exists|i: int| 0 <= i < ops.len() && ops[i] == JanitorOp::DeleteMembers { room_id: ids@[at as int] })
                    <==> dead_owner
                &&& forall|i: int| 0 <= i < ops.len() && (ops[i] is DeleteBinding || ops[i] is DeleteMembers)
                    ==> (ops[i] == JanitorOp::DeleteBinding { room_id: ids@[at as int] }
                        || ops[i] == JanitorOp::DeleteMembers { room_id: ids@[at as int] })
            }
        }),
{
    let v = spec_janitor_step(JanitorStage::Binding { alive, ids, at }, JanitorReply::Binding(Ok(binding)), cutoff);
    let dead_owner = binding matches Some(b) && b.owner_id@.len() > 0
        && forall|k: int| 0 <= k < alive.len() ==> alive@[k]@ != b.owner_id@;
    if binding is Some {
        let b = binding->0;
        let o = b.owner_id;
        assert(reclaimable(o@, strings_view(alive@)) == dead_owner) by {
            if names_contain(strings_view(alive@), o@) {
                let k = choose|k: int| 0 <= k < strings_view(alive@).len() && strings_view(alive@)[k] == o@;
                assert(alive@[k]@ == o@);
            }
            if !(forall|k: int| 0 <= k < alive.len() ==> alive@[k]@ != o@) {
                let k = choose|k: int| !(0 <= k < alive.len() ==> alive@[k]@ != o@);
                assert(strings_view(alive@)[k] == o@);
            }
        }
        let rec = reclaim_ops(ids@[at as int], binding, alive@);
        if dead_owner {
            let n = rec.len();
            assert(rec[n - 2] == JanitorOp::DeleteBinding { room_id: ids@[at as int] });
            assert(rec[n - 1] == JanitorOp::DeleteMembers { room_id: ids@[at as int] });
            assert(v.action matches JanitorActionView::Perform(ops) && ops[n - 2] == rec[n - 2] && ops[n - 1] == rec[n - 1]);
        }
    }
}

proof fn lemma_absent_from_contains(c: Seq<String>, ex: Seq<String>, x: String)
    ensures
        absent_from(c, ex).contains(x) <==> (c.contains(x) && forall|k: int| 0 <= k < ex.len() ==> ex[k]@ != x@),
    decreases c.len(),
{
    let gone = forall|k: int| 0 <= k < ex.len() ==> ex[k]@ != x@;
    assert(names_contain(strings_view(ex), x@) <==> !gone) by {
        if names_contain(strings_view(ex), x@) {
            let k = choose|k: int| 0 <= k < strings_view(ex).len() && strings_view(ex)[k] == x@;
            assert(ex[k]@ == x@);
        }
        if !gone {
            let k = choose|k: int| !(0 <= k < ex.len() ==> ex[k]@ != x@);
            assert(strings_view(ex)[k] == x@);
        }
    }
    if c.len() > 0 {
        let init = c.drop_last();
        lemma_absent_from_contains(init, ex, x);
        let rest = absent_from(init, ex);
        if c.contains(x) && !init.contains(x) {
            assert(c.last() == x) by {
                let i = choose|i: int| 0 <= i < c.len() && c[i] == x;
                if i < c.len() - 1 {
                    assert(init[i] == x);
                }
            }
        }
        if init.contains(x) {
            let i = choose|i: int| 0 <= i < init.len() && init[i] == x;
            assert(c[i] == x);
        }
        if !names_contain(strings_view(ex), c.last()@) {
            let w = rest.push(c.last());
            if rest.contains(x) {
                let i = choose|i: int| 0 <= i < rest.len() && rest[i] == x;
                assert(w[i] == x);
            }
            if w.contains(x) {
                let i = choose|i: int| 0 <= i < w.len() && w[i] == x;
                if i < rest.len() {
                    assert(rest[i] == x);
                }
            }
            assert(w.contains(c.last())) by {
                assert(w[w.len() - 1] == c.last());
            }
        } else {
            if x == c.last() {
                assert(!gone);
            }
        }
    }
}

/// After the member sets are listed, the janitor deletes the member set of exactly the
/// listed rooms that have no binding, and then reads the load entries.
pub proof fn law_janitor_deletes_orphan_member_sets(alive: Vec<String>, ids: Vec<String>, rooms: Vec<String>, cutoff: i64)
    ensures
        ({
            let v = spec_janitor_step(JanitorStage::MemberRooms { alive, ids }, JanitorReply::Names(Ok(rooms)), cutoff);
            v.action matches JanitorActionView::Perform(ops) && {
                &&& ops.len() > 0 && ops.last() == JanitorOp::LoadMembers
                &&& forall|r: String| (#[trigger] ops.contains(JanitorOp::DeleteMembers { room_id: r }))
                    <==> (rooms@.contains(r) && forall|k: int| 0 <= k < ids.len() ==> ids@[k]@ != r@)
            }
        }),
{
    let f = |id: String| JanitorOp::DeleteMembers { room_id: id };
    let orphans = absent_from(rooms@, ids@);
    let ops = orphans.map_values(f).push(JanitorOp::LoadMembers);
    assert forall|r: String| (#[trigger] ops.contains(JanitorOp::DeleteMembers { room_id: r }))
        <==> (rooms@.contains(r) && forall|k: int| 0 <= k < ids.len() ==> ids@[k]@ != r@) by {
        lemma_absent_from_contains(rooms@, ids@, r);
        if ops.contains(JanitorOp::DeleteMembers { room_id: r }) {
            let i = choose|i: int| 0 <= i < ops.len() && ops[i] == JanitorOp::DeleteMembers { room_id: r };
            assert(i < orphans.len());
            assert(orphans[i] == r);
        }
        if orphans.contains(r) {
            let i = choose|i: int| 0 <= i < orphans.len() && orphans[i] == r;
            assert(ops[i] == JanitorOp::DeleteMembers { room_id: r });
        }
    }
}

/// After the load entries are listed, the janitor removes exactly the entries of nodes
/// that are not alive, and then lists the sessions.
pub proof fn law_janitor_removes_stale_loads(alive: Vec<String>, nodes: Vec<String>, cutoff: i64)
    ensures
        ({
            let v = spec_janitor_step(JanitorStage::Loads { alive }, JanitorReply::Names(Ok(nodes)), cutoff);
            v.action matches JanitorActionView::Perform(ops) && {
                &&& ops.len() > 0 && ops.last() == JanitorOp::ScanSessions
                &&& forall|n: String| (#[trigger] ops.contains(JanitorOp::RemoveLoad { node_id: n }))
                    <==> (nodes@.contains(n) && forall|k: int| 0 <= k < alive.len() ==> alive@[k]@ != n@)
            }
        }),
{
    let f = |id: String| JanitorOp::RemoveLoad { node_id: id };
    let stale = absent_from(nodes@, alive@);
    let ops = stale.map_values(f).push(JanitorOp::ScanSessions);
    assert forall|n: String| (#[trigger] ops.contains(JanitorOp::RemoveLoad { node_id: n }))
        <==> (nodes@.contains(n) && forall|k: int| 0 <= k < alive.len() ==> alive@[k]@ != n@) by {
        lemma_absent_from_contains(nodes@, alive@, n);
        if ops.contains(JanitorOp::RemoveLoad { node_id: n }) {
            let i = choose|i: int| 0 <= i < ops.len() && ops[i] == JanitorOp::RemoveLoad { node_id: n };
            assert(i < stale.len());
            assert(stale[i] == n);
        }
        if stale.contains(n) {
            let i = choose|i: int| 0 <= i < stale.len() && stale[i] == n;
            assert(ops[i] == JanitorOp::RemoveLoad { node_id: n });
        }
    }
}

/// When the last session was looked at, the pass compacts the heartbeats below its
/// cutoff and then ends successfully.
pub proof fn law_janitor_compacts_then_ends(alive: Vec<String>, sessions: Vec<String>, cutoff: i64)
    ensures
        ({
            let v = spec_janitor_step(JanitorStage::Sessions { alive }, JanitorReply::Names(Ok(sessions)), cutoff);
            sessions.len() == 0 ==> v.action == JanitorActionView::Perform(seq![JanitorOp::CompactHeartbeats { below: cutoff }])
        }),
        spec_janitor_step(JanitorStage::Compact, JanitorReply::Done, cutoff).action == JanitorActionView::Finish(Ok(())),
{
    assert(Seq::<JanitorOp>::empty().push(JanitorOp::CompactHeartbeats { below: cutoff })
        =~= seq![JanitorOp::CompactHeartbeats { below: cutoff }]);
}

fn jop1(a: JanitorOp) -> (r: Vec<JanitorOp>)
    ensures
        r@ == seq![a],
{
    let mut v: Vec<JanitorOp> = Vec::new();
    v.push(a);
    v
}

fn reclaim(room_id: &String, b: Option<RoomBinding>, alive: &Vec<String>) -> (r: Vec<JanitorOp>)
    ensures
        r@ == reclaim_ops(*room_id, b, alive@),
{
    match b {
        Some(binding) => match janitor_reclaim(&binding, alive) {
            None => Vec::new(),
            Some(_) => {
                let mut ops: Vec<JanitorOp> = Vec::new();
                match binding.sfu_instance_id {
                    Some(sfu) => ops.push(JanitorOp::DecrementSfuLoad { sfu_instance_id: sfu }),
                    None => {},
                }
                ops.push(JanitorOp::DeleteBinding { room_id: room_id.clone() });
                ops.push(JanitorOp::DeleteMembers { room_id: room_id.clone() });
                ops
            },
        },
        None => Vec::new(),
    }
}

fn member_deletes(rooms: &Vec<String>) -> (r: Vec<JanitorOp>)
    ensures
        r@ == rooms@.map_values(|id: String| JanitorOp::DeleteMembers { room_id: id }),
{
    let mut ops: Vec<JanitorOp> = Vec::new();
    let mut i: usize = 0;
    while i < rooms.len()
        invariant
            i <= rooms@.len(),
            ops@ == rooms@.take(i as int).map_values(|id: String| JanitorOp::DeleteMembers { room_id: id }),
        decreases rooms.len() - i,
    {
        ops.push(JanitorOp::DeleteMembers { room_id: rooms[i].clone() });
        i = i + 1;
        assert(rooms@.take(i as int).map_values(|id: String| JanitorOp::DeleteMembers { room_id: id })
            =~= ops@);
    }
    assert(rooms@.take(rooms@.len() as int) == rooms@);
    ops
}

fn load_removals(nodes: &Vec<String>) -> (r: Vec<JanitorOp>)
    ensures
        r@ == nodes@.map_values(|id: String| JanitorOp::RemoveLoad { node_id: id }),
{
    let mut ops: Vec<JanitorOp> = Vec::new();
    let mut i: usize = 0;
    while i < nodes.len()
        invariant
            i <= nodes@.len(),
            ops@ == nodes@.take(i as int).map_values(|id: String| JanitorOp::RemoveLoad { node_id: id }),
        decreases nodes.len() - i,
    {
        ops.push(JanitorOp::RemoveLoad { node_id: nodes[i].clone() });
        i = i + 1;
        assert(nodes@.take(i as int).map_values(|id: String| JanitorOp::RemoveLoad { node_id: id }) =~= ops@);
    }
    assert(nodes@.take(nodes@.len() as int) == nodes@);
    ops
}

fn go_binding(prefix: Vec<JanitorOp>, alive: Vec<String>, ids: Vec<String>, at: usize) -> (r: (JanitorStage, JanitorAction))
    ensures
        r.0 == next_binding(prefix@, alive, ids, at).stage,
        janitor_action_view(r.1) == next_binding(prefix@, alive, ids, at).action,
{
    let mut ops = prefix;
    if at < ids.len() {
        ops.push(JanitorOp::GetBinding { room_id: ids[at].clone() });
        (JanitorStage::Binding { alive, ids, at }, JanitorAction::Perform(ops))
    } else {
        ops.push(JanitorOp::ScanMemberRooms);
        (JanitorStage::MemberRooms { alive, ids }, JanitorAction::Perform(ops))
    }
}

fn go_owner(prefix: Vec<JanitorOp>, alive: Vec<String>, sessions: Vec<String>, at: usize, cutoff: i64) -> (r: (JanitorStage, JanitorAction))
    ensures
        r.0 == next_owner(prefix@, alive, sessions, at, cutoff).stage,
        janitor_action_view(r.1) == next_owner(prefix@, alive, sessions, at, cutoff).action,
{
    let mut ops = prefix;
    if at < sessions.len() {
        ops.push(JanitorOp::GetOwner { session_id: sessions[at].clone() });
        (JanitorStage::Owner { alive, sessions, at }, JanitorAction::Perform(ops))
    } else {
        ops.push(JanitorOp::CompactHeartbeats { below: cutoff });
        (JanitorStage::Compact, JanitorAction::Perform(ops))
    }
}

/// One step of a janitor pass that began at `now` (seconds since the epoch), with nodes
/// counted dead after `stale_secs` seconds without a heartbeat: heartbeats below
/// `heartbeat_cutoff(now, stale_secs)` are compacted at the end. The next stage and
/// action are exactly those of `spec_janitor_step`.
pub fn janitor_step(stage: JanitorStage, reply: JanitorReply, now: i64, stale_secs: u64) -> (r: (JanitorStage, JanitorAction))
    requires
        janitor_fits(stage, reply),
        i64::MIN <= now - crate::clock::spec_signed_seconds(stale_secs) <= i64::MAX,
    ensures
        r.0 == spec_janitor_step(stage, reply, (now - crate::clock::spec_signed_seconds(stale_secs)) as i64).stage,
        janitor_action_view(r.1) == spec_janitor_step(stage, reply, (now - crate::clock::spec_signed_seconds(stale_secs)) as i64).action,
{
    let cutoff = heartbeat_cutoff(now, stale_secs);
    match (stage, reply) {
        (JanitorStage::Start, _) => (JanitorStage::Alive, JanitorAction::Perform(jop1(JanitorOp::AliveNodes))),
        (JanitorStage::Alive, JanitorReply::Names(read)) => match read {
            Err(e) => j_finish(Err(e)),
            Ok(alive) => (JanitorStage::Bindings { alive }, JanitorAction::Perform(jop1(JanitorOp::ScanBindings))),
        },
        (JanitorStage::Bindings { alive }, JanitorReply::Names(read)) => match read {
            Err(e) => j_finish(Err(e)),
            Ok(ids) => go_binding(Vec::new(), alive, ids, 0),
        },
        (JanitorStage::Binding { alive, ids, at }, JanitorReply::Binding(read)) => match read {
            Err(e) => j_finish(Err(e)),
            Ok(b) => {
                let prefix = reclaim(&ids[at], b, &alive);
                go_binding(prefix, alive, ids, at + 1)
            },
        },
        (JanitorStage::MemberRooms { alive, ids }, JanitorReply::Names(read)) => match read {
            Err(e) => j_finish(Err(e)),
            Ok(rooms) => {
                let orphans = orphan_room_ids(&rooms, &ids);
                let mut ops = member_deletes(&orphans);
                ops.push(JanitorOp::LoadMembers);
                (JanitorStage::Loads { alive }, JanitorAction::Perform(ops))
            },
        },
        (JanitorStage::Loads { alive }, JanitorReply::Names(read)) => match read {
            Err(e) => j_finish(Err(e)),
            Ok(nodes) => {
                let stale = stale_load_members(&nodes, &alive);
                let mut ops = load_removals(&stale);
                ops.push(JanitorOp::ScanSessions);
                (JanitorStage::Sessions { alive }, JanitorAction::Perform(ops))
            },
        },
        (JanitorStage::Sessions { alive }, JanitorReply::Names(read)) => match read {
            Err(e) => j_finish(Err(e)),
            Ok(sessions) => go_owner(Vec::new(), alive, sessions, 0, cutoff),
        },
        (JanitorStage::Owner { alive, sessions, at }, JanitorReply::Owner(read)) => match read {
            Err(e) => j_finish(Err(e)),
            Ok(owner) => {
                let stale = match &owner {
                    Some(o) => !contains_name(&alive, o.as_str()),
                    None => false,
                };
                let prefix = if stale {
                    jop1(JanitorOp::DeleteSession { session_id: sessions[at].clone() })
                } else {
                    Vec::new()
                };
                go_owner(prefix, alive, sessions, at + 1, cutoff)
            },
        },
        (JanitorStage::Compact, _) => (JanitorStage::Finished(Ok(())), JanitorAction::Finish(Ok(()))),
        (JanitorStage::Finished(r), _) => j_finish(r),
        (stage, _) => (stage, JanitorAction::Finish(Ok(()))),
    }
}

/// How far the sweep after an SFU died has got.
#[derive(Debug, PartialEq, Eq)]
pub enum DeadSfuStage {
    Start,
    /// Waiting for the binding ids.
    Scan,
    /// Waiting for the binding of `ids[at]`.
    Binding { ids: Vec<String>, at: usize },
    Finished,
}

/// The reply kind each sweep stage waits for.
pub open spec fn dead_sfu_fits(stage: DeadSfuStage, reply: JanitorReply) -> bool {
    match stage {
        DeadSfuStage::Start => reply is Start,
        DeadSfuStage::Scan => reply is Names,
        DeadSfuStage::Binding { ids, at } => reply is Binding && at < ids.len(),
        DeadSfuStage::Finished => reply is Done,
    }
}

/// The sweep's operations for the room `room_id` with binding `b`: when it is bound to
/// the dead SFU, its owner's configured admin node (if any) is asked to close the rooms
/// there, one room fewer is counted on its SFU (if it names one), and its binding and
/// members are deleted; nothing otherwise.
pub open spec fn dead_sfu_ops(room_id: String, b: RoomBinding, sfu_grpc_addr: String, admins: Seq<SignalingAdminInstance>) -> Seq<JanitorOp> {
    if b@.sfu_grpc_addr == Some(sfu_grpc_addr@) {
        let close = match close_address(admins, b.owner_id@) {
            Some(addr) => seq![JanitorOp::CloseRoomsOnSfu { admin_addr: addr, sfu_grpc_addr }],
            None => Seq::empty(),
        };
        let dec = match b.sfu_instance_id {
            Some(sfu) => seq![JanitorOp::DecrementSfuLoad { sfu_instance_id: sfu }],
            None => Seq::empty(),
        };
        close + dec + seq![JanitorOp::DeleteBinding { room_id }, JanitorOp::DeleteMembers { room_id }]
    } else {
        Seq::empty()
    }
}

/// After `prefix`, the binding of `ids[at]` is read, or the sweep ends once all were.
pub open spec fn next_dead_binding(prefix: Seq<JanitorOp>, ids: Vec<String>, at: usize) -> (DeadSfuStage, JanitorActionView) {
    if at < ids.len() {
        (DeadSfuStage::Binding { ids, at }, JanitorActionView::Perform(prefix.push(JanitorOp::GetBinding { room_id: ids@[at as int] })))
    } else if prefix.len() == 0 {
        (DeadSfuStage::Finished, JanitorActionView::Finish(Ok(())))
    } else {
        (DeadSfuStage::Finished, JanitorActionView::Perform(prefix))
    }
}

/// One step of the sweep for the dead SFU at `sfu_grpc_addr`. A failed scan ends it;
/// a binding that cannot be read, or is gone, is skipped.
pub open spec fn spec_dead_sfu_step(
    stage: DeadSfuStage,
    reply: JanitorReply,
    sfu_grpc_addr: String,
    admins: Seq<SignalingAdminInstance>,
) -> (DeadSfuStage, JanitorActionView) {
    match (stage, reply) {
        (DeadSfuStage::Start, _) => (DeadSfuStage::Scan, JanitorActionView::Perform(seq![JanitorOp::ScanBindings])),
        (DeadSfuStage::Scan, JanitorReply::Names(Ok(ids))) => next_dead_binding(Seq::empty(), ids, 0),
        (DeadSfuStage::Binding { ids, at }, JanitorReply::Binding(Ok(Some(b)))) => next_dead_binding(
            dead_sfu_ops(ids@[at as int], b, sfu_grpc_addr, admins), ids, (at + 1) as usize,
        ),
        (DeadSfuStage::Binding { ids, at }, _) => next_dead_binding(Seq::empty(), ids, (at + 1) as usize),
        _ => (DeadSfuStage::Finished, JanitorActionView::Finish(Ok(()))),
    }
}

fn go_dead_binding(prefix: Vec<JanitorOp>, ids: Vec<String>, at: usize) -> (r: (DeadSfuStage, JanitorAction))
    ensures
        r.0 == next_dead_binding(prefix@, ids, at).0,
        janitor_action_view(r.1) == next_dead_binding(prefix@, ids, at).1,
{
    let mut ops = prefix;
    if at < ids.len() {
        ops.push(JanitorOp::GetBinding { room_id: ids[at].clone() });
        (DeadSfuStage::Binding { ids, at }, JanitorAction::Perform(ops))
    } else if ops.len() == 0 {
        (DeadSfuStage::Finished, JanitorAction::Finish(Ok(())))
    } else {
        (DeadSfuStage::Finished, JanitorAction::Perform(ops))
    }
}

fn dead_room_ops(room_id: &String, b: &RoomBinding, sfu_grpc_addr: &String, admins: &Vec<SignalingAdminInstance>) -> (r: Vec<JanitorOp>)
    ensures
        r@ == dead_sfu_ops(*room_id, *b, *sfu_grpc_addr, admins@),
{
    match dead_sfu_room_plan(b, sfu_grpc_addr.as_str(), admins) {
        None => Vec::new(),
        Some(plan) => {
            let mut ops: Vec<JanitorOp> = Vec::new();
            match plan.close_via {
                Some(addr) => ops.push(JanitorOp::CloseRoomsOnSfu { admin_addr: addr, sfu_grpc_addr: sfu_grpc_addr.clone() }),
                None => {},
            }
            match plan.decrement_sfu {
                Some(sfu) => ops.push(JanitorOp::DecrementSfuLoad { sfu_instance_id: sfu }),
                None => {},
            }
            ops.push(JanitorOp::DeleteBinding { room_id: room_id.clone() });
            ops.push(JanitorOp::DeleteMembers { room_id: room_id.clone() });
            ops
        },
    }
}

/// One step of the sweep after the SFU at `sfu_grpc_addr` was found dead, with the
/// configured signaling admin nodes `admins`: exactly `spec_dead_sfu_step`.
pub fn dead_sfu_step(
    stage: DeadSfuStage,
    reply: JanitorReply,
    sfu_grpc_addr: &String,
    admins: &Vec<SignalingAdminInstance>,
) -> (r: (DeadSfuStage, JanitorAction))
    requires
        dead_sfu_fits(stage, reply),
    ensures
        r.0 == spec_dead_sfu_step(stage, reply, *sfu_grpc_addr, admins@).0,
        janitor_action_view(r.1) == spec_dead_sfu_step(stage, reply, *sfu_grpc_addr, admins@).1,
{
    match (stage, reply) {
        (DeadSfuStage::Start, _) => (DeadSfuStage::Scan, JanitorAction::Perform(jop1(JanitorOp::ScanBindings))),
        (DeadSfuStage::Scan, JanitorReply::Names(Ok(ids))) => go_dead_binding(Vec::new(), ids, 0),
        (DeadSfuStage::Binding { ids, at }, JanitorReply::Binding(Ok(Some(b)))) => {
            let ops = dead_room_ops(&ids[at], &b, sfu_grpc_addr, admins);
            go_dead_binding(ops, ids, at + 1)
        },
        (DeadSfuStage::Binding { ids, at }, _) => go_dead_binding(Vec::new(), ids, at + 1),
        _ => (DeadSfuStage::Finished, JanitorAction::Finish(Ok(()))),
    }
}

/// After a binding is read in the dead-SFU sweep, that room's binding and member set are
/// deleted exactly when the binding names the dead SFU, and no other room is touched;
/// for such a room one room fewer is counted on its SFU exactly when the binding names
/// the SFU's instance.
pub proof fn law_dead_sfu_sweep_deletes_its_rooms(
    ids: Vec<String>,
    at: usize,
    b: RoomBinding,
    sfu_grpc_addr: String,
    admins: Seq<SignalingAdminInstance>,
)
    requires
        at < ids.len(),
    ensures
        ({
            let v = spec_dead_sfu_step(DeadSfuStage::Binding { ids, at }, JanitorReply::Binding(Ok(Some(b))), sfu_grpc_addr, admins);
            let on_dead = b.sfu_grpc_addr matches Some(a) && a@ == sfu_grpc_addr@;
            let room = ids@[at as int];
            &&& on_dead ==> (v.1 matches JanitorActionView::Perform(ops) && ops.contains(JanitorOp::DeleteBinding { room_id: room })
                && ops.contains(JanitorOp::DeleteMembers { room_id: room })
                && (b.sfu_instance_id matches Some(id) ==> ops.contains(JanitorOp::DecrementSfuLoad { sfu_instance_id: id })))
            &&& !on_dead ==> (v.1 matches JanitorActionView::Perform(ops) ==> forall|i: int| 0 <= i < ops.len()
                ==> !(ops[i] is DeleteBinding) && !(ops[i] is DeleteMembers) && !(ops[i] is DecrementSfuLoad))
        }),
{
    let v = spec_dead_sfu_step(DeadSfuStage::Binding { ids, at }, JanitorReply::Binding(Ok(Some(b))), sfu_grpc_addr, admins);
    let on_dead = b.sfu_grpc_addr matches Some(a) && a@ == sfu_grpc_addr@;
    let room = ids@[at as int];
    let d = dead_sfu_ops(room, b, sfu_grpc_addr, admins);
    if on_dead {
        let n = d.len();
        assert(d[n - 2] == JanitorOp::DeleteBinding { room_id: room });
        assert(d[n - 1] == JanitorOp::DeleteMembers { room_id: room });
        if at + 1 < ids.len() {
            let ops = d.push(JanitorOp::GetBinding { room_id: ids@[at + 1] });
            assert(ops[n - 2] == d[n - 2] && ops[n - 1] == d[n - 1]);
            if let Some(id) = b.sfu_instance_id {
                let k = if close_address(admins, b.owner_id@) is Some { 1int } else { 0int };
                assert(d[k] == JanitorOp::DecrementSfuLoad { sfu_instance_id: id });
                assert(ops[k] == d[k]);
            }
        } else {
            if let Some(id) = b.sfu_instance_id {
                let k = if close_address(admins, b.owner_id@) is Some { 1int } else { 0int };
                assert(d[k] == JanitorOp::DecrementSfuLoad { sfu_instance_id: id });
            }
        }
    }
}

} // verus!
