//! The supervisor's decisions: what a probe result leads to, which rooms, sessions and
//! load entries the janitor reclaims, and when a store outage purges signaling.
//! The loops that ping, read and delete run around these functions.

use vstd::prelude::*;
use crate::control_store::models::RoomBinding;
use crate::services::supervisor::config::SignalingAdminInstance;
use crate::text::{char_count, opt_view, str_eq, strings_view};

verus! {

/// `id` is one of `names`.
pub open spec fn names_contain(names: Seq<Seq<char>>, id: Seq<char>) -> bool {
    exists|i: int| 0 <= i < names.len() && names[i] == id
}

/// Whether `id` is one of `names`.
pub fn contains_name(names: &Vec<String>, id: &str) -> (r: bool)
    ensures
        r == names_contain(strings_view(names@), id@),
{
    let ghost nv = strings_view(names@);
    let mut i: usize = 0;
    while i < names.len()
        invariant
            nv == strings_view(names@),
            i <= names@.len(),
            forall|k: int| 0 <= k < i ==> nv[k] != id@,
        decreases names.len() - i,
    {
        if str_eq(names[i].as_str(), id) {
            assert(nv[i as int] == id@);
            return true;
        }
        i = i + 1;
    }
    false
}

/// How a ping of a signaling node's admin endpoint ended.
#[derive(Debug, Clone, Copy, PartialEq, Eq)]
pub enum SignalingProbeOutcome {
    Answered,
    Failed,
    TimedOut,
}

/// What follows a signaling probe.
#[derive(Debug, Clone, Copy, PartialEq, Eq)]
pub enum SignalingProbeAction {
    /// Record that the node was seen now.
    MarkSeen,
    /// Read the alive nodes and reclaim the node if it is past the stale window.
    CheckStale,
}

/// An answered probe marks the node seen; a failed or timed-out one checks staleness.
pub fn after_signaling_probe(outcome: SignalingProbeOutcome) -> (r: SignalingProbeAction)
    ensures
        r == (if outcome == SignalingProbeOutcome::Answered {
            SignalingProbeAction::MarkSeen
        } else {
            SignalingProbeAction::CheckStale
        }),
{
    match outcome {
        SignalingProbeOutcome::Answered => SignalingProbeAction::MarkSeen,
        _ => SignalingProbeAction::CheckStale,
    }
}

/// A node that did not answer is removed only once it is missing from the alive set.
pub fn node_should_be_removed(alive: &Vec<String>, node_id: &str) -> (r: bool)
    ensures
        r == !names_contain(strings_view(alive@), node_id@),
{
    !contains_name(alive, node_id)
}

/// The index of the first admin instance whose node id is `node_id`.
pub open spec fn first_admin(admins: Seq<SignalingAdminInstance>, node_id: Seq<char>) -> Option<int> {
    if exists|i: int| 0 <= i < admins.len() && admins[i].node_id@ == node_id {
        Some(choose|i: int| 0 <= i < admins.len() && admins[i].node_id@ == node_id
            && forall|j: int| 0 <= j < i ==> admins[j].node_id@ != node_id)
    } else {
        None
    }
}

/// The first admin instance of node `node_id`, by index.
pub fn find_admin(admins: &Vec<SignalingAdminInstance>, node_id: &str) -> (r: Option<usize>)
    ensures
        match r {
            Some(i) => i < admins@.len() && admins@[i as int].node_id@ == node_id@
                && forall|j: int| 0 <= j < i ==> admins@[j].node_id@ != node_id@,
            None => forall|j: int| 0 <= j < admins@.len() ==> admins@[j].node_id@ != node_id@,
        },
        r matches Some(i) ==> first_admin(admins@, node_id@) == Some(i as int),
        r is None ==> first_admin(admins@, node_id@) is None,
{
    let mut i: usize = 0;
    while i < admins.len()
        invariant
            i <= admins@.len(),
            forall|j: int| 0 <= j < i ==> admins@[j].node_id@ != node_id@,
        decreases admins.len() - i,
    {
        if str_eq(admins[i].node_id.as_str(), node_id) {
            proof {
                let w = choose|k: int| 0 <= k < admins@.len() && admins@[k].node_id@ == node_id@
                    && forall|j: int| 0 <= j < k ==> admins@[j].node_id@ != node_id@;
                assert(0 <= i < admins@.len() && admins@[i as int].node_id@ == node_id@
                    && forall|j: int| 0 <= j < i ==> admins@[j].node_id@ != node_id@);
                if w < i {
                    assert(admins@[w].node_id@ != node_id@);
                } else if w > i {
                    assert(admins@[i as int].node_id@ != node_id@);
                }
            }
            return Some(i);
        }
        i = i + 1;
    }
    None
}

/// What the supervisor does about one room when an SFU is found dead.
#[derive(Debug, Clone, PartialEq, Eq)]
pub struct DeadSfuRoomPlan {
    /// Admin address of the owning signaling node, asked to close the rooms on the SFU.
    pub close_via: Option<String>,
    /// SFU whose room load is decremented.
    pub decrement_sfu: Option<String>,
}

/// The admin address that a dead-SFU close request for a room owned by `owner` goes to.
pub open spec fn close_target(admins: Seq<SignalingAdminInstance>, owner: Seq<char>) -> Option<Seq<char>> {
    if owner.len() == 0 {
        None
    } else {
        match first_admin(admins, owner) {
            Some(i) => Some(admins[i].grpc_addr@),
            None => None,
        }
    }
}

/// The admin address itself that a dead-SFU close request for `owner` goes to.
pub open spec fn close_address(admins: Seq<SignalingAdminInstance>, owner: Seq<char>) -> Option<String> {
    if owner.len() == 0 {
        None
    } else {
        match first_admin(admins, owner) {
            Some(i) => Some(admins[i].grpc_addr),
            None => None,
        }
    }
}

/// For a room bound to the dead SFU at `sfu_grpc_addr`: ask its owner (when it has one
/// that is configured) to close its rooms there, decrement the SFU's load when the
/// binding names the SFU, and delete the binding and members. Rooms on other SFUs are
/// left alone (`None`).
pub fn dead_sfu_room_plan(
    binding: &RoomBinding,
    sfu_grpc_addr: &str,
    admins: &Vec<SignalingAdminInstance>,
) -> (r: Option<DeadSfuRoomPlan>)
    ensures
        r is Some <==> binding@.sfu_grpc_addr == Some(sfu_grpc_addr@),
        r matches Some(p) ==> opt_view(p.close_via) == close_target(admins@, binding.owner_id@)
            && opt_view(p.decrement_sfu) == binding@.sfu_instance_id,
        r matches Some(p) ==> p.close_via == close_address(admins@, binding.owner_id@)
            && p.decrement_sfu == binding.sfu_instance_id,
{
    let on_dead = match &binding.sfu_grpc_addr {
        Some(addr) => str_eq(addr.as_str(), sfu_grpc_addr),
        None => false,
    };
    if !on_dead {
        return None;
    }
    let close_via = if char_count(binding.owner_id.as_str()) == 0 {
        None
    } else {
        match find_admin(admins, binding.owner_id.as_str()) {
            Some(i) => Some(admins[i].grpc_addr.clone()),
            None => None,
        }
    };
    proof {
        if binding.owner_id@.len() != 0 {
            assert(close_target(admins@, binding.owner_id@) == match first_admin(admins@, binding.owner_id@) {
                Some(i) => Some(admins@[i].grpc_addr@),
                None => None,
            });
        }
    }
    let decrement_sfu = match &binding.sfu_instance_id {
        Some(id) => Some(id.clone()),
        None => None,
    };
    Some(DeadSfuRoomPlan { close_via, decrement_sfu })
}

/// The janitor reclaims a room whose owner is set and not alive.
pub open spec fn reclaimable(owner: Seq<char>, alive: Seq<Seq<char>>) -> bool {
    owner.len() != 0 && !names_contain(alive, owner)
}

/// Whether the janitor reclaims the room of `binding`; when it does, the SFU whose load
/// it decrements (if the binding names one). The binding and members are then deleted.
pub fn janitor_reclaim(binding: &RoomBinding, alive: &Vec<String>) -> (r: Option<Option<String>>)
    ensures
        r is Some <==> reclaimable(binding.owner_id@, strings_view(alive@)),
        r matches Some(d) ==> opt_view(d) == binding@.sfu_instance_id,
{
    if char_count(binding.owner_id.as_str()) == 0 || contains_name(alive, binding.owner_id.as_str()) {
        None
    } else {
        Some(binding.sfu_instance_id.clone())
    }
}

/// The names of `candidates` that are not in `excluded`, in order.
pub open spec fn keep_absent(candidates: Seq<Seq<char>>, excluded: Seq<Seq<char>>) -> Seq<Seq<char>>
    decreases candidates.len(),
{
    if candidates.len() == 0 {
        Seq::empty()
    } else {
        let rest = keep_absent(candidates.drop_last(), excluded);
        if names_contain(excluded, candidates.last()) {
            rest
        } else {
            rest.push(candidates.last())
        }
    }
}

/// The strings of `candidates` whose text is not in `excluded`, in order.
pub open spec fn absent_from(candidates: Seq<String>, excluded: Seq<String>) -> Seq<String>
    decreases candidates.len(),
{
    if candidates.len() == 0 {
        Seq::empty()
    } else {
        let rest = absent_from(candidates.drop_last(), excluded);
        if names_contain(strings_view(excluded), candidates.last()@) {
            rest
        } else {
            rest.push(candidates.last())
        }
    }
}

/// The names of `candidates` missing from `excluded`, in their order.
pub fn names_not_in(candidates: &Vec<String>, excluded: &Vec<String>) -> (r: Vec<String>)
    ensures
        strings_view(r@) == keep_absent(strings_view(candidates@), strings_view(excluded@)),
        r@ == absent_from(candidates@, excluded@),
{
    let ghost cv = strings_view(candidates@);
    let ghost ex = strings_view(excluded@);
    let mut out: Vec<String> = Vec::new();
    let mut i: usize = 0;
    while i < candidates.len()
        invariant
            cv == strings_view(candidates@),
            ex == strings_view(excluded@),
            i <= candidates@.len(),
            strings_view(out@) == keep_absent(cv.take(i as int), ex),
            out@ == absent_from(candidates@.take(i as int), excluded@),
        decreases candidates.len() - i,
    {
        assert(cv.take(i + 1).drop_last() == cv.take(i as int));
        assert(cv.take(i + 1).last() == cv[i as int]);
        assert(candidates@.take(i + 1).drop_last() == candidates@.take(i as int));
        assert(candidates@.take(i + 1).last() == candidates@[i as int]);
        if !contains_name(excluded, candidates[i].as_str()) {
            let ghost before = out@;
            out.push(candidates[i].clone());
            assert(strings_view(out@) == strings_view(before).push(cv[i as int]));
        }
        i = i + 1;
    }
    assert(cv.take(candidates@.len() as int) == cv);
    assert(candidates@.take(candidates@.len() as int) == candidates@);
    out
}

/// Room-member sets whose room has no binding: the orphans the janitor deletes.
pub fn orphan_room_ids(member_room_ids: &Vec<String>, binding_ids: &Vec<String>) -> (r: Vec<String>)
    ensures
        strings_view(r@) == keep_absent(strings_view(member_room_ids@), strings_view(binding_ids@)),
        r@ == absent_from(member_room_ids@, binding_ids@),
{
    names_not_in(member_room_ids, binding_ids)
}

/// Load entries of nodes that are not alive: the ones the janitor removes.
pub fn stale_load_members(load_members: &Vec<String>, alive: &Vec<String>) -> (r: Vec<String>)
    ensures
        strings_view(r@) == keep_absent(strings_view(load_members@), strings_view(alive@)),
        r@ == absent_from(load_members@, alive@),
{
    names_not_in(load_members, alive)
}

/// A session is deleted when its owning node is not alive.
pub fn session_is_stale(owner: &str, alive: &Vec<String>) -> (r: bool)
    ensures
        r == !names_contain(strings_view(alive@), owner@),
{
    !contains_name(alive, owner)
}

/// Heartbeat scores below `now - stale_secs` are compacted away; the seconds are taken
/// as a signed count, wrapping past `i64::MAX` as a cast does.
pub fn heartbeat_cutoff(now: i64, stale_secs: u64) -> (r: i64)
    requires
        i64::MIN <= now - crate::clock::spec_signed_seconds(stale_secs) <= i64::MAX,
    ensures
        r == now - crate::clock::spec_signed_seconds(stale_secs),
{
    let secs = crate::clock::signed_seconds(stale_secs);
    now - secs
}

/// A name is kept exactly when it is a candidate and not excluded.
pub proof fn law_keep_absent_exact(candidates: Seq<Seq<char>>, excluded: Seq<Seq<char>>, x: Seq<char>)
    ensures
        names_contain(keep_absent(candidates, excluded), x) <==> (names_contain(candidates, x)
            && !names_contain(excluded, x)),
    decreases candidates.len(),
{
    if candidates.len() > 0 {
        let init = candidates.drop_last();
        let rest = keep_absent(init, excluded);
        law_keep_absent_exact(init, excluded, x);
        if names_contain(candidates, x) {
            let i = choose|i: int| 0 <= i < candidates.len() && candidates[i] == x;
            if i < candidates.len() - 1 {
                assert(init[i] == x);
            }
        }
        if names_contain(init, x) {
            let i = choose|i: int| 0 <= i < init.len() && init[i] == x;
            assert(candidates[i] == x);
        }
        if !names_contain(excluded, candidates.last()) {
            let out = rest.push(candidates.last());
            if names_contain(rest, x) {
                let i = choose|i: int| 0 <= i < rest.len() && rest[i] == x;
                assert(out[i] == x);
            }
            if names_contain(out, x) {
                let i = choose|i: int| 0 <= i < out.len() && out[i] == x;
                if i < rest.len() {
                    assert(rest[i] == x);
                }
            }
            assert(out[rest.len() as int] == candidates.last());
        }
    }
}

/// What the store health watch does on a ping result.
#[derive(Debug, Clone, Copy, PartialEq, Eq)]
pub enum StoreHealthAction {
    Nothing,
    /// The store answers again after an outage.
    Recovered,
    /// The store just went down: purge every reachable signaling node.
    PurgeSignaling,
}

/// One step of the store health watch: `was_down` is whether the last ping failed.
/// Returns whether the store is now down and what to do.
pub fn store_health_step(was_down: bool, ping_ok: bool) -> (r: (bool, StoreHealthAction))
    ensures
        r.0 == !ping_ok,
        r.1 == (if ping_ok {
            if was_down { StoreHealthAction::Recovered } else { StoreHealthAction::Nothing }
        } else if was_down {
            StoreHealthAction::Nothing
        } else {
            StoreHealthAction::PurgeSignaling
        }),
{
    if ping_ok {
        (false, if was_down { StoreHealthAction::Recovered } else { StoreHealthAction::Nothing })
    } else {
        (true, if was_down { StoreHealthAction::Nothing } else { StoreHealthAction::PurgeSignaling })
    }
}

/// The state after a run of ping results, starting from `was_down`.
pub open spec fn health_after(was_down: bool, pings: Seq<bool>) -> bool
    decreases pings.len(),
{
    if pings.len() == 0 {
        was_down
    } else {
        !pings.last()
    }
}

/// The number of purges a run of ping results triggers, starting from `was_down`.
pub open spec fn purges(was_down: bool, pings: Seq<bool>) -> nat
    decreases pings.len(),
{
    if pings.len() == 0 {
        0
    } else {
        let before = health_after(was_down, pings.drop_last());
        purges(was_down, pings.drop_last()) + if !pings.last() && !before { 1nat } else { 0nat }
    }
}

/// One outage purges signaling once: however many consecutive pings fail after a
/// success, exactly one of them triggers the purge.
pub proof fn law_one_purge_per_outage(failures: nat)
    requires
        failures >= 1,
    ensures
        purges(false, Seq::new(failures, |i: int| false)) == 1,
    decreases failures,
{
    let pings = Seq::new(failures, |i: int| false);
    assert(!pings.last());
    if failures == 1 {
        assert(pings.drop_last() =~= Seq::<bool>::empty());
        assert(purges(false, pings.drop_last()) == 0);
        assert(health_after(false, pings.drop_last()) == false);
        assert(purges(false, pings) == 1);
    } else {
        let shorter = Seq::new((failures - 1) as nat, |i: int| false);
        assert(pings.drop_last() =~= shorter);
        law_one_purge_per_outage((failures - 1) as nat);
        assert(!shorter.last());
        assert(health_after(false, shorter) == true);
        assert(purges(false, pings) == purges(false, shorter));
    }
}

} // verus!
