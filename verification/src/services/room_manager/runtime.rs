//! The decisions of the room manager's loops: which SFUs a health pass reclaims after a
//! provisioning timeout, and which idle SFUs scale-down returns to the inventory. Its
//! janitor pass decides as the supervisor's does (`services::supervisor::probes`).

use vstd::prelude::*;
use crate::services::room_manager::storage::{is_provisioning_state, SfuCandidate, SfuInstance, SfuInstanceView};
use crate::text::str_eq;

verus! {

/// A provisioning SFU that did not answer its probe and has waited longer than
/// `timeout_secs` since it was started is reclaimed.
pub open spec fn spec_provisioning_timed_out(inst: SfuInstanceView, alive: bool, now: i64, timeout_secs: int) -> bool {
    &&& !alive
    &&& is_provisioning_state(inst.state)
    &&& inst.idle_since_unix > 0
    &&& now - inst.idle_since_unix > timeout_secs
}

/// Whether the health pass reclaims `instance` after a probe that found it `alive` or
/// not, with a provisioning timeout of `provisioning_timeout_ms` (whole seconds count).
pub fn provisioning_timed_out(instance: &SfuInstance, alive: bool, now: i64, provisioning_timeout_ms: u64) -> (r: bool)
    ensures
        r == spec_provisioning_timed_out(instance@, alive, now, (provisioning_timeout_ms / 1000) as int),
{
    let timeout_secs: u64 = provisioning_timeout_ms / 1000;
    let starting = str_eq(instance.state.as_str(), crate::services::room_manager::storage::SFU_STATE_STARTING)
        || str_eq(instance.state.as_str(), crate::services::room_manager::storage::SFU_STATE_PROVISIONING);
    !alive && starting && instance.idle_since_unix > 0
        && (now as i128) - (instance.idle_since_unix as i128) > timeout_secs as i128
}

/// The inventory candidate an SFU record is released as: its id, address and capacity.
pub open spec fn spec_candidate_of(instance: SfuInstance) -> SfuCandidate {
    SfuCandidate { instance_id: instance.instance_id, grpc_addr: instance.grpc_addr, max_rooms: instance.max_rooms }
}

/// The inventory candidate an SFU record is released as.
pub fn candidate_of(instance: SfuInstance) -> (r: SfuCandidate)
    ensures
        r.instance_id@ == instance.instance_id@,
        r.grpc_addr@ == instance.grpc_addr@,
        r.max_rooms == instance.max_rooms,
        r == spec_candidate_of(instance),
{
    SfuCandidate { instance_id: instance.instance_id, grpc_addr: instance.grpc_addr, max_rooms: instance.max_rooms }
}

/// A provisioned SFU with no rooms, idle for at least `timeout_secs`, is scaled down.
pub open spec fn spec_should_scale_down(inst: SfuInstanceView, room_load: u64, now: i64, timeout_secs: int) -> bool {
    &&& room_load == 0
    &&& inst.provisioned
    &&& inst.idle_since_unix > 0
    &&& now - inst.idle_since_unix >= timeout_secs
}

/// Whether scale-down deletes `instance`, carrying `room_load` rooms, and releases it
/// to the inventory, with an idle timeout of `idle_timeout_ms` (whole seconds count).
pub fn should_scale_down(instance: &SfuInstance, room_load: u64, now: i64, idle_timeout_ms: u64) -> (r: bool)
    ensures
        r == spec_should_scale_down(instance@, room_load, now, (idle_timeout_ms / 1000) as int),
{
    let timeout_secs: u64 = idle_timeout_ms / 1000;
    room_load == 0 && instance.provisioned && instance.idle_since_unix > 0
        && (now as i128) - (instance.idle_since_unix as i128) >= timeout_secs as i128
}

/// An SFU carrying rooms, or one the room manager did not provision, is never scaled
/// down; and an SFU that answers its probe is never reclaimed as timed out.
pub proof fn law_busy_or_alive_sfus_stay(inst: SfuInstanceView, room_load: u64, now: i64, timeout_secs: int)
    ensures
        room_load > 0 ==> !spec_should_scale_down(inst, room_load, now, timeout_secs),
        !inst.provisioned ==> !spec_should_scale_down(inst, room_load, now, timeout_secs),
        !spec_provisioning_timed_out(inst, true, now, timeout_secs),
{
}

} // verus!
