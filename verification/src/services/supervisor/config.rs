//! Supervisor settings: the signaling nodes and SFUs it watches and its timings.

use vstd::prelude::*;
use crate::uuid_text::{fresh_uuid_text, is_v4_text};
use crate::env::{EntryList, 
    env_number, env_or, env_value, error_setting, first_inventory_fault, inventory_entries,
    inventory_entry, inventory_ok, parse_inventory, u64_env_or, ConfigError, EntryFault,
};
use crate::text::{
    non_blank, non_blank_pieces, or_default, split_on, split_once, split_once_char, strings_view,
    trim, trimmed,
};

verus! {

/// A signaling node's admin endpoint.
#[derive(Debug, Clone, PartialEq, Eq)]
pub struct SignalingAdminInstance {
    /// Node id used in `signaling:nodes` (`host:port`).
    pub node_id: String,
    /// gRPC address of the admin server.
    pub grpc_addr: String,
}

/// An SFU of the inventory.
#[derive(Debug, Clone, PartialEq, Eq)]
pub struct SfuInventoryInstance {
    pub instance_id: String,
    pub grpc_addr: String,
    pub max_rooms: u32,
}

/// Supervisor settings; durations are in milliseconds except
/// `signaling_stale_timeout` and `janitor_interval`, which are in seconds.
#[derive(Debug, Clone, PartialEq, Eq)]
pub struct Config {
    pub redis_url: String,
    pub redis_connect_timeout: u64,
    pub redis_op_timeout: u64,
    pub rpc_connect_timeout: u64,
    pub signaling_admin_instances: Vec<SignalingAdminInstance>,
    pub sfu_instances: Vec<SfuInventoryInstance>,
    pub probe_interval: u64,
    pub probe_timeout: u64,
    pub signaling_stale_timeout: u64,
    pub janitor_interval: u64,
    pub sfu_connect_timeout: u64,
    pub instance_id: String,
}

pub const SIGNALING_ADMIN_INSTANCES: &'static str = "SIGNALING_ADMIN_INSTANCES";
pub const SUPERVISOR_SFU_INSTANCES: &'static str = "SUPERVISOR_SFU_INSTANCES";

/// The entries of an admin list: its non-blank comma-separated parts.
pub open spec fn admin_entries(value: Seq<char>) -> Seq<Seq<char>> {
    non_blank(split_on(value, ','))
}

/// Every entry of the admin list is a `node_id|grpc_addr` pair.
pub open spec fn admin_ok(value: Seq<char>) -> bool {
    forall|i: int| 0 <= i < admin_entries(value).len() ==> (#[trigger] split_once(admin_entries(value)[i], '|')) is Some
}

/// `inst` holds the trimmed halves of the admin entry `entry`.
pub open spec fn admin_parsed(entry: Seq<char>, inst: SignalingAdminInstance) -> bool {
    match split_once(entry, '|') {
        Some((a, b)) => inst.node_id@ == trim(a) && inst.grpc_addr@ == trim(b),
        None => false,
    }
}

/// Parses `node_id|grpc_addr,node_id|grpc_addr,...`; blank entries are skipped, both
/// halves are trimmed, and an entry without `|` is an error.
pub fn parse_signaling_admin_instances(value: &str) -> (r: Result<Vec<SignalingAdminInstance>, ConfigError>)
    ensures
        r is Ok <==> admin_ok(value@),
        r matches Ok(v) ==> v@.len() == admin_entries(value@).len() && forall|i: int| 0 <= i < v@.len() ==> admin_parsed(admin_entries(value@)[i], #[trigger] v@[i]),
        r matches Err(e) ==> e matches ConfigError::MalformedEntry { list, fault } && list
            == EntryList::SignalingAdminInstances && fault == EntryFault::MissingSeparator,
{
    let entries = non_blank_pieces(value, ',');
    let ghost ev = strings_view(entries@);
    let mut out: Vec<SignalingAdminInstance> = Vec::new();
    let mut i: usize = 0;
    while i < entries.len()
        invariant
            ev == strings_view(entries@),
            ev == admin_entries(value@),
            i <= entries@.len(),
            out@.len() == i,
            forall|k: int| 0 <= k < i ==> admin_parsed(ev[k], #[trigger] out@[k]),
        decreases entries.len() - i,
    {
        match split_once_char(entries[i].as_str(), '|') {
            Some((node_id, grpc_addr)) => {
                out.push(SignalingAdminInstance { node_id: trimmed(node_id.as_str()), grpc_addr: trimmed(grpc_addr.as_str()) });
            },
            None => {
                assert(split_once(ev[i as int], '|') is None);
                return Err(
                    ConfigError::MalformedEntry {
                        list: EntryList::SignalingAdminInstances,
                        fault: EntryFault::MissingSeparator,
                    },
                );
            },
        }
        i = i + 1;
    }
    assert(admin_ok(value@)) by {
        assert forall|k: int| 0 <= k < ev.len() implies (#[trigger] split_once(ev[k], '|')) is Some by {
            assert(admin_parsed(ev[k], out@[k]));
        }
    }
    Ok(out)
}

/// `inst` holds the trimmed id and address and the capacity of the inventory entry.
pub open spec fn sfu_parsed(entry: Seq<char>, inst: SfuInventoryInstance) -> bool {
    match inventory_entry(entry) {
        Ok((a, b, n)) => inst.instance_id@ == trim(a) && inst.grpc_addr@ == trim(b) && inst.max_rooms == n,
        Err(_) => false,
    }
}

/// Parses `instance_id|grpc_addr|max_rooms;...`; blank entries are skipped, the id and
/// address are trimmed, and the first malformed entry is the error.
pub fn parse_sfu_instances(value: &str) -> (r: Result<Vec<SfuInventoryInstance>, ConfigError>)
    ensures
        r is Ok <==> inventory_ok(value@),
        r matches Ok(v) ==> v@.len() == inventory_entries(value@).len() && forall|i: int| 0 <= i < v@.len() ==> sfu_parsed(inventory_entries(value@)[i], #[trigger] v@[i]),
        r matches Err(e) ==> e matches ConfigError::MalformedEntry { list, fault } && list
            == EntryList::SupervisorSfuInstances && first_inventory_fault(value@, fault),
{
    match parse_inventory(value, true) {
        Ok(parts) => {
            let mut out: Vec<SfuInventoryInstance> = Vec::new();
            let mut i: usize = 0;
            while i < parts.len()
                invariant
                    parts@.len() == inventory_entries(value@).len(),
                    forall|k: int| 0 <= k < parts@.len() ==> crate::env::entry_parsed(inventory_entries(value@)[k], #[trigger] parts@[k], true),
                    i <= parts@.len(),
                    out@.len() == i,
                    forall|k: int| 0 <= k < i ==> sfu_parsed(inventory_entries(value@)[k], #[trigger] out@[k]),
                decreases parts.len() - i,
            {
                assert(crate::env::entry_parsed(inventory_entries(value@)[i as int], parts@[i as int], true));
                out.push(SfuInventoryInstance {
                    instance_id: parts[i].0.clone(),
                    grpc_addr: parts[i].1.clone(),
                    max_rooms: parts[i].2,
                });
                i = i + 1;
            }
            Ok(out)
        },
        Err(fault) => Err(ConfigError::MalformedEntry { list: EntryList::SupervisorSfuInstances, fault }),
    }
}

/// `env::var(key).unwrap_or(default)`.
pub fn env_or_default(vars: &Vec<(String, String)>, key: &str, default: &str) -> (r: String)
    ensures
        r@ == or_default(env_value(vars@, key@), default@),
{
    env_or(vars, key, default)
}

/// A `u64` setting, `default` when unset.
pub fn u64_env_or_default(vars: &Vec<(String, String)>, key: &str, default: u64) -> (r: Result<u64, ConfigError>)
    ensures
        match r {
            Ok(n) => env_number(vars@, key@, default as nat, u64::MAX as nat) == Some(n as nat),
            Err(e) => env_number(vars@, key@, default as nat, u64::MAX as nat) is None && error_setting(e) == key@,
        },
{
    u64_env_or(vars, key, default)
}

/// A duration setting in milliseconds.
pub fn ms_env_or(vars: &Vec<(String, String)>, key: &str, default_ms: u64) -> (r: Result<u64, ConfigError>)
    ensures
        match r {
            Ok(n) => env_number(vars@, key@, default_ms as nat, u64::MAX as nat) == Some(n as nat),
            Err(e) => env_number(vars@, key@, default_ms as nat, u64::MAX as nat) is None && error_setting(e) == key@,
        },
{
    u64_env_or(vars, key, default_ms)
}

/// A duration setting in seconds.
pub fn secs_env_or(vars: &Vec<(String, String)>, key: &str, default_secs: u64) -> (r: Result<u64, ConfigError>)
    ensures
        match r {
            Ok(n) => env_number(vars@, key@, default_secs as nat, u64::MAX as nat) == Some(n as nat),
            Err(e) => env_number(vars@, key@, default_secs as nat, u64::MAX as nat) is None && error_setting(e) == key@,
        },
{
    u64_env_or(vars, key, default_secs)
}

/// A numeric setting has a usable value.
pub open spec fn number_ok(vars: Seq<(String, String)>, key: Seq<char>, default: nat) -> bool {
    env_number(vars, key, default, u64::MAX as nat) is Some
}

/// The setting that reading the supervisor settings fails on: the first, in reading
/// order, that is unusable.
pub open spec fn supervisor_first_failure(vars: Seq<(String, String)>) -> Option<Seq<char>> {
    if !number_ok(vars, "REDIS_CONNECT_TIMEOUT_MS"@, 2000) {
        Some("REDIS_CONNECT_TIMEOUT_MS"@)
    } else if !number_ok(vars, "REDIS_OP_TIMEOUT_MS"@, 800) {
        Some("REDIS_OP_TIMEOUT_MS"@)
    } else if !number_ok(vars, "RPC_CONNECT_TIMEOUT_MS"@, 2000) {
        Some("RPC_CONNECT_TIMEOUT_MS"@)
    } else if !admin_ok(or_default(env_value(vars, SIGNALING_ADMIN_INSTANCES@), Seq::empty())) {
        Some(SIGNALING_ADMIN_INSTANCES@)
    } else if !inventory_ok(or_default(env_value(vars, SUPERVISOR_SFU_INSTANCES@), Seq::empty())) {
        Some(SUPERVISOR_SFU_INSTANCES@)
    } else if !number_ok(vars, "SUPERVISOR_PROBE_INTERVAL_MS"@, 2000) {
        Some("SUPERVISOR_PROBE_INTERVAL_MS"@)
    } else if !number_ok(vars, "SUPERVISOR_PROBE_TIMEOUT_MS"@, 1000) {
        Some("SUPERVISOR_PROBE_TIMEOUT_MS"@)
    } else if !number_ok(vars, "SIGNALING_STALE_SEC"@, 30) {
        Some("SIGNALING_STALE_SEC"@)
    } else if !number_ok(vars, "JANITOR_INTERVAL_SEC"@, 5) {
        Some("JANITOR_INTERVAL_SEC"@)
    } else if !number_ok(vars, "SFU_CONNECT_TIMEOUT_MS"@, 2000) {
        Some("SFU_CONNECT_TIMEOUT_MS"@)
    } else {
        None
    }
}

impl Config {
    /// Reads the settings from the environment `vars`; the instance id is
    /// `SUPERVISOR_INSTANCE_ID`, or a fresh random UUID when that is unset.
    pub fn from_env(vars: &Vec<(String, String)>) -> (r: Result<Config, ConfigError>)
        ensures
            r is Ok <==> supervisor_first_failure(vars@) is None,
            r matches Err(e) ==> supervisor_first_failure(vars@) == Some(error_setting(e)),
            r matches Ok(c) ==> {
                &&& c.redis_url@ == or_default(env_value(vars@, "REDIS_URL"@), "redis://redis:6379/"@)
                &&& env_number(vars@, "REDIS_CONNECT_TIMEOUT_MS"@, 2000, u64::MAX as nat) == Some(c.redis_connect_timeout as nat)
                &&& env_number(vars@, "REDIS_OP_TIMEOUT_MS"@, 800, u64::MAX as nat) == Some(c.redis_op_timeout as nat)
                &&& env_number(vars@, "RPC_CONNECT_TIMEOUT_MS"@, 2000, u64::MAX as nat) == Some(c.rpc_connect_timeout as nat)
                &&& c.signaling_admin_instances@.len() == admin_entries(or_default(env_value(vars@, SIGNALING_ADMIN_INSTANCES@), Seq::empty())).len()
                &&& forall|i: int| 0 <= i < c.signaling_admin_instances@.len() ==> admin_parsed(
                    admin_entries(or_default(env_value(vars@, SIGNALING_ADMIN_INSTANCES@), Seq::empty()))[i],
                    #[trigger] c.signaling_admin_instances@[i],
                )
                &&& c.sfu_instances@.len() == inventory_entries(or_default(env_value(vars@, SUPERVISOR_SFU_INSTANCES@), Seq::empty())).len()
                &&& forall|i: int| 0 <= i < c.sfu_instances@.len() ==> sfu_parsed(
                    inventory_entries(or_default(env_value(vars@, SUPERVISOR_SFU_INSTANCES@), Seq::empty()))[i],
                    #[trigger] c.sfu_instances@[i],
                )
                &&& env_number(vars@, "SUPERVISOR_PROBE_INTERVAL_MS"@, 2000, u64::MAX as nat) == Some(c.probe_interval as nat)
                &&& env_number(vars@, "SUPERVISOR_PROBE_TIMEOUT_MS"@, 1000, u64::MAX as nat) == Some(c.probe_timeout as nat)
                &&& env_number(vars@, "SIGNALING_STALE_SEC"@, 30, u64::MAX as nat) == Some(c.signaling_stale_timeout as nat)
                &&& env_number(vars@, "JANITOR_INTERVAL_SEC"@, 5, u64::MAX as nat) == Some(c.janitor_interval as nat)
                &&& env_number(vars@, "SFU_CONNECT_TIMEOUT_MS"@, 2000, u64::MAX as nat) == Some(c.sfu_connect_timeout as nat)
                &&& match env_value(vars@, "SUPERVISOR_INSTANCE_ID"@) {
                    Some(id) => c.instance_id@ == id,
                    None => is_v4_text(c.instance_id@),
                }
            },
    {
        proof {
            reveal_strlit("");
            assert(""@ =~= Seq::<char>::empty());
        }
        let redis_url = env_or_default(vars, "REDIS_URL", "redis://redis:6379/");
        let redis_connect_timeout = ms_env_or(vars, "REDIS_CONNECT_TIMEOUT_MS", 2_000)?;
        let redis_op_timeout = ms_env_or(vars, "REDIS_OP_TIMEOUT_MS", 800)?;
        let rpc_connect_timeout = ms_env_or(vars, "RPC_CONNECT_TIMEOUT_MS", 2_000)?;
        let admin_value = env_or_default(vars, SIGNALING_ADMIN_INSTANCES, "");
        let signaling_admin_instances = parse_signaling_admin_instances(admin_value.as_str())?;
        let sfu_value = env_or_default(vars, SUPERVISOR_SFU_INSTANCES, "");
        let sfu_instances = parse_sfu_instances(sfu_value.as_str())?;
        let probe_interval = ms_env_or(vars, "SUPERVISOR_PROBE_INTERVAL_MS", 2_000)?;
        let probe_timeout = ms_env_or(vars, "SUPERVISOR_PROBE_TIMEOUT_MS", 1_000)?;
        let signaling_stale_timeout = secs_env_or(vars, "SIGNALING_STALE_SEC", 30)?;
        let janitor_interval = secs_env_or(vars, "JANITOR_INTERVAL_SEC", 5)?;
        let sfu_connect_timeout = ms_env_or(vars, "SFU_CONNECT_TIMEOUT_MS", 2_000)?;
        let fresh = fresh_uuid_text();
        let instance_id = env_or_default(vars, "SUPERVISOR_INSTANCE_ID", fresh.as_str());
        Ok(Config {
            redis_url,
            redis_connect_timeout,
            redis_op_timeout,
            rpc_connect_timeout,
            signaling_admin_instances,
            sfu_instances,
            probe_interval,
            probe_timeout,
            signaling_stale_timeout,
            janitor_interval,
            sfu_connect_timeout,
            instance_id,
        })
    }
}

} // verus!
