//! Settings of the first room manager.

use vstd::prelude::*;
use crate::env::{EntryList, 
    env_number, env_or, env_value, error_setting, first_inventory_fault, inventory_entries,
    inventory_ok, parse_inventory, u64_env_or, usize_env_or, ConfigError, entry_parsed,
};
use crate::room_manager::models::SfuCandidate;
use crate::text::or_default;

verus! {

/// Room manager settings; durations are in milliseconds.
#[derive(Debug, Clone, PartialEq, Eq)]
pub struct Config {
    pub grpc_addr: String,
    pub redis_url: String,
    pub redis_connect_timeout: u64,
    pub sfu_connect_timeout: u64,
    pub health_interval: u64,
    pub scale_down_idle_timeout: u64,
    pub max_waiting_requests: usize,
    pub sfu_candidates: Vec<SfuCandidate>,
}

pub const SFU_CANDIDATES: &'static str = "ROOM_MANAGER_SFU_CANDIDATES";

/// `c` holds the parts of the well-formed candidate entry `entry`, untrimmed.
pub open spec fn candidate_parsed(entry: Seq<char>, c: SfuCandidate) -> bool {
    match crate::env::inventory_entry(entry) {
        Ok((a, b, n)) => c.instance_id@ == a && c.grpc_addr@ == b && c.max_clients == n,
        Err(_) => false,
    }
}

/// Parses `instance_id|grpc_addr|max_clients;...`: blank entries are skipped, the id
/// and address must not be empty and the capacity must be a `u32` (read as written,
/// untrimmed); parts after the third are ignored. The first malformed entry is the error.
pub fn parse_candidates(value: &str) -> (r: Result<Vec<SfuCandidate>, ConfigError>)
    ensures
        r is Ok <==> inventory_ok(value@),
        r matches Ok(v) ==> v@.len() == inventory_entries(value@).len() && forall|i: int| 0 <= i < v@.len()
            ==> candidate_parsed(inventory_entries(value@)[i], #[trigger] v@[i]),
        r matches Err(e) ==> e matches ConfigError::MalformedEntry { list, fault } && list
            == EntryList::SfuCandidates && first_inventory_fault(value@, fault),
{
    match parse_inventory(value, false) {
        Ok(parts) => {
            let mut out: Vec<SfuCandidate> = Vec::new();
            let mut i: usize = 0;
            while i < parts.len()
                invariant
                    parts@.len() == inventory_entries(value@).len(),
                    forall|k: int| 0 <= k < parts@.len() ==> entry_parsed(inventory_entries(value@)[k], #[trigger] parts@[k], false),
                    i <= parts@.len(),
                    out@.len() == i,
                    forall|k: int| 0 <= k < i ==> candidate_parsed(inventory_entries(value@)[k], #[trigger] out@[k]),
                decreases parts.len() - i,
            {
                assert(entry_parsed(inventory_entries(value@)[i as int], parts@[i as int], false));
                out.push(SfuCandidate {
                    instance_id: parts[i].0.clone(),
                    grpc_addr: parts[i].1.clone(),
                    max_clients: parts[i].2,
                });
                i = i + 1;
            }
            Ok(out)
        },
        Err(fault) => Err(ConfigError::MalformedEntry { list: EntryList::SfuCandidates, fault }),
    }
}

/// The setting that reading the room manager settings fails on: the first, in reading
/// order, that is unusable.
pub open spec fn room_manager_first_failure(vars: Seq<(String, String)>) -> Option<Seq<char>> {
    if env_number(vars, "REDIS_CONNECT_TIMEOUT_MS"@, 2000, u64::MAX as nat) is None {
        Some("REDIS_CONNECT_TIMEOUT_MS"@)
    } else if env_number(vars, "SFU_CONNECT_TIMEOUT_MS"@, 2000, u64::MAX as nat) is None {
        Some("SFU_CONNECT_TIMEOUT_MS"@)
    } else if env_number(vars, "ROOM_MANAGER_HEALTH_INTERVAL_MS"@, 5000, u64::MAX as nat) is None {
        Some("ROOM_MANAGER_HEALTH_INTERVAL_MS"@)
    } else if env_number(vars, "ROOM_MANAGER_SCALE_DOWN_IDLE_MS"@, 300000, u64::MAX as nat) is None {
        Some("ROOM_MANAGER_SCALE_DOWN_IDLE_MS"@)
    } else if env_number(vars, "ROOM_MANAGER_MAX_WAITING_REQUESTS"@, 10000, usize::MAX as nat) is None {
        Some("ROOM_MANAGER_MAX_WAITING_REQUESTS"@)
    } else if !inventory_ok(or_default(env_value(vars, SFU_CANDIDATES@), Seq::empty())) {
        Some(SFU_CANDIDATES@)
    } else {
        None
    }
}

impl Config {
    /// Reads the settings from the environment `vars`.
    pub fn from_env(vars: &Vec<(String, String)>) -> (r: Result<Config, ConfigError>)
        ensures
            r is Ok <==> room_manager_first_failure(vars@) is None,
            r matches Err(e) ==> room_manager_first_failure(vars@) == Some(error_setting(e)),
            r matches Ok(c) ==> {
                &&& c.grpc_addr@ == or_default(env_value(vars@, "ROOM_MANAGER_ADDR"@), "0.0.0.0:50061"@)
                &&& c.redis_url@ == or_default(env_value(vars@, "REDIS_URL"@), "redis://redis:6379/"@)
                &&& env_number(vars@, "REDIS_CONNECT_TIMEOUT_MS"@, 2000, u64::MAX as nat) == Some(c.redis_connect_timeout as nat)
                &&& env_number(vars@, "SFU_CONNECT_TIMEOUT_MS"@, 2000, u64::MAX as nat) == Some(c.sfu_connect_timeout as nat)
                &&& env_number(vars@, "ROOM_MANAGER_HEALTH_INTERVAL_MS"@, 5000, u64::MAX as nat) == Some(c.health_interval as nat)
                &&& env_number(vars@, "ROOM_MANAGER_SCALE_DOWN_IDLE_MS"@, 300000, u64::MAX as nat) == Some(c.scale_down_idle_timeout as nat)
                &&& env_number(vars@, "ROOM_MANAGER_MAX_WAITING_REQUESTS"@, 10000, usize::MAX as nat) == Some(c.max_waiting_requests as nat)
                &&& c.sfu_candidates@.len() == inventory_entries(or_default(env_value(vars@, SFU_CANDIDATES@), Seq::empty())).len()
                &&& forall|i: int| 0 <= i < c.sfu_candidates@.len() ==> candidate_parsed(
                    inventory_entries(or_default(env_value(vars@, SFU_CANDIDATES@), Seq::empty()))[i],
                    #[trigger] c.sfu_candidates@[i],
                )
            },
    {
        proof {
            reveal_strlit("");
            assert(""@ =~= Seq::<char>::empty());
        }
        let grpc_addr = env_or(vars, "ROOM_MANAGER_ADDR", "0.0.0.0:50061");
        let redis_url = env_or(vars, "REDIS_URL", "redis://redis:6379/");
        let redis_connect_timeout = u64_env_or(vars, "REDIS_CONNECT_TIMEOUT_MS", 2_000)?;
        let sfu_connect_timeout = u64_env_or(vars, "SFU_CONNECT_TIMEOUT_MS", 2_000)?;
        let health_interval = u64_env_or(vars, "ROOM_MANAGER_HEALTH_INTERVAL_MS", 5_000)?;
        let scale_down_idle_timeout = u64_env_or(vars, "ROOM_MANAGER_SCALE_DOWN_IDLE_MS", 300_000)?;
        let max_waiting_requests = usize_env_or(vars, "ROOM_MANAGER_MAX_WAITING_REQUESTS", 10_000)?;
        let candidates_value = env_or(vars, SFU_CANDIDATES, "");
        let sfu_candidates = parse_candidates(candidates_value.as_str())?;
        Ok(Config {
            grpc_addr,
            redis_url,
            redis_connect_timeout,
            sfu_connect_timeout,
            health_interval,
            scale_down_idle_timeout,
            max_waiting_requests,
            sfu_candidates,
        })
    }
}

} // verus!
