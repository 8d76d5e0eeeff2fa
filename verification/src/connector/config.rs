//! Connector settings.

use vstd::prelude::*;
use crate::env::{env_number, env_or, env_value, u64_env_or, ConfigError, EntryFault, EntryList};
use crate::text::{
    non_blank, non_blank_pieces, or_default, split_on, split_once, split_once_char, str_eq,
    strings_view,
};

verus! {

/// A signaling node that clients may be sent to.
#[derive(Debug, Clone, PartialEq, Eq)]
pub struct SignalingInstance {
    pub id: String,
    pub ws_url: String,
}

/// Connector settings; durations are in milliseconds.
#[derive(Debug, Clone, PartialEq, Eq)]
pub struct Config {
    pub connector_addr: String,
    pub redis_url: String,
    pub redis_connect_timeout: u64,
    pub ws_write_timeout: u64,
    pub token_secret: String,
    pub token_ttl: u64,
    pub signaling_instances: Vec<SignalingInstance>,
}

pub const SIGNALING_INSTANCES: &'static str = "SIGNALING_INSTANCES";
pub const DEFAULT_SIGNALING_INSTANCES: &'static str = "127.0.0.1:8080|ws://127.0.0.1:8080/ws";

/// The entries of a `SIGNALING_INSTANCES` value: its non-blank comma-separated parts.
pub open spec fn instance_entries(value: Seq<char>) -> Seq<Seq<char>> {
    non_blank(split_on(value, ','))
}

/// Every entry has an `id|ws_url` shape.
pub open spec fn instances_well_formed(value: Seq<char>) -> bool {
    forall|i: int| 0 <= i < instance_entries(value).len() ==> (#[trigger] split_once(instance_entries(value)[i], '|')) is Some
}

/// `v` lists, in order, the id and URL of every entry of `value`.
pub open spec fn instances_match(v: Seq<SignalingInstance>, value: Seq<char>) -> bool {
    let e = instance_entries(value);
    &&& v.len() == e.len()
    &&& forall|i: int| 0 <= i < e.len() ==> split_once(e[i], '|') == Some((#[trigger] v[i].id@, v[i].ws_url@))
}

/// Parses `id|ws_url,id|ws_url,...`; blank entries are skipped, and an entry without
/// `|` is an error.
pub fn parse_signaling_instances(value: &str) -> (r: Result<Vec<SignalingInstance>, ConfigError>)
    ensures
        r is Ok <==> instances_well_formed(value@),
        r matches Ok(v) ==> instances_match(v@, value@),
        r matches Err(e) ==> e matches ConfigError::MalformedEntry { list, fault } && list
            == EntryList::SignalingInstances && fault == EntryFault::MissingSeparator,
{
    let entries = non_blank_pieces(value, ',');
    let ghost ev = strings_view(entries@);
    let mut out: Vec<SignalingInstance> = Vec::new();
    let mut i: usize = 0;
    while i < entries.len()
        invariant
            ev == strings_view(entries@),
            ev == instance_entries(value@),
            i <= entries@.len(),
            out@.len() == i,
            forall|k: int| 0 <= k < i ==> split_once(ev[k], '|') == Some((#[trigger] out@[k].id@, out@[k].ws_url@)),
        decreases entries.len() - i,
    {
        match split_once_char(entries[i].as_str(), '|') {
            Some((id, ws_url)) => {
                out.push(SignalingInstance { id, ws_url });
            },
            None => {
                assert(split_once(ev[i as int], '|') is None);
                return Err(
                    ConfigError::MalformedEntry {
                        list: EntryList::SignalingInstances,
                        fault: EntryFault::MissingSeparator,
                    },
                );
            },
        }
        i = i + 1;
    }
    assert(instances_well_formed(value@)) by {
        assert forall|k: int| 0 <= k < ev.len() implies (#[trigger] split_once(ev[k], '|')) is Some by {
            assert(split_once(ev[k], '|') == Some((out@[k].id@, out@[k].ws_url@)));
        }
    }
    Ok(out)
}

/// `env::var(key).unwrap_or(default)`.
pub fn get_env_or(vars: &Vec<(String, String)>, key: &str, default: &str) -> (r: String)
    ensures
        r@ == or_default(env_value(vars@, key@), default@),
{
    env_or(vars, key, default)
}

/// A duration setting in milliseconds, `default_ms` when unset.
pub fn duration_from_env(vars: &Vec<(String, String)>, key: &str, default_ms: u64) -> (r: Result<u64, ConfigError>)
    ensures
        match r {
            Ok(n) => env_number(vars@, key@, default_ms as nat, u64::MAX as nat) == Some(n as nat),
            Err(e) => env_number(vars@, key@, default_ms as nat, u64::MAX as nat) is None && (e matches ConfigError::InvalidInteger { key: k, value: v } && k@ == key@ && env_value(vars@, key@) == Some(v@)),
        },
{
    u64_env_or(vars, key, default_ms)
}

/// The `SIGNALING_INSTANCES` value in effect.
pub open spec fn spec_instances_value(vars: Seq<(String, String)>) -> Seq<char> {
    or_default(env_value(vars, SIGNALING_INSTANCES@), DEFAULT_SIGNALING_INSTANCES@)
}

impl Config {
    /// Reads the settings from the environment `vars`: every duration must be a whole
    /// number of milliseconds and every instance entry an `id|ws_url` pair; the first
    /// setting in that order which is not is the error.
    pub fn from_env(vars: &Vec<(String, String)>) -> (r: Result<Config, ConfigError>)
        ensures
            r is Ok <==> (env_number(vars@, "REDIS_CONNECT_TIMEOUT_MS"@, 2000, u64::MAX as nat) is Some
                && env_number(vars@, "WS_WRITE_TIMEOUT_MS"@, 10000, u64::MAX as nat) is Some
                && env_number(vars@, "CONNECTOR_TOKEN_TTL_MS"@, 120000, u64::MAX as nat) is Some
                && instances_well_formed(spec_instances_value(vars@))),
            r matches Ok(c) ==> {
                &&& c.connector_addr@ == or_default(env_value(vars@, "CONNECTOR_ADDR"@), "0.0.0.0:8090"@)
                &&& c.redis_url@ == or_default(env_value(vars@, "REDIS_URL"@), "redis://redis:6379/"@)
                &&& env_number(vars@, "REDIS_CONNECT_TIMEOUT_MS"@, 2000, u64::MAX as nat) == Some(c.redis_connect_timeout as nat)
                &&& env_number(vars@, "WS_WRITE_TIMEOUT_MS"@, 10000, u64::MAX as nat) == Some(c.ws_write_timeout as nat)
                &&& c.token_secret@ == or_default(env_value(vars@, "CONNECTOR_TOKEN_SECRET"@), "dev-connector-token-secret"@)
                &&& env_number(vars@, "CONNECTOR_TOKEN_TTL_MS"@, 120000, u64::MAX as nat) == Some(c.token_ttl as nat)
                &&& instances_match(c.signaling_instances@, spec_instances_value(vars@))
            },
            r matches Err(e) ==> {
                if env_number(vars@, "REDIS_CONNECT_TIMEOUT_MS"@, 2000, u64::MAX as nat) is None {
                    e matches ConfigError::InvalidInteger { key, .. } && key@ == "REDIS_CONNECT_TIMEOUT_MS"@
                } else if env_number(vars@, "WS_WRITE_TIMEOUT_MS"@, 10000, u64::MAX as nat) is None {
                    e matches ConfigError::InvalidInteger { key, .. } && key@ == "WS_WRITE_TIMEOUT_MS"@
                } else if env_number(vars@, "CONNECTOR_TOKEN_TTL_MS"@, 120000, u64::MAX as nat) is None {
                    e matches ConfigError::InvalidInteger { key, .. } && key@ == "CONNECTOR_TOKEN_TTL_MS"@
                } else {
                    e matches ConfigError::MalformedEntry { fault, .. } && fault == EntryFault::MissingSeparator
                }
            },
    {
        let connector_addr = get_env_or(vars, "CONNECTOR_ADDR", "0.0.0.0:8090");
        let redis_url = get_env_or(vars, "REDIS_URL", "redis://redis:6379/");
        let redis_connect_timeout = duration_from_env(vars, "REDIS_CONNECT_TIMEOUT_MS", 2_000)?;
        let ws_write_timeout = duration_from_env(vars, "WS_WRITE_TIMEOUT_MS", 10_000)?;
        let token_secret = get_env_or(vars, "CONNECTOR_TOKEN_SECRET", "dev-connector-token-secret");
        let token_ttl = duration_from_env(vars, "CONNECTOR_TOKEN_TTL_MS", 120_000)?;
        let instances_value = get_env_or(vars, SIGNALING_INSTANCES, DEFAULT_SIGNALING_INSTANCES);
        let signaling_instances = parse_signaling_instances(instances_value.as_str())?;
        Ok(Config {
            connector_addr,
            redis_url,
            redis_connect_timeout,
            ws_write_timeout,
            token_secret,
            token_ttl,
            signaling_instances,
        })
    }

    /// The first configured signaling instance whose id is `id`.
    pub fn signaling_by_id(&self, id: &str) -> (r: Option<&SignalingInstance>)
        ensures
            match r {
                Some(inst) => exists|i: int| 0 <= i < self.signaling_instances@.len() && self.signaling_instances@[i] == *inst
                    && inst.id@ == id@ && forall|j: int| 0 <= j < i ==> #[trigger] self.signaling_instances@[j].id@ != id@,
                None => forall|j: int| 0 <= j < self.signaling_instances@.len() ==> #[trigger] self.signaling_instances@[j].id@ != id@,
            },
    {
        let mut i: usize = 0;
        while i < self.signaling_instances.len()
            invariant
                i <= self.signaling_instances@.len(),
                forall|j: int| 0 <= j < i ==> #[trigger] self.signaling_instances@[j].id@ != id@,
            decreases self.signaling_instances.len() - i,
        {
            if str_eq(self.signaling_instances[i].id.as_str(), id) {
                return Some(&self.signaling_instances[i]);
            }
            i = i + 1;
        }
        None
    }
}

} // verus!
