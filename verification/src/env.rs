//! Settings read from the process environment: a setting is the value of the first
//! variable of its name; an absent one takes its default.

use vstd::prelude::*;
use crate::decimal::{parse_u64, parse_usize, parse_unsigned, parse_u32};
use crate::fields::{get_field, lookup, pairs_view};
use crate::text::{or_default, non_blank, split_on, strings_view, trim, non_blank_pieces, split_char, trimmed};

verus! {

/// Why a setting could not be read.
#[derive(Debug, Clone, Copy, PartialEq, Eq)]
pub enum EntryFault {
    /// A pair lacks its `|` separator.
    MissingSeparator,
    /// An entry has an empty instance id.
    MissingInstanceId,
    /// An entry has no or an empty gRPC address.
    MissingGrpcAddr,
    /// An entry has no capacity part.
    MissingCapacity,
    /// An entry's capacity is not an integer.
    InvalidCapacity,
}

/// The list settings, each with its own entry grammar.
#[derive(Debug, Clone, Copy, PartialEq, Eq)]
pub enum EntryList {
    /// `SIGNALING_INSTANCES`: `id|ws_url` pairs.
    SignalingInstances,
    /// `SIGNALING_ADMIN_INSTANCES`: `node_id|grpc_addr` pairs.
    SignalingAdminInstances,
    /// `SUPERVISOR_SFU_INSTANCES`: `instance_id|grpc_addr|max_rooms` entries.
    SupervisorSfuInstances,
    /// `ROOM_MANAGER_SFU_CANDIDATES`: `instance_id|grpc_addr|max_clients` entries.
    SfuCandidates,
}

/// The variable that holds a list setting.
pub open spec fn list_name(list: EntryList) -> Seq<char> {
    match list {
        EntryList::SignalingInstances => "SIGNALING_INSTANCES"@,
        EntryList::SignalingAdminInstances => "SIGNALING_ADMIN_INSTANCES"@,
        EntryList::SupervisorSfuInstances => "SUPERVISOR_SFU_INSTANCES"@,
        EntryList::SfuCandidates => "ROOM_MANAGER_SFU_CANDIDATES"@,
    }
}

/// The message reported for a malformed entry of `list`.
pub open spec fn malformed_text(list: EntryList, fault: EntryFault) -> Seq<char> {
    match (list, fault) {
        (EntryList::SignalingInstances, EntryFault::MissingSeparator) => "SIGNALING_INSTANCES entries must be id|ws_url"@,
        (EntryList::SignalingAdminInstances, EntryFault::MissingSeparator) => "SIGNALING_ADMIN_INSTANCES must be node_id|grpc_addr pairs"@,
        (EntryList::SupervisorSfuInstances, EntryFault::MissingInstanceId) => "SUPERVISOR_SFU_INSTANCES entry requires instance_id"@,
        (EntryList::SupervisorSfuInstances, EntryFault::MissingGrpcAddr) => "SUPERVISOR_SFU_INSTANCES entry requires grpc_addr"@,
        (EntryList::SupervisorSfuInstances, EntryFault::MissingCapacity) => "SUPERVISOR_SFU_INSTANCES entry requires max_rooms"@,
        (EntryList::SupervisorSfuInstances, EntryFault::InvalidCapacity) => "SUPERVISOR_SFU_INSTANCES max_rooms must be integer"@,
        (EntryList::SfuCandidates, EntryFault::MissingInstanceId) => "candidate instance_id is required"@,
        (EntryList::SfuCandidates, EntryFault::MissingGrpcAddr) => "candidate grpc_addr is required"@,
        (EntryList::SfuCandidates, EntryFault::MissingCapacity) => "candidate max_clients is required"@,
        (EntryList::SfuCandidates, EntryFault::InvalidCapacity) => "candidate max_clients must be integer"@,
        _ => list_name(list) + " entry is malformed"@,
    }
}

/// A setting that could not be read.
#[derive(Debug, Clone, PartialEq, Eq)]
pub enum ConfigError {
    /// The variable `key` holds `value`, which is not a number.
    InvalidInteger { key: String, value: String },
    /// An entry of the list setting `list` is malformed.
    MalformedEntry { list: EntryList, fault: EntryFault },
}

/// The name of a list setting.
pub fn list_setting_name(list: EntryList) -> (r: &'static str)
    ensures
        r@ == list_name(list),
{
    match list {
        EntryList::SignalingInstances => {
            proof { reveal_strlit("SIGNALING_INSTANCES"); }
            "SIGNALING_INSTANCES"
        },
        EntryList::SignalingAdminInstances => {
            proof { reveal_strlit("SIGNALING_ADMIN_INSTANCES"); }
            "SIGNALING_ADMIN_INSTANCES"
        },
        EntryList::SupervisorSfuInstances => {
            proof { reveal_strlit("SUPERVISOR_SFU_INSTANCES"); }
            "SUPERVISOR_SFU_INSTANCES"
        },
        EntryList::SfuCandidates => {
            proof { reveal_strlit("ROOM_MANAGER_SFU_CANDIDATES"); }
            "ROOM_MANAGER_SFU_CANDIDATES"
        },
    }
}

impl ConfigError {
    /// The message the services report for this error.
    pub fn message(&self) -> (r: String)
        ensures
            self matches ConfigError::InvalidInteger { key, value } ==> r@ == "invalid integer for "@
                + key@ + ": "@ + value@,
            self matches ConfigError::MalformedEntry { list, fault } ==> r@ == malformed_text(*list, *fault),
    {
        match self {
            ConfigError::InvalidInteger { key, value } => {
                proof {
                    reveal_strlit("invalid integer for ");
                    reveal_strlit(": ");
                }
                String::from_str("invalid integer for ").concat(key.as_str()).concat(": ").concat(
                    value.as_str(),
                )
            },
            ConfigError::MalformedEntry { list, fault } => malformed_message(*list, *fault),
        }
    }
}

/// The message for a malformed entry of `list`.
fn malformed_message(list: EntryList, fault: EntryFault) -> (r: String)
    ensures
        r@ == malformed_text(list, fault),
{
    let text: &'static str = match (list, fault) {
        (EntryList::SignalingInstances, EntryFault::MissingSeparator) => {
            proof { reveal_strlit("SIGNALING_INSTANCES entries must be id|ws_url"); }
            "SIGNALING_INSTANCES entries must be id|ws_url"
        },
        (EntryList::SignalingAdminInstances, EntryFault::MissingSeparator) => {
            proof { reveal_strlit("SIGNALING_ADMIN_INSTANCES must be node_id|grpc_addr pairs"); }
            "SIGNALING_ADMIN_INSTANCES must be node_id|grpc_addr pairs"
        },
        (EntryList::SupervisorSfuInstances, EntryFault::MissingInstanceId) => {
            proof { reveal_strlit("SUPERVISOR_SFU_INSTANCES entry requires instance_id"); }
            "SUPERVISOR_SFU_INSTANCES entry requires instance_id"
        },
        (EntryList::SupervisorSfuInstances, EntryFault::MissingGrpcAddr) => {
            proof { reveal_strlit("SUPERVISOR_SFU_INSTANCES entry requires grpc_addr"); }
            "SUPERVISOR_SFU_INSTANCES entry requires grpc_addr"
        },
        (EntryList::SupervisorSfuInstances, EntryFault::MissingCapacity) => {
            proof { reveal_strlit("SUPERVISOR_SFU_INSTANCES entry requires max_rooms"); }
            "SUPERVISOR_SFU_INSTANCES entry requires max_rooms"
        },
        (EntryList::SupervisorSfuInstances, EntryFault::InvalidCapacity) => {
            proof { reveal_strlit("SUPERVISOR_SFU_INSTANCES max_rooms must be integer"); }
            "SUPERVISOR_SFU_INSTANCES max_rooms must be integer"
        },
        (EntryList::SfuCandidates, EntryFault::MissingInstanceId) => {
            proof { reveal_strlit("candidate instance_id is required"); }
            "candidate instance_id is required"
        },
        (EntryList::SfuCandidates, EntryFault::MissingGrpcAddr) => {
            proof { reveal_strlit("candidate grpc_addr is required"); }
            "candidate grpc_addr is required"
        },
        (EntryList::SfuCandidates, EntryFault::MissingCapacity) => {
            proof { reveal_strlit("candidate max_clients is required"); }
            "candidate max_clients is required"
        },
        (EntryList::SfuCandidates, EntryFault::InvalidCapacity) => {
            proof { reveal_strlit("candidate max_clients must be integer"); }
            "candidate max_clients must be integer"
        },
        _ => {
            proof { reveal_strlit(" entry is malformed"); }
            return String::from_str(list_setting_name(list)).concat(" entry is malformed");
        },
    };
    String::from_str(text)
}

/// The value of the variable `key`.
pub open spec fn env_value(vars: Seq<(String, String)>, key: Seq<char>) -> Option<Seq<char>> {
    lookup(pairs_view(vars), key)
}

/// A numeric setting: its value when set (none when that is not a number up to
/// `max`), `default` when unset.
pub open spec fn env_number(vars: Seq<(String, String)>, key: Seq<char>, default: nat, max: nat) -> Option<nat> {
    match env_value(vars, key) {
        Some(v) => parse_unsigned(v, max),
        None => Some(default),
    }
}

/// `env::var(key).unwrap_or(default)`.
pub fn env_or(vars: &Vec<(String, String)>, key: &str, default: &str) -> (r: String)
    ensures
        r@ == or_default(env_value(vars@, key@), default@),
{
    match get_field(vars, key) {
        Some(v) => v,
        None => String::from_str(default),
    }
}

/// A `u64` setting, `default` when unset.
pub fn u64_env_or(vars: &Vec<(String, String)>, key: &str, default: u64) -> (r: Result<u64, ConfigError>)
    ensures
        match r {
            Ok(n) => env_number(vars@, key@, default as nat, u64::MAX as nat) == Some(n as nat),
            Err(e) => env_number(vars@, key@, default as nat, u64::MAX as nat) is None && (e matches ConfigError::InvalidInteger { key: k, value: v } && k@ == key@ && env_value(vars@, key@) == Some(v@)),
        },
{
    match get_field(vars, key) {
        Some(v) => match parse_u64(v.as_str()) {
            Some(n) => Ok(n),
            None => Err(ConfigError::InvalidInteger { key: String::from_str(key), value: v }),
        },
        None => Ok(default),
    }
}

/// A `usize` setting, `default` when unset.
pub fn usize_env_or(vars: &Vec<(String, String)>, key: &str, default: usize) -> (r: Result<usize, ConfigError>)
    ensures
        match r {
            Ok(n) => env_number(vars@, key@, default as nat, usize::MAX as nat) == Some(n as nat),
            Err(e) => env_number(vars@, key@, default as nat, usize::MAX as nat) is None && (e matches ConfigError::InvalidInteger { key: k, value: v } && k@ == key@ && env_value(vars@, key@) == Some(v@)),
        },
{
    match get_field(vars, key) {
        Some(v) => match parse_usize(v.as_str()) {
            Some(n) => Ok(n),
            None => Err(ConfigError::InvalidInteger { key: String::from_str(key), value: v }),
        },
        None => Ok(default),
    }
}


/// The name of the setting an error is about.
pub open spec fn error_setting(e: ConfigError) -> Seq<char> {
    match e {
        ConfigError::InvalidInteger { key, .. } => key@,
        ConfigError::MalformedEntry { list, .. } => list_name(list),
    }
}

/// One inventory entry `instance_id|grpc_addr|capacity` read part by part: the id must
/// not be empty, the address must be present and not empty, and the capacity must be
/// present and a `u32`; parts after the third are ignored.
pub open spec fn inventory_entry(entry: Seq<char>) -> Result<(Seq<char>, Seq<char>, u32), EntryFault> {
    let parts = split_on(entry, '|');
    if parts[0].len() == 0 {
        Err(EntryFault::MissingInstanceId)
    } else if parts.len() < 2 || parts[1].len() == 0 {
        Err(EntryFault::MissingGrpcAddr)
    } else if parts.len() < 3 {
        Err(EntryFault::MissingCapacity)
    } else {
        match parse_unsigned(parts[2], u32::MAX as nat) {
            Some(n) => Ok((parts[0], parts[1], n as u32)),
            None => Err(EntryFault::InvalidCapacity),
        }
    }
}

/// The entries of an inventory list: its non-blank `;`-separated parts.
pub open spec fn inventory_entries(value: Seq<char>) -> Seq<Seq<char>> {
    non_blank(split_on(value, ';'))
}

/// Every entry of the inventory list `value` is well formed.
pub open spec fn inventory_ok(value: Seq<char>) -> bool {
    forall|i: int| 0 <= i < inventory_entries(value).len() ==> (#[trigger] inventory_entry(inventory_entries(value)[i])) is Ok
}

/// `fault` is the fault of the first malformed entry of `value`.
pub open spec fn first_inventory_fault(value: Seq<char>, fault: EntryFault) -> bool {
    exists|k: int| 0 <= k < inventory_entries(value).len()
        && inventory_entry(inventory_entries(value)[k]) == Err::<(Seq<char>, Seq<char>, u32), EntryFault>(fault)
        && forall|j: int| 0 <= j < k ==> (#[trigger] inventory_entry(inventory_entries(value)[j])) is Ok
}

/// `out` holds the parts of the well-formed `entry`, id and address trimmed when
/// `trim_parts`.
pub open spec fn entry_parsed(entry: Seq<char>, out: (String, String, u32), trim_parts: bool) -> bool {
    match inventory_entry(entry) {
        Ok((a, b, n)) => out.2 == n && if trim_parts {
            out.0@ == trim(a) && out.1@ == trim(b)
        } else {
            out.0@ == a && out.1@ == b
        },
        Err(_) => false,
    }
}

/// The parts of one inventory entry, untrimmed.
pub fn parse_inventory_entry(entry: &str) -> (r: Result<(String, String, u32), EntryFault>)
    ensures
        match r {
            Ok((a, b, n)) => inventory_entry(entry@) == Ok::<(Seq<char>, Seq<char>, u32), EntryFault>((a@, b@, n)),
            Err(f) => inventory_entry(entry@) == Err::<(Seq<char>, Seq<char>, u32), EntryFault>(f),
        },
{
    let parts = split_char(entry, '|');
    proof {
        assert(strings_view(parts@).len() == parts@.len());
    }
    if parts[0].as_str().unicode_len() == 0 {
        return Err(EntryFault::MissingInstanceId);
    }
    if parts.len() < 2 || parts[1].as_str().unicode_len() == 0 {
        return Err(EntryFault::MissingGrpcAddr);
    }
    if parts.len() < 3 {
        return Err(EntryFault::MissingCapacity);
    }
    match parse_u32(parts[2].as_str()) {
        Some(n) => Ok((parts[0].clone(), parts[1].clone(), n)),
        None => Err(EntryFault::InvalidCapacity),
    }
}

/// The well-formed entries of an inventory list, as `(instance_id, grpc_addr,
/// capacity)`, the id and address trimmed when `trim_parts`; the fault of the first
/// malformed entry otherwise.
pub fn parse_inventory(value: &str, trim_parts: bool) -> (r: Result<Vec<(String, String, u32)>, EntryFault>)
    ensures
        r is Ok <==> inventory_ok(value@),
        r matches Ok(v) ==> v@.len() == inventory_entries(value@).len() && forall|i: int| 0 <= i < v@.len() ==>
            entry_parsed(inventory_entries(value@)[i], #[trigger] v@[i], trim_parts),
        r matches Err(f) ==> first_inventory_fault(value@, f),
{
    let entries = non_blank_pieces(value, ';');
    let ghost ev = strings_view(entries@);
    let mut out: Vec<(String, String, u32)> = Vec::new();
    let mut i: usize = 0;
    while i < entries.len()
        invariant
            ev == strings_view(entries@),
            ev == inventory_entries(value@),
            i <= entries@.len(),
            out@.len() == i,
            forall|k: int| 0 <= k < i ==> entry_parsed(ev[k], #[trigger] out@[k], trim_parts),
        decreases entries.len() - i,
    {
        match parse_inventory_entry(entries[i].as_str()) {
            Ok((a, b, n)) => {
                if trim_parts {
                    out.push((trimmed(a.as_str()), trimmed(b.as_str()), n));
                } else {
                    out.push((a, b, n));
                }
            },
            Err(f) => {
                assert(first_inventory_fault(value@, f)) by {
                    assert forall|j: int| 0 <= j < i implies (#[trigger] inventory_entry(ev[j])) is Ok by {
                        assert(entry_parsed(ev[j], out@[j], trim_parts));
                    }
                    assert(inventory_entry(inventory_entries(value@)[i as int])
                        == Err::<(Seq<char>, Seq<char>, u32), EntryFault>(f));
                }
                return Err(f);
            },
        }
        i = i + 1;
    }
    assert(inventory_ok(value@)) by {
        assert forall|k: int| 0 <= k < ev.len() implies (#[trigger] inventory_entry(ev[k])) is Ok by {
            assert(entry_parsed(ev[k], out@[k], trim_parts));
        }
    }
    Ok(out)
}

} // verus!
