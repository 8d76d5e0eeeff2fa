//! What the storage operations compute around their reads and writes: the ids that a
//! key scan yields, the records that stored fields decode to, the fields a write
//! stores, and the SFU chosen for a new room.

use vstd::prelude::*;
use crate::text::{
    ends_with, filter_non_empty, has_suffix, non_empty, opt_view, or_default, str_eq,
    strings_view, strip_prefix, strip_prefix_of, strip_suffix, strip_suffix_of, unwrap_or_str,
};
use crate::decimal::{
    decimal, decimal_string, decimal_string_i64, lemma_parse_decimal_roundtrip,
    lemma_parse_signed_decimal_roundtrip, parse_i64, parse_i64_spec, parse_u16, parse_unsigned,
    signed_decimal,
};
use crate::fields::{field, get_field, lemma_lookup_at, load_for, load_of, pair, pairs_view};
use crate::select::{first_least, least_loaded};
use super::models::{
    RoomBinding, RoomBindingView, SfuCandidate, SfuInstance, SfuInstanceView, SupervisorStatus,
    SupervisorStatusView,
};
use crate::op_timeout::OpTimeout;
use super::keys::{
    spec_room_binding_key, spec_room_members_key, spec_session_key, spec_session_lock_key,
    BINDING_SUFFIX, LOCK_SUFFIX, MEMBERS_SUFFIX, ROOM_BINDING_PREFIX, SIGNALING_ROOM_PREFIX,
    SIGNALING_SESSION_PREFIX,
};

verus! {

/// Records the storage operation timeout; only the first call counts.
pub fn set_op_timeout(cell: &mut OpTimeout, value_ms: u64)
    ensures
        final(cell)@ == crate::op_timeout::spec_set(old(cell)@, value_ms),
{
    cell.set(value_ms);
}

/// The storage operation timeout in milliseconds.
pub fn op_timeout(cell: &OpTimeout) -> (r: u64)
    ensures
        r == crate::op_timeout::spec_get(cell@),
{
    cell.get()
}

/// Seconds since the Unix epoch now, as `clock::seconds_since_epoch` gives them for the
/// clock's reading; zero when the
/// clock reads before the epoch. Which value comes back depends on the clock.
pub fn unix_now() -> i64 {
    let now = crate::clock::system_now();
    let elapsed = match crate::clock::duration_since_epoch(&now) {
        Ok(d) => Some(crate::clock::whole_seconds(&d)),
        Err(_) => None,
    };
    crate::clock::seconds_since_epoch(elapsed)
}

// ── Key scans ────────────────────────────────────────────────────────────────

/// The id that a scanned key carries between `prefix` and `suffix`; keys ending in
/// `skip` carry none.
pub open spec fn scanned_id(
    key: Seq<char>,
    prefix: Seq<char>,
    suffix: Seq<char>,
    skip: Option<Seq<char>>,
) -> Option<Seq<char>> {
    if skip matches Some(k) && has_suffix(key, k) {
        None
    } else {
        match strip_prefix(key, prefix) {
            Some(rest) => strip_suffix(rest, suffix),
            None => None,
        }
    }
}

/// The ids that the scanned `keys` carry, in scan order.
pub open spec fn scanned_ids(
    keys: Seq<Seq<char>>,
    prefix: Seq<char>,
    suffix: Seq<char>,
    skip: Option<Seq<char>>,
) -> Seq<Seq<char>>
    decreases keys.len(),
{
    if keys.len() == 0 {
        Seq::empty()
    } else {
        scanned_ids(keys.drop_last(), prefix, suffix, skip) + match scanned_id(
            keys.last(),
            prefix,
            suffix,
            skip,
        ) {
            Some(id) => seq![id],
            None => Seq::empty(),
        }
    }
}

fn scanned_id_of(key: &str, prefix: &str, suffix: &str, skip: Option<&str>) -> (r: Option<String>)
    ensures
        opt_view(r) == scanned_id(
            key@,
            prefix@,
            suffix@,
            match skip {
                Some(k) => Some(k@),
                None => None,
            },
        ),
{
    if let Some(k) = skip {
        if ends_with(key, k) {
            return None;
        }
    }
    match strip_prefix_of(key, prefix) {
        Some(rest) => strip_suffix_of(rest.as_str(), suffix),
        None => None,
    }
}

/// The ids that the scanned `keys` carry between `prefix` and `suffix`, skipping keys
/// that end in `skip`.
pub fn ids_from_keys(keys: &Vec<String>, prefix: &str, suffix: &str, skip: Option<&str>) -> (r: Vec<String>)
    ensures
        strings_view(r@) == scanned_ids(
            strings_view(keys@),
            prefix@,
            suffix@,
            match skip {
                Some(k) => Some(k@),
                None => None,
            },
        ),
{
    let ghost sk = match skip {
        Some(k) => Some(k@),
        None => None,
    };
    let ghost kv = strings_view(keys@);
    let mut out: Vec<String> = Vec::new();
    let mut i: usize = 0;
    while i < keys.len()
        invariant
            kv == strings_view(keys@),
            sk == match skip {
                Some(k) => Some(k@),
                None => None::<Seq<char>>,
            },
            i <= keys@.len(),
            strings_view(out@) == scanned_ids(kv.take(i as int), prefix@, suffix@, sk),
        decreases keys.len() - i,
    {
        let id = scanned_id_of(keys[i].as_str(), prefix, suffix, skip);
        let ghost before = out@;
        assert(kv.take(i + 1).drop_last() =~= kv.take(i as int));
        assert(kv.take(i + 1).last() == keys@[i as int]@);
        match id {
            Some(x) => {
                out.push(x);
                assert(strings_view(out@) =~= strings_view(before) + seq![out@.last()@]);
            },
            None => {
                assert(strings_view(out@) =~= strings_view(before) + Seq::<Seq<char>>::empty());
            },
        }
        i = i + 1;
    }
    assert(kv.take(i as int) =~= kv);
    out
}

/// The session ids that a scan of session keys finds; lock keys are skipped.
pub fn session_ids_from_scan(keys: &Vec<String>) -> (r: Vec<String>)
    ensures
        strings_view(r@) == scanned_ids(
            strings_view(keys@),
            SIGNALING_SESSION_PREFIX@,
            Seq::empty(),
            Some(LOCK_SUFFIX@),
        ),
{
    proof {
        reveal_strlit("");
        assert(""@ =~= Seq::<char>::empty());
    }
    ids_from_keys(keys, SIGNALING_SESSION_PREFIX, "", Some(LOCK_SUFFIX))
}

/// The room ids that a scan of room member-set keys finds.
pub fn room_ids_from_member_scan(keys: &Vec<String>) -> (r: Vec<String>)
    ensures
        strings_view(r@) == scanned_ids(
            strings_view(keys@),
            SIGNALING_ROOM_PREFIX@,
            MEMBERS_SUFFIX@,
            None,
        ),
{
    ids_from_keys(keys, SIGNALING_ROOM_PREFIX, MEMBERS_SUFFIX, None)
}

/// The room ids that a scan of room binding keys finds.
pub fn room_ids_from_binding_scan(keys: &Vec<String>) -> (r: Vec<String>)
    ensures
        strings_view(r@) == scanned_ids(
            strings_view(keys@),
            ROOM_BINDING_PREFIX@,
            BINDING_SUFFIX@,
            None,
        ),
{
    ids_from_keys(keys, ROOM_BINDING_PREFIX, BINDING_SUFFIX, None)
}

/// A scan gives back the id that a key was built from: room member-set and binding
/// keys always, session keys unless the key itself ends like a lock key; lock keys
/// give nothing.
pub proof fn law_scan_recovers_ids(id: Seq<char>)
    ensures
        scanned_id(spec_room_members_key(id), SIGNALING_ROOM_PREFIX@, MEMBERS_SUFFIX@, None)
            == Some(id),
        scanned_id(spec_room_binding_key(id), ROOM_BINDING_PREFIX@, BINDING_SUFFIX@, None)
            == Some(id),
        !has_suffix(spec_session_key(id), LOCK_SUFFIX@) ==> scanned_id(
            spec_session_key(id),
            SIGNALING_SESSION_PREFIX@,
            Seq::empty(),
            Some(LOCK_SUFFIX@),
        ) == Some(id),
        scanned_id(
            spec_session_lock_key(id),
            SIGNALING_SESSION_PREFIX@,
            Seq::empty(),
            Some(LOCK_SUFFIX@),
        ) is None,
{
    let m = spec_room_members_key(id);
    assert(m.subrange(0, SIGNALING_ROOM_PREFIX@.len() as int) =~= SIGNALING_ROOM_PREFIX@);
    let rest = m.subrange(SIGNALING_ROOM_PREFIX@.len() as int, m.len() as int);
    assert(rest =~= id + MEMBERS_SUFFIX@);
    assert(rest.subrange(rest.len() - MEMBERS_SUFFIX@.len(), rest.len() as int) =~= MEMBERS_SUFFIX@);
    assert(rest.subrange(0, rest.len() - MEMBERS_SUFFIX@.len()) =~= id);

    let b = spec_room_binding_key(id);
    assert(b.subrange(0, ROOM_BINDING_PREFIX@.len() as int) =~= ROOM_BINDING_PREFIX@);
    let rest2 = b.subrange(ROOM_BINDING_PREFIX@.len() as int, b.len() as int);
    assert(rest2 =~= id + BINDING_SUFFIX@);
    assert(rest2.subrange(rest2.len() - BINDING_SUFFIX@.len(), rest2.len() as int) =~= BINDING_SUFFIX@);
    assert(rest2.subrange(0, rest2.len() - BINDING_SUFFIX@.len()) =~= id);

    let s = spec_session_key(id);
    assert(s.subrange(0, SIGNALING_SESSION_PREFIX@.len() as int) =~= SIGNALING_SESSION_PREFIX@);
    let rest3 = s.subrange(SIGNALING_SESSION_PREFIX@.len() as int, s.len() as int);
    assert(rest3 =~= id);
    assert(rest3.subrange(rest3.len() - 0, rest3.len() as int) =~= Seq::<char>::empty());
    assert(rest3.subrange(0, rest3.len() - 0) =~= id);

    let l = spec_session_lock_key(id);
    assert(l.subrange(l.len() - LOCK_SUFFIX@.len(), l.len() as int) =~= LOCK_SUFFIX@);
}


// ── Stored fields ────────────────────────────────────────────────────────────

pub const FIELD_LAST_SEEN_UNIX: &'static str = "last_seen_unix";
pub const FIELD_INSTANCE_ID: &'static str = "instance_id";
pub const FIELD_OWNER_HOST: &'static str = "owner_host";
pub const FIELD_OWNER_PORT: &'static str = "owner_port";
pub const FIELD_SIGNALING_OWNER_ID: &'static str = "signaling_owner_id";
pub const FIELD_ROOM_STATE: &'static str = "room_state";
pub const FIELD_SFU_INSTANCE_ID: &'static str = "sfu_instance_id";
pub const FIELD_SFU_GRPC_ADDR: &'static str = "sfu_grpc_addr";

/// Room state of a room bound to an SFU.
pub const ROOM_STATE_ACTIVE: &'static str = "active";
/// State of an SFU that answers pings.
pub const SFU_STATE_READY: &'static str = "ready";
/// State of an inventory SFU not yet probed.
pub const SFU_STATE_UNKNOWN: &'static str = "unknown";
/// Seconds since its last ping within which an SFU may take a new room.
pub const SFU_PING_FRESH_SECS: i64 = 30;

/// The port that a stored `owner_port` field gives: its number, zero when absent or
/// not a port number.
pub open spec fn stored_port(v: Option<Seq<char>>) -> u16 {
    match v {
        Some(t) => match parse_unsigned(t, 65535) {
            Some(p) => p as u16,
            None => 0,
        },
        None => 0,
    }
}

/// The supervisor status that the heartbeat hash `fields` decodes to.
pub open spec fn spec_supervisor_status(fields: Seq<(String, String)>) -> Option<SupervisorStatusView> {
    if fields.len() == 0 {
        None
    } else {
        Some(SupervisorStatusView {
            last_seen_unix: match field(fields, FIELD_LAST_SEEN_UNIX@) {
                Some(v) => match parse_i64_spec(v) {
                    Some(n) => n as i64,
                    None => 0,
                },
                None => 0,
            },
            instance_id: non_empty(field(fields, FIELD_INSTANCE_ID@)),
        })
    }
}

/// Decodes the supervisor heartbeat hash (`read_supervisor_status`): nothing for an
/// empty hash; an unreadable time reads as zero and an empty instance id as none.
pub fn supervisor_status_from_fields(fields: &Vec<(String, String)>) -> (r: Option<SupervisorStatus>)
    ensures
        r matches Some(x) ==> spec_supervisor_status(fields@) == Some(x@),
        r is None <==> spec_supervisor_status(fields@) is None,
{
    if fields.len() == 0 {
        return None;
    }
    let last_seen_unix = match get_field(fields, FIELD_LAST_SEEN_UNIX) {
        Some(v) => match parse_i64(v.as_str()) {
            Some(n) => n,
            None => 0,
        },
        None => 0,
    };
    let instance_id = filter_non_empty(get_field(fields, FIELD_INSTANCE_ID));
    Some(SupervisorStatus { last_seen_unix, instance_id })
}

/// The fields that a supervisor heartbeat stores.
pub open spec fn heartbeat_pairs(instance_id: Option<Seq<char>>, now_unix: i64) -> Seq<(Seq<char>, Seq<char>)> {
    seq![
        (FIELD_LAST_SEEN_UNIX@, signed_decimal(now_unix as int)),
        (FIELD_INSTANCE_ID@, or_default(instance_id, Seq::empty())),
    ]
}

/// The fields that `write_supervisor_heartbeat` stores.
pub fn heartbeat_fields(instance_id: Option<&str>, now_unix: i64) -> (r: Vec<(String, String)>)
    ensures
        pairs_view(r@) == heartbeat_pairs(
            match instance_id {
                Some(s) => Some(s@),
                None => None,
            },
            now_unix,
        ),
{
    let id = match instance_id {
        Some(s) => String::from_str(s),
        None => String::new(),
    };
    let mut r: Vec<(String, String)> = Vec::new();
    r.push(pair(FIELD_LAST_SEEN_UNIX, decimal_string_i64(now_unix)));
    r.push(pair(FIELD_INSTANCE_ID, id));
    assert(pairs_view(r@) =~= heartbeat_pairs(
        match instance_id {
            Some(s) => Some(s@),
            None => None,
        },
        now_unix,
    ));
    r
}

/// Reading the heartbeat hash gives back what the last heartbeat wrote: its time,
/// and its instance id unless that was absent or empty.
pub proof fn law_heartbeat_read_after_write(
    fields: Seq<(String, String)>,
    instance_id: Option<Seq<char>>,
    now_unix: i64,
)
    requires
        pairs_view(fields) == heartbeat_pairs(instance_id, now_unix),
    ensures
        spec_supervisor_status(fields) == Some(SupervisorStatusView {
            last_seen_unix: now_unix,
            instance_id: non_empty(instance_id),
        }),
{
    let p = pairs_view(fields);
    reveal_strlit("last_seen_unix");
    reveal_strlit("instance_id");
    assert(fields.len() == 2) by {
        assert(p.len() == fields.len());
    }
    lemma_lookup_at(p, FIELD_LAST_SEEN_UNIX@, 0);
    assert(p[0].0 != FIELD_INSTANCE_ID@) by {
        assert(p[0].0.len() != FIELD_INSTANCE_ID@.len());
    }
    lemma_lookup_at(p, FIELD_INSTANCE_ID@, 1);
    lemma_parse_signed_decimal_roundtrip(now_unix as int);
    assert(non_empty(Some(or_default(instance_id, Seq::empty()))) == non_empty(instance_id));
}

/// The room binding that the binding hash `fields` of `room_id` decodes to; a missing
/// room state reads as `default_state`.
pub open spec fn spec_room_binding(
    room_id: Seq<char>,
    fields: Seq<(String, String)>,
    default_state: Seq<char>,
) -> Option<RoomBindingView> {
    if fields.len() == 0 {
        None
    } else {
        Some(RoomBindingView {
            room_id,
            owner_id: or_default(field(fields, FIELD_SIGNALING_OWNER_ID@), Seq::empty()),
            owner_host: or_default(field(fields, FIELD_OWNER_HOST@), Seq::empty()),
            owner_port: stored_port(field(fields, FIELD_OWNER_PORT@)),
            state: or_default(field(fields, FIELD_ROOM_STATE@), default_state),
            sfu_instance_id: non_empty(field(fields, FIELD_SFU_INSTANCE_ID@)),
            sfu_grpc_addr: non_empty(field(fields, FIELD_SFU_GRPC_ADDR@)),
        })
    }
}

/// Decodes a room binding hash (`get_room_assignment`): nothing for an empty hash;
/// absent names read as empty, an unreadable port as zero, a missing state as
/// `default_state`, and empty SFU fields as none.
pub fn room_binding_from_fields(
    room_id: &str,
    fields: &Vec<(String, String)>,
    default_state: &str,
) -> (r: Option<RoomBinding>)
    ensures
        r matches Some(x) ==> spec_room_binding(room_id@, fields@, default_state@) == Some(x@),
        r is None <==> spec_room_binding(room_id@, fields@, default_state@) is None,
{
    if fields.len() == 0 {
        return None;
    }
    let owner_host = unwrap_or_str(get_field(fields, FIELD_OWNER_HOST), "");
    let owner_port = match get_field(fields, FIELD_OWNER_PORT) {
        Some(v) => match parse_u16(v.as_str()) {
            Some(p) => p,
            None => 0,
        },
        None => 0,
    };
    let owner_id = unwrap_or_str(get_field(fields, FIELD_SIGNALING_OWNER_ID), "");
    let state = unwrap_or_str(get_field(fields, FIELD_ROOM_STATE), default_state);
    let sfu_instance_id = filter_non_empty(get_field(fields, FIELD_SFU_INSTANCE_ID));
    let sfu_grpc_addr = filter_non_empty(get_field(fields, FIELD_SFU_GRPC_ADDR));
    proof {
        reveal_strlit("");
        assert(""@ =~= Seq::<char>::empty());
    }
    Some(RoomBinding {
        room_id: String::from_str(room_id),
        owner_id,
        owner_host,
        owner_port,
        state,
        sfu_instance_id,
        sfu_grpc_addr,
    })
}

/// The fields that binding a room to an SFU stores.
pub open spec fn binding_pairs(
    owner_host: Seq<char>,
    owner_port: u16,
    owner_id: Seq<char>,
    sfu_instance_id: Seq<char>,
    sfu_grpc_addr: Seq<char>,
) -> Seq<(Seq<char>, Seq<char>)> {
    seq![
        (FIELD_OWNER_HOST@, owner_host),
        (FIELD_OWNER_PORT@, decimal(owner_port as nat)),
        (FIELD_SIGNALING_OWNER_ID@, owner_id),
        (FIELD_ROOM_STATE@, ROOM_STATE_ACTIVE@),
        (FIELD_SFU_INSTANCE_ID@, sfu_instance_id),
        (FIELD_SFU_GRPC_ADDR@, sfu_grpc_addr),
    ]
}

/// The fields that `assign_room_to_instance` stores for a room.
pub fn binding_fields(
    signaling_owner_id: &str,
    signaling_owner_host: &str,
    signaling_owner_port: u16,
    instance: &SfuInstance,
) -> (r: Vec<(String, String)>)
    ensures
        pairs_view(r@) == binding_pairs(
            signaling_owner_host@,
            signaling_owner_port,
            signaling_owner_id@,
            instance.instance_id@,
            instance.grpc_addr@,
        ),
{
    let mut r: Vec<(String, String)> = Vec::new();
    r.push(pair(FIELD_OWNER_HOST, String::from_str(signaling_owner_host)));
    r.push(pair(FIELD_OWNER_PORT, decimal_string(signaling_owner_port as u64)));
    r.push(pair(FIELD_SIGNALING_OWNER_ID, String::from_str(signaling_owner_id)));
    r.push(pair(FIELD_ROOM_STATE, String::from_str(ROOM_STATE_ACTIVE)));
    r.push(pair(FIELD_SFU_INSTANCE_ID, instance.instance_id.clone()));
    r.push(pair(FIELD_SFU_GRPC_ADDR, instance.grpc_addr.clone()));
    assert(pairs_view(r@) =~= binding_pairs(
        signaling_owner_host@,
        signaling_owner_port,
        signaling_owner_id@,
        instance.instance_id@,
        instance.grpc_addr@,
    ));
    r
}

/// Reading a room's binding gives back what binding it wrote: owner, host, port, the
/// active state, and the SFU's id and address (none where they were empty).
pub proof fn law_binding_read_after_write(
    room_id: Seq<char>,
    fields: Seq<(String, String)>,
    default_state: Seq<char>,
    owner_host: Seq<char>,
    owner_port: u16,
    owner_id: Seq<char>,
    sfu_instance_id: Seq<char>,
    sfu_grpc_addr: Seq<char>,
)
    requires
        pairs_view(fields) == binding_pairs(owner_host, owner_port, owner_id, sfu_instance_id, sfu_grpc_addr),
    ensures
        spec_room_binding(room_id, fields, default_state) == Some(RoomBindingView {
            room_id,
            owner_id,
            owner_host,
            owner_port,
            state: ROOM_STATE_ACTIVE@,
            sfu_instance_id: non_empty(Some(sfu_instance_id)),
            sfu_grpc_addr: non_empty(Some(sfu_grpc_addr)),
        }),
{
    let p = pairs_view(fields);
    assert(fields.len() == 6) by {
        assert(p.len() == fields.len());
    }
    reveal_strlit("owner_host");
    reveal_strlit("owner_port");
    reveal_strlit("signaling_owner_id");
    reveal_strlit("room_state");
    reveal_strlit("sfu_instance_id");
    reveal_strlit("sfu_grpc_addr");
    let k = seq![
        FIELD_OWNER_HOST@,
        FIELD_OWNER_PORT@,
        FIELD_SIGNALING_OWNER_ID@,
        FIELD_ROOM_STATE@,
        FIELD_SFU_INSTANCE_ID@,
        FIELD_SFU_GRPC_ADDR@,
    ];
    assert forall|i: int, j: int| 0 <= i < 6 && 0 <= j < 6 && i != j implies #[trigger] k[i] != #[trigger] k[j] by {
        if k[i].len() == k[j].len() {
            assert(k[i][0] != k[j][0] || k[i][6] != k[j][6]);
        }
    }
    assert forall|i: int| 0 <= i < 6 implies p[i].0 == #[trigger] k[i] by {}
    lemma_lookup_at(p, k[0], 0);
    lemma_lookup_at(p, k[1], 1);
    lemma_lookup_at(p, k[2], 2);
    lemma_lookup_at(p, k[3], 3);
    lemma_lookup_at(p, k[4], 4);
    lemma_lookup_at(p, k[5], 5);
    lemma_parse_decimal_roundtrip(owner_port as nat, 65535);
}

// ── SFU inventory ────────────────────────────────────────────────────────────

/// The record that seeding stores for `candidate`: the stored record with the
/// candidate's address and capacity, or a fresh, not yet probed record idle since `now`.
pub open spec fn spec_seeded_instance(
    candidate: SfuCandidate,
    existing: Option<SfuInstanceView>,
    now: i64,
) -> SfuInstanceView {
    match existing {
        Some(inst) => SfuInstanceView {
            grpc_addr: candidate.grpc_addr@,
            max_rooms: candidate.max_rooms,
            ..inst
        },
        None => SfuInstanceView {
            instance_id: candidate.instance_id@,
            grpc_addr: candidate.grpc_addr@,
            max_rooms: candidate.max_rooms,
            alive: false,
            state: SFU_STATE_UNKNOWN@,
            last_ping_unix: 0,
            idle_since_unix: now,
        },
    }
}

/// The record that `seed_sfu_inventory` stores for one inventory candidate.
pub fn seeded_instance(candidate: &SfuCandidate, existing: Option<SfuInstance>, now: i64) -> (r: SfuInstance)
    ensures
        r@ == spec_seeded_instance(
            *candidate,
            match existing {
                Some(i) => Some(i@),
                None => None,
            },
            now,
        ),
{
    match existing {
        Some(mut instance) => {
            instance.grpc_addr = candidate.grpc_addr.clone();
            instance.max_rooms = candidate.max_rooms;
            instance
        },
        None => SfuInstance {
            instance_id: candidate.instance_id.clone(),
            grpc_addr: candidate.grpc_addr.clone(),
            max_rooms: candidate.max_rooms,
            alive: false,
            state: String::from_str(SFU_STATE_UNKNOWN),
            last_ping_unix: 0,
            idle_since_unix: now,
        },
    }
}

/// The record after a health probe: liveness as probed; a live SFU also gets the
/// probe time as its last ping and the ready state.
pub open spec fn spec_with_health(inst: SfuInstanceView, alive: bool, now: i64) -> SfuInstanceView {
    if alive {
        SfuInstanceView { alive, last_ping_unix: now, state: SFU_STATE_READY@, ..inst }
    } else {
        SfuInstanceView { alive, ..inst }
    }
}

/// The record that `update_sfu_health` stores after a probe.
pub fn with_health(instance: SfuInstance, alive: bool, now: i64) -> (r: SfuInstance)
    ensures
        r@ == spec_with_health(instance@, alive, now),
{
    let mut instance = instance;
    instance.alive = alive;
    if alive {
        instance.last_ping_unix = now;
        instance.state = String::from_str(SFU_STATE_READY);
    }
    instance
}

/// The room load after one room closes: one less, never below zero.
pub open spec fn spec_load_after_close(current: u64) -> u64 {
    if current <= 1 {
        0
    } else {
        (current - 1) as u64
    }
}

/// The room load that `decrement_sfu_room_load` stores.
pub fn load_after_close(current: u64) -> (r: u64)
    ensures
        r == spec_load_after_close(current),
{
    if current <= 1 {
        0
    } else {
        current - 1
    }
}

/// An SFU may take a new room: it is alive, pinged within the last thirty seconds,
/// ready, and below its room capacity.
pub open spec fn sfu_eligible(inst: SfuInstanceView, load: u64, now: i64) -> bool {
    &&& inst.alive
    &&& now - inst.last_ping_unix <= SFU_PING_FRESH_SECS
    &&& inst.state == SFU_STATE_READY@
    &&& load < inst.max_rooms
}

pub open spec fn sfu_eligibility(instances: Seq<SfuInstance>, loads: Seq<(String, u64)>, now: i64) -> Seq<bool> {
    Seq::new(
        instances.len(),
        |i: int| sfu_eligible(instances[i]@, load_of(loads, instances[i].instance_id@), now),
    )
}

pub open spec fn sfu_loads(instances: Seq<SfuInstance>, loads: Seq<(String, u64)>) -> Seq<u64> {
    Seq::new(instances.len(), |i: int| load_of(loads, instances[i].instance_id@))
}

/// `inst` may take a new room now.
pub fn is_sfu_eligible(inst: &SfuInstance, load: u64, now: i64) -> (r: bool)
    ensures
        r == sfu_eligible(inst@, load, now),
{
    inst.alive && (now as i128) - (inst.last_ping_unix as i128) <= SFU_PING_FRESH_SECS as i128
        && str_eq(inst.state.as_str(), SFU_STATE_READY) && load < inst.max_rooms as u64
}

/// The SFU for a new room (`select_least_loaded_instance`): of the SFUs that may take
/// one, the least loaded, the first listed on ties; none when no SFU may.
pub fn select_least_loaded_instance(
    instances: Vec<SfuInstance>,
    loads: &Vec<(String, u64)>,
    now: i64,
) -> (r: Option<SfuInstance>)
    ensures
        r == match least_loaded(sfu_eligibility(instances@, loads@, now), sfu_loads(instances@, loads@)) {
            Some(i) => Some(instances@[i]),
            None => None::<SfuInstance>,
        },
{
    let mut instances = instances;
    let mut eligible: Vec<bool> = Vec::new();
    let mut load: Vec<u64> = Vec::new();
    let mut i: usize = 0;
    while i < instances.len()
        invariant
            i <= instances@.len(),
            eligible@ == sfu_eligibility(instances@, loads@, now).take(i as int),
            load@ == sfu_loads(instances@, loads@).take(i as int),
        decreases instances.len() - i,
    {
        let l = load_for(loads, instances[i].instance_id.as_str());
        let e = is_sfu_eligible(&instances[i], l, now);
        eligible.push(e);
        load.push(l);
        i = i + 1;
        assert(eligible@ =~= sfu_eligibility(instances@, loads@, now).take(i as int));
        assert(load@ =~= sfu_loads(instances@, loads@).take(i as int));
    }
    assert(eligible@ =~= sfu_eligibility(instances@, loads@, now));
    assert(load@ =~= sfu_loads(instances@, loads@));
    match first_least(&eligible, &load) {
        Some(k) => Some(instances.remove(k)),
        None => None,
    }
}

} // verus!
