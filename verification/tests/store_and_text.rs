use callifornia::control_store::keys::{nick_key, room_binding_key, room_members_key, session_key, session_lock_key};
use callifornia::control_store::models::{RoomBinding, SfuCandidate, SfuInstance, SupervisorStatus};
use callifornia::control_store::storage::{
    binding_fields, heartbeat_fields, ids_from_keys, is_sfu_eligible, load_after_close, op_timeout,
    room_binding_from_fields, room_ids_from_binding_scan, room_ids_from_member_scan, seeded_instance,
    select_least_loaded_instance, session_ids_from_scan, set_op_timeout, supervisor_status_from_fields, unix_now,
    with_health,
};
use callifornia::decimal::{
    decimal_string, decimal_string_i64, parse_i64, parse_u16, parse_u32, parse_u64, parse_unsigned_str, parse_usize,
};
use callifornia::fields::{get_field, load_for};
use callifornia::op_timeout::OpTimeout;
use callifornia::select::first_least;
use callifornia::text::{
    concat3, ends_with, filter_non_empty, is_blank, non_blank_pieces, split_char, split_once_char, starts_with,
    str_eq, strip_prefix_of, strip_suffix_of, substring, trimmed, unwrap_or_str,
};

fn pairs(v: &[(&str, &str)]) -> Vec<(String, String)> {
    v.iter().map(|(a, b)| (a.to_string(), b.to_string())).collect()
}

fn sfu(id: &str, max_rooms: u32, alive: bool, state: &str, last_ping: i64) -> SfuInstance {
    SfuInstance {
        instance_id: id.to_string(),
        grpc_addr: format!("http://{id}:50051"),
        max_rooms,
        alive,
        state: state.to_string(),
        last_ping_unix: last_ping,
        idle_since_unix: 0,
    }
}

#[test]
fn text_helpers() {
    assert_eq!(trimmed("  a b \n"), "a b");
    assert_eq!(trimmed("\u{3000}x\u{a0}"), "x");
    assert!(is_blank(" \t"));
    assert!(str_eq("abc", "abc") && !str_eq("abc", "abd"));
    assert!(starts_with("signaling:room:1", "signaling:"));
    assert!(ends_with("x:lock", ":lock"));
    assert_eq!(strip_prefix_of("room:1", "room:"), Some("1".to_string()));
    assert_eq!(strip_suffix_of("1:members", ":binding"), None);
    assert_eq!(substring("héllo", 1, 3), "él");
    assert_eq!(concat3("a", "b", "c"), "abc");
    assert_eq!(split_char("a,,b", ','), vec!["a", "", "b"]);
    assert_eq!(split_once_char("k=v=w", '='), Some(("k".to_string(), "v=w".to_string())));
    assert_eq!(split_once_char("kv", '='), None);
    assert_eq!(non_blank_pieces("a, ,b,", ','), vec!["a", "b"]);
    assert_eq!(filter_non_empty(Some(String::new())), None);
    assert_eq!(unwrap_or_str(None, "d"), "d");
}

#[test]
fn decimal_parsing_and_rendering() {
    assert_eq!(parse_u64("+42"), Some(42));
    assert_eq!(parse_u64(" 42"), None);
    assert_eq!(parse_u64(""), None);
    assert_eq!(parse_u64("18446744073709551615"), Some(u64::MAX));
    assert_eq!(parse_u64("18446744073709551616"), None);
    assert_eq!(parse_u32("4294967296"), None);
    assert_eq!(parse_u16("65535"), Some(65535));
    assert_eq!(parse_usize("7"), Some(7));
    assert_eq!(parse_unsigned_str("12", 10), None);
    assert_eq!(parse_i64("-9223372036854775808"), Some(i64::MIN));
    assert_eq!(parse_i64("-"), None);
    assert_eq!(parse_i64("+5"), Some(5));
    assert_eq!(decimal_string(0), "0");
    assert_eq!(decimal_string(1234567), "1234567");
    assert_eq!(decimal_string_i64(-42), "-42");
}

#[test]
fn law_parse_decimal_roundtrip_example() {
    for n in [0u64, 9, 10, 65535, u64::MAX] {
        assert_eq!(parse_u64(&decimal_string(n)), Some(n));
        assert_eq!(decimal_string(n), n.to_string());
    }
    for n in [i64::MIN, -1, 0, 77, i64::MAX] {
        assert_eq!(parse_i64(&decimal_string_i64(n)), Some(n));
    }
}

#[test]
fn field_lookup_and_loads() {
    let f = pairs(&[("a", "1"), ("b", "2"), ("a", "3")]);
    assert_eq!(get_field(&f, "a"), Some("1".to_string()));
    assert_eq!(get_field(&f, "c"), None);
    let loads = vec![("s1".to_string(), 4u64), ("s1".to_string(), 9u64)];
    assert_eq!(load_for(&loads, "s1"), 4);
    assert_eq!(load_for(&loads, "s2"), 0);
    assert_eq!(first_least(&vec![true, false, true, true], &vec![5, 0, 3, 3]), Some(2));
    assert_eq!(first_least(&vec![false], &vec![0]), None);
}

#[test]
fn law_first_timeout_wins_example() {
    let mut cell = OpTimeout::new();
    assert_eq!(op_timeout(&cell), 2000);
    set_op_timeout(&mut cell, 800);
    set_op_timeout(&mut cell, 5000);
    assert_eq!(op_timeout(&cell), 800);
    assert_eq!(cell.get(), 800);
}

#[test]
fn store_keys() {
    assert_eq!(session_key("s1"), "signaling:session:s1");
    assert_eq!(session_lock_key("s1"), "signaling:session:s1:lock");
    assert_eq!(nick_key("bob"), "signaling:nick:bob");
    assert_eq!(room_members_key("r1"), "signaling:room:r1:members");
    assert_eq!(room_binding_key("r1"), "room:r1:binding");
}

#[test]
fn law_keys_injective_example() {
    assert_ne!(session_key("a"), session_key("b"));
    assert_ne!(room_binding_key("a"), room_binding_key("ab"));
}

#[test]
fn key_scans() {
    let keys = vec![session_key("s1"), session_lock_key("s1"), session_key("s2"), "other:x".to_string()];
    assert_eq!(session_ids_from_scan(&keys), vec!["s1", "s2"]);
    assert_eq!(room_ids_from_member_scan(&vec![room_members_key("r1"), "signaling:room:r2:meta".to_string()]), vec!["r1"]);
    assert_eq!(room_ids_from_binding_scan(&vec![room_binding_key("r3")]), vec!["r3"]);
    assert_eq!(ids_from_keys(&vec!["p-1-s".to_string()], "p-", "-s", Some("x")), vec!["1"]);
}

#[test]
fn law_scan_recovers_ids_example() {
    for id in ["r1", "", "a:b"] {
        assert_eq!(room_ids_from_member_scan(&vec![room_members_key(id)]), vec![id]);
        assert_eq!(room_ids_from_binding_scan(&vec![room_binding_key(id)]), vec![id]);
        assert_eq!(session_ids_from_scan(&vec![session_key(id)]), vec![id]);
        assert!(session_ids_from_scan(&vec![session_lock_key(id)]).is_empty());
    }
}

#[test]
fn law_heartbeat_read_after_write_example() {
    let f = heartbeat_fields(Some("sup-1"), -17);
    assert_eq!(f, pairs(&[("last_seen_unix", "-17"), ("instance_id", "sup-1")]));
    assert_eq!(
        supervisor_status_from_fields(&f),
        Some(SupervisorStatus { last_seen_unix: -17, instance_id: Some("sup-1".to_string()) })
    );
    let g = heartbeat_fields(None, 5);
    assert_eq!(supervisor_status_from_fields(&g), Some(SupervisorStatus { last_seen_unix: 5, instance_id: None }));
    assert_eq!(supervisor_status_from_fields(&Vec::new()), None);
    assert_eq!(
        supervisor_status_from_fields(&pairs(&[("last_seen_unix", "x")])),
        Some(SupervisorStatus { last_seen_unix: 0, instance_id: None })
    );
}

#[test]
fn law_binding_read_after_write_example() {
    let inst = sfu("sfu-a", 10, true, "ready", 0);
    let f = binding_fields("node-1", "10.0.0.1", 8080, &inst);
    let b = room_binding_from_fields("r1", &f, "allocating").unwrap();
    assert_eq!(
        b,
        RoomBinding {
            room_id: "r1".into(),
            owner_id: "node-1".into(),
            owner_host: "10.0.0.1".into(),
            owner_port: 8080,
            state: "active".into(),
            sfu_instance_id: Some("sfu-a".into()),
            sfu_grpc_addr: Some("http://sfu-a:50051".into()),
        }
    );
    let partial = room_binding_from_fields("r2", &pairs(&[("owner_port", "99999"), ("sfu_grpc_addr", "")]), "allocating").unwrap();
    assert_eq!(partial.owner_port, 0);
    assert_eq!(partial.state, "allocating");
    assert_eq!(partial.sfu_grpc_addr, None);
    assert_eq!(room_binding_from_fields("r3", &Vec::new(), "x"), None);
}

#[test]
fn sfu_records() {
    let cand = SfuCandidate { instance_id: "s".into(), grpc_addr: "new".into(), max_rooms: 7 };
    let fresh = seeded_instance(&cand, None, 100);
    assert_eq!((fresh.alive, fresh.state.as_str(), fresh.idle_since_unix, fresh.max_rooms), (false, "unknown", 100, 7));
    let old = sfu("s", 2, true, "ready", 50);
    let seeded = seeded_instance(&cand, Some(old), 100);
    assert_eq!((seeded.grpc_addr.as_str(), seeded.max_rooms, seeded.alive, seeded.last_ping_unix), ("new", 7, true, 50));
    let up = with_health(sfu("s", 1, false, "unknown", 0), true, 77);
    assert_eq!((up.alive, up.last_ping_unix, up.state.as_str()), (true, 77, "ready"));
    let down = with_health(sfu("s", 1, true, "ready", 10), false, 77);
    assert_eq!((down.alive, down.last_ping_unix, down.state.as_str()), (false, 10, "ready"));
    assert_eq!(load_after_close(0), 0);
    assert_eq!(load_after_close(1), 0);
    assert_eq!(load_after_close(5), 4);
}

#[test]
fn least_loaded_sfu_selection() {
    let now = 1000;
    let instances = vec![
        sfu("a", 5, true, "ready", 990),
        sfu("b", 5, true, "ready", 995),
        sfu("c", 5, false, "ready", 999),
        sfu("d", 5, true, "ready", 900),
        sfu("e", 1, true, "ready", 999),
        sfu("f", 5, true, "starting", 999),
    ];
    let loads = vec![("a".to_string(), 3u64), ("b".to_string(), 1u64), ("e".to_string(), 1u64)];
    assert!(is_sfu_eligible(&instances[0], 3, now));
    assert!(!is_sfu_eligible(&instances[3], 0, now));
    assert!(!is_sfu_eligible(&instances[4], 1, now));
    assert_eq!(select_least_loaded_instance(instances.clone(), &loads, now).unwrap().instance_id, "b");
    let tie = vec![sfu("x", 5, true, "ready", now), sfu("y", 5, true, "ready", now)];
    assert_eq!(select_least_loaded_instance(tie, &Vec::new(), now).unwrap().instance_id, "x");
    assert_eq!(select_least_loaded_instance(vec![sfu("z", 0, true, "ready", now)], &Vec::new(), now), None);
}

#[test]
fn clock_reads_after_epoch() {
    assert!(unix_now() > 1_600_000_000);
}
