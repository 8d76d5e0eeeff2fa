use callifornia::services::room_manager::health::{health_step, HealthAction, HealthOp, HealthReply, HealthStage};
use callifornia::services::supervisor::janitor::{dead_sfu_step, janitor_step, DeadSfuStage, JanitorAction, JanitorOp, JanitorReply, JanitorStage};
use callifornia::services::supervisor::config::SignalingAdminInstance;
use callifornia::clock::seconds_since_epoch;
use callifornia::control_store::models::RoomBinding;
use callifornia::env::{ConfigError, EntryFault, EntryList};
use callifornia::op_timeout::OpTimeout;
use callifornia::room_manager::config::{parse_candidates, Config as FirstRoomManagerConfig};
use callifornia::room_manager::models::{SfuCandidate as InventoryCandidate, SfuInstanceRecord, StaticInventoryProvider};
use callifornia::room_manager::storage::{
    assignment_fields, assignment_for, provisioning_record, queue_accepts, record_idle_since, record_with_health,
    room_members_key as first_members_key, room_meta_key, select_least_loaded_instance as select_record,
};
use callifornia::room_manager::util::unix_now;
use callifornia::services::room_manager::runtime::{candidate_of, provisioning_timed_out, should_scale_down};
use callifornia::services::room_manager::service::{
    build_room_response, close_room_plan, lookup_answer, not_found_response, owner_port_of, pending_response,
    sfu_statuses, GetRoomRequest, RequestError, RoomBindingStatus,
};
use callifornia::services::room_manager::storage::{
    assigned_binding, has_provisioning_instance, op_timeout, provisioning_instance, queue_admits,
    room_assignment_from_fields, room_binding_key, room_load_after_close, select_least_loaded_instance,
    set_op_timeout, should_enqueue, waiting_fields, with_health, with_idle_since, EnqueueError, SfuCandidate,
    SfuInstance, WaitingRequestRecord,
};
use callifornia::services::supervisor::config::{parse_sfu_instances, parse_signaling_admin_instances, Config as SupervisorConfig};
use callifornia::services::supervisor::probes::{
    after_signaling_probe, contains_name, dead_sfu_room_plan, find_admin, heartbeat_cutoff, janitor_reclaim,
    node_should_be_removed, orphan_room_ids, session_is_stale, stale_load_members, store_health_step,
    SignalingProbeAction, SignalingProbeOutcome, StoreHealthAction,
};

fn names(v: &[&str]) -> Vec<String> {
    v.iter().map(|s| s.to_string()).collect()
}

fn vars(v: &[(&str, &str)]) -> Vec<(String, String)> {
    v.iter().map(|(a, b)| (a.to_string(), b.to_string())).collect()
}

fn binding(owner: &str, sfu_id: Option<&str>, sfu_addr: Option<&str>, state: &str) -> RoomBinding {
    RoomBinding {
        room_id: "r1".into(),
        owner_id: owner.into(),
        owner_host: "h".into(),
        owner_port: 1,
        state: state.into(),
        sfu_instance_id: sfu_id.map(|s| s.to_string()),
        sfu_grpc_addr: sfu_addr.map(|s| s.to_string()),
    }
}

fn inst(id: &str, state: &str, alive: bool, provisioned: bool, idle_since: i64) -> SfuInstance {
    SfuInstance {
        instance_id: id.into(),
        grpc_addr: format!("http://{id}"),
        max_rooms: 4,
        alive,
        provisioned,
        state: state.into(),
        last_ping_unix: 1000,
        idle_since_unix: idle_since,
    }
}

#[test]
fn supervisor_settings() {
    let c = SupervisorConfig::from_env(
        &vars(&[("SIGNALING_ADMIN_INSTANCES", " n1 | http://n1:9 ,,n2|a"), ("SUPERVISOR_SFU_INSTANCES", "s1| http://s1 |8")]),
    )
    .unwrap();
    assert_eq!(c.redis_op_timeout, 800);
    assert_eq!(c.signaling_stale_timeout, 30);
    assert_eq!(c.janitor_interval, 5);
    assert_eq!(c.instance_id.len(), 36);
    assert_eq!(&c.instance_id[14..15], "4");
    assert!(callifornia::connector::message::validate_session_id(&c.instance_id).is_ok());
    let again = SupervisorConfig::from_env(&Vec::new()).unwrap();
    assert_ne!(again.instance_id, c.instance_id);
    assert_eq!(c.signaling_admin_instances.len(), 2);
    assert_eq!(c.signaling_admin_instances[0].node_id, "n1");
    assert_eq!(c.signaling_admin_instances[0].grpc_addr, "http://n1:9");
    assert_eq!(c.sfu_instances[0].grpc_addr, "http://s1");
    assert_eq!(c.sfu_instances[0].max_rooms, 8);
    match SupervisorConfig::from_env(&vars(&[("SIGNALING_ADMIN_INSTANCES", "broken")])) {
        Err(ConfigError::MalformedEntry { list, fault }) => {
            assert_eq!(list, EntryList::SignalingAdminInstances);
            assert_eq!(fault, EntryFault::MissingSeparator);
        },
        other => panic!("unexpected {other:?}"),
    }
    match SupervisorConfig::from_env(&vars(&[("SIGNALING_STALE_SEC", "-1")])) {
        Err(ConfigError::InvalidInteger { key, .. }) => assert_eq!(key, "SIGNALING_STALE_SEC"),
        other => panic!("unexpected {other:?}"),
    }
    assert_eq!(parse_signaling_admin_instances("").unwrap().len(), 0);
    assert_eq!(parse_sfu_instances("s|a|x").unwrap_err(), ConfigError::MalformedEntry {
        list: EntryList::SupervisorSfuInstances,
        fault: EntryFault::InvalidCapacity,
    });
    assert_eq!(parse_sfu_instances("s|a|x").unwrap_err().message(), "SUPERVISOR_SFU_INSTANCES max_rooms must be integer");
    assert_eq!(parse_signaling_admin_instances("broken").unwrap_err().message(), "SIGNALING_ADMIN_INSTANCES must be node_id|grpc_addr pairs");
    let with_id = SupervisorConfig::from_env(&vars(&[("SUPERVISOR_INSTANCE_ID", "sup-1")])).unwrap();
    assert_eq!(with_id.instance_id, "sup-1");
}

#[test]
fn supervisor_probe_decisions() {
    assert_eq!(after_signaling_probe(SignalingProbeOutcome::Answered), SignalingProbeAction::MarkSeen);
    assert_eq!(after_signaling_probe(SignalingProbeOutcome::TimedOut), SignalingProbeAction::CheckStale);
    assert_eq!(after_signaling_probe(SignalingProbeOutcome::Failed), SignalingProbeAction::CheckStale);
    assert!(!node_should_be_removed(&names(&["n1", "n2"]), "n2"));
    assert!(node_should_be_removed(&names(&["n1"]), "n2"));
    assert!(contains_name(&names(&["a"]), "a"));
    let admins = parse_signaling_admin_instances("n1|g1,n2|g2,n1|g3").unwrap();
    assert_eq!(find_admin(&admins, "n1"), Some(0));
    assert_eq!(find_admin(&admins, "n3"), None);
    let plan = dead_sfu_room_plan(&binding("n2", Some("s1"), Some("addr1"), "active"), "addr1", &admins).unwrap();
    assert_eq!(plan.close_via.as_deref(), Some("g2"));
    assert_eq!(plan.decrement_sfu.as_deref(), Some("s1"));
    let plan = dead_sfu_room_plan(&binding("", None, Some("addr1"), "active"), "addr1", &admins).unwrap();
    assert_eq!((plan.close_via, plan.decrement_sfu), (None, None));
    let plan = dead_sfu_room_plan(&binding("n9", Some("s1"), Some("addr1"), "active"), "addr1", &admins).unwrap();
    assert_eq!(plan.close_via, None);
    assert!(dead_sfu_room_plan(&binding("n1", Some("s1"), Some("addr2"), "active"), "addr1", &admins).is_none());
    assert!(dead_sfu_room_plan(&binding("n1", Some("s1"), None, "active"), "addr1", &admins).is_none());
}

#[test]
fn janitor_decisions() {
    let alive = names(&["n1"]);
    assert_eq!(janitor_reclaim(&binding("n2", Some("s1"), None, "active"), &alive), Some(Some("s1".to_string())));
    assert_eq!(janitor_reclaim(&binding("n1", Some("s1"), None, "active"), &alive), None);
    assert_eq!(janitor_reclaim(&binding("", Some("s1"), None, "active"), &alive), None);
    assert_eq!(orphan_room_ids(&names(&["r1", "r2", "r3"]), &names(&["r2"])), names(&["r1", "r3"]));
    assert_eq!(stale_load_members(&names(&["n1", "n2", "n1"]), &alive), names(&["n2"]));
    assert!(session_is_stale("n3", &alive));
    assert!(!session_is_stale("n1", &alive));
    assert_eq!(heartbeat_cutoff(1000, 30), 970);
    assert_eq!(heartbeat_cutoff(-5, 10), -15);
    assert_eq!(heartbeat_cutoff(-1, u64::MAX), 0);
}

#[test]
fn law_keep_absent_exact_example() {
    let candidates = names(&["a", "b", "c", "b"]);
    let excluded = names(&["b", "z"]);
    let kept = orphan_room_ids(&candidates, &excluded);
    for x in ["a", "b", "c", "z", "q"] {
        let expected = candidates.contains(&x.to_string()) && !excluded.contains(&x.to_string());
        assert_eq!(kept.contains(&x.to_string()), expected);
    }
}

#[test]
fn store_health_watch() {
    assert_eq!(store_health_step(false, true), (false, StoreHealthAction::Nothing));
    assert_eq!(store_health_step(false, false), (true, StoreHealthAction::PurgeSignaling));
    assert_eq!(store_health_step(true, false), (true, StoreHealthAction::Nothing));
    assert_eq!(store_health_step(true, true), (false, StoreHealthAction::Recovered));
}

#[test]
fn law_one_purge_per_outage_example() {
    let mut down = false;
    let mut purges = 0;
    for ok in [true, false, false, false, false] {
        let (next, action) = store_health_step(down, ok);
        if action == StoreHealthAction::PurgeSignaling {
            purges += 1;
        }
        down = next;
    }
    assert_eq!(purges, 1);
}

#[test]
fn room_manager_storage() {
    let mut cell = OpTimeout::new();
    assert_eq!(op_timeout(&cell), 2000);
    set_op_timeout(&mut cell, 300);
    assert_eq!(op_timeout(&cell), 300);
    assert_eq!(room_binding_key("r1"), "room_manager:room:r1:binding");
    let now = 1010;
    let instances = vec![inst("a", "ready", true, false, 0), inst("b", "ready", true, true, 0), inst("c", "starting", false, true, 5)];
    let loads = vec![("a".to_string(), 3u64), ("b".to_string(), 3u64)];
    assert_eq!(select_least_loaded_instance(instances.clone(), &loads, now).unwrap().instance_id, "a");
    let full = vec![("a".to_string(), 4u64), ("b".to_string(), 9u64)];
    assert_eq!(select_least_loaded_instance(instances.clone(), &full, now), None);
    assert!(has_provisioning_instance(&instances));
    assert!(!has_provisioning_instance(&instances[..2].to_vec()));
    let cand = SfuCandidate { instance_id: "p".into(), grpc_addr: "g".into(), max_rooms: 6 };
    let p = provisioning_instance(&cand, 77);
    assert_eq!((p.alive, p.provisioned, p.state.as_str(), p.last_ping_unix, p.idle_since_unix), (false, true, "starting", 0, 77));
    let h = with_health(p.clone(), true, 90);
    assert_eq!((h.alive, h.state.as_str(), h.last_ping_unix), (true, "ready", 90));
    assert_eq!(with_idle_since(h, 5).idle_since_unix, 5);
    assert_eq!(room_load_after_close(1), (0, true));
    assert_eq!(room_load_after_close(3), (2, false));
    assert_eq!(room_load_after_close(0), (0, true));
    assert_eq!(queue_admits(1, 2), Ok(()));
    assert_eq!(queue_admits(2, 2), Err(EnqueueError::QueueFull));
    assert_eq!(EnqueueError::QueueFull.message(), "waiting queue is full");
    assert!(!should_enqueue(&Some(binding("n", None, None, "allocating"))));
    assert!(should_enqueue(&Some(binding("n", None, None, "active"))));
    assert!(should_enqueue(&None));
    let b = assigned_binding("r1", "n1", "h1", 80, &instances[0]);
    assert_eq!((b.state.as_str(), b.sfu_instance_id.as_deref(), b.owner_port), ("active", Some("a"), 80));
}

#[test]
fn law_queued_room_reads_allocating_example() {
    let record = WaitingRequestRecord {
        room_id: "r1".into(),
        signaling_owner_id: "n1".into(),
        signaling_owner_host: "10.0.0.2".into(),
        signaling_owner_port: 7000,
        enqueued_at_unix: 1,
    };
    let fields = waiting_fields(&record);
    let read = room_assignment_from_fields("r1", &fields).unwrap();
    assert_eq!(read, RoomBinding {
        room_id: "r1".into(),
        owner_id: "n1".into(),
        owner_host: "10.0.0.2".into(),
        owner_port: 7000,
        state: "allocating".into(),
        sfu_instance_id: None,
        sfu_grpc_addr: None,
    });
    assert!(!should_enqueue(&Some(read)));
}

#[test]
fn room_manager_answers() {
    let req = GetRoomRequest {
        room_id: "r1".into(),
        signaling_owner_id: "n1".into(),
        signaling_owner_host: "h".into(),
        signaling_owner_port: 70000,
        create_if_missing: false,
    };
    assert_eq!(owner_port_of(&req), Err(RequestError::InvalidArgument("signaling_owner_port out of range".into())));
    let req = GetRoomRequest { signaling_owner_port: 8080, ..req };
    assert_eq!(owner_port_of(&req), Ok(8080));
    let missing = lookup_answer(&req, None).unwrap();
    assert_eq!((missing.status, missing.message.as_str()), (RoomBindingStatus::NotFound, "room not found"));
    assert!(lookup_answer(&GetRoomRequest { create_if_missing: true, ..req.clone() }, None).is_none());
    let found = lookup_answer(&req, Some(binding("n1", Some("s"), Some("g"), "allocating"))).unwrap();
    assert_eq!(found.status, RoomBindingStatus::Pending);
    let r = build_room_response(binding("n1", None, None, "active"));
    assert_eq!((r.status, r.sfu_instance_id.as_str(), r.signaling_owner_port), (RoomBindingStatus::Assigned, "", 1));
    assert_eq!(build_room_response(binding("n1", None, None, "closing")).status, RoomBindingStatus::NotFound);
    let pend = pending_response(req.clone(), 8080);
    assert_eq!((pend.room_state.as_str(), pend.message.as_str()), ("allocating", "no SFU capacity available yet; retry later"));
    assert_eq!(not_found_response("x".into()).room_id, "x");
    let plan = close_room_plan(Some(binding("n1", Some("s1"), None, "active")));
    assert_eq!((plan.decrement_sfu.as_deref(), plan.delete_binding, plan.response.closed), (Some("s1"), true, true));
    let none = close_room_plan(None);
    assert_eq!((none.delete_binding, none.response.message.as_str()), (false, "room not found"));
    let statuses = sfu_statuses(vec![inst("a", "ready", true, false, 0)], &vec![("a".to_string(), u64::MAX)]);
    assert_eq!((statuses[0].current_load, statuses[0].max_clients), (u32::MAX, 4));
}

#[test]
fn room_manager_loops() {
    let starting = inst("p", "provisioning", false, true, 100);
    assert!(provisioning_timed_out(&starting, false, 200, 60_999));
    assert!(!provisioning_timed_out(&starting, false, 160, 60_000));
    assert!(!provisioning_timed_out(&starting, true, 1000, 1_000));
    assert!(!provisioning_timed_out(&inst("p", "ready", false, true, 100), false, 1000, 1_000));
    let idle = inst("q", "ready", true, true, 100);
    assert!(should_scale_down(&idle, 0, 400, 300_000));
    assert!(!should_scale_down(&idle, 0, 399, 300_000));
    assert!(!should_scale_down(&idle, 1, 10_000, 300_000));
    assert!(!should_scale_down(&inst("q", "ready", true, false, 100), 0, 10_000, 300_000));
    assert!(!should_scale_down(&inst("q", "ready", true, true, 0), 0, 10_000, 300_000));
    let c = candidate_of(idle);
    assert_eq!((c.instance_id.as_str(), c.max_rooms), ("q", 4));
}

#[test]
fn law_busy_or_alive_sfus_stay_example() {
    let i = inst("q", "starting", false, true, 1);
    assert!(!should_scale_down(&i, 3, i64::MAX, 0));
    assert!(!provisioning_timed_out(&i, true, i64::MAX, 0));
}

#[test]
fn first_room_manager() {
    let c = FirstRoomManagerConfig::from_env(&vars(&[("ROOM_MANAGER_SFU_CANDIDATES", "a|g1|10; ;b|g2|5")])).unwrap();
    assert_eq!(c.grpc_addr, "0.0.0.0:50061");
    assert_eq!(c.max_waiting_requests, 10_000);
    assert_eq!(c.scale_down_idle_timeout, 300_000);
    assert_eq!(c.sfu_candidates.len(), 2);
    assert_eq!(c.sfu_candidates[1].max_clients, 5);
    assert!(parse_candidates("   ").unwrap().is_empty());
    assert!(matches!(parse_candidates("a|g"), Err(ConfigError::MalformedEntry { fault: EntryFault::MissingCapacity, .. })));
    assert_eq!(parse_candidates("a|g").unwrap_err().message(), "candidate max_clients is required");
    assert_eq!(parse_candidates("|g|1").unwrap_err().message(), "candidate instance_id is required");
    assert!(matches!(
        FirstRoomManagerConfig::from_env(&vars(&[("ROOM_MANAGER_MAX_WAITING_REQUESTS", "many")])),
        Err(ConfigError::InvalidInteger { .. })
    ));
    assert_eq!(room_meta_key("r1"), "signaling:room:r1:meta");
    assert_eq!(first_members_key("r1"), "signaling:room:r1:members");
    let rec = SfuInstanceRecord {
        instance_id: "a".into(),
        grpc_addr: "g".into(),
        max_clients: 2,
        alive: true,
        provisioned: false,
        state: "ready".into(),
        last_ping_unix: 100,
        idle_since_unix: 0,
    };
    assert_eq!(select_record(vec![rec.clone()], &Vec::new(), 120).unwrap().instance_id, "a");
    assert_eq!(select_record(vec![rec.clone()], &vec![("a".to_string(), 2u64)], 120), None);
    assert_eq!(assignment_fields("n", "h", 1, &rec).len(), 6);
    assert_eq!(assignment_for("r", "n", "h", 1, &rec).sfu_grpc_addr.as_deref(), Some("g"));
    let cand = InventoryCandidate { instance_id: "c".into(), grpc_addr: "gc".into(), max_clients: 3 };
    let p = provisioning_record(&cand, 9);
    assert_eq!((p.state.as_str(), p.provisioned, p.idle_since_unix), ("starting", true, 9));
    let up = record_with_health(p, true, 50);
    assert_eq!((up.alive, up.last_ping_unix, up.state.as_str()), (true, 50, "ready"));
    assert_eq!(record_idle_since(up, 0).idle_since_unix, 0);
    assert!(queue_accepts(0, 1));
    assert!(!queue_accepts(1, 1));
    assert!(unix_now() > 0);
}

#[test]
fn static_inventory() {
    let a = InventoryCandidate { instance_id: "a".into(), grpc_addr: "ga".into(), max_clients: 1 };
    let b = InventoryCandidate { instance_id: "b".into(), grpc_addr: "gb".into(), max_clients: 1 };
    let mut inv = StaticInventoryProvider::new(vec![a.clone(), b.clone()]);
    assert_eq!(inv.provision_next(), Some(a.clone()));
    inv.release("zzz", a.clone());
    assert_eq!(inv.provision_next(), Some(b.clone()));
    assert_eq!(inv.provision_next(), None);
    inv.release("a", a.clone());
    inv.release("a", a.clone());
    assert_eq!(inv.provision_next(), Some(a));
    assert_eq!(inv.provision_next(), None);
}

#[test]
fn law_release_undoes_provision_example() {
    let a = InventoryCandidate { instance_id: "a".into(), grpc_addr: "ga".into(), max_clients: 1 };
    let b = InventoryCandidate { instance_id: "b".into(), grpc_addr: "gb".into(), max_clients: 1 };
    let mut inv = StaticInventoryProvider::new(vec![a.clone(), b.clone()]);
    let first = inv.provision_next().unwrap();
    inv.release(&first.instance_id, first.clone());
    assert_eq!(inv.provision_next(), Some(b));
    assert_eq!(inv.provision_next(), Some(a));
}

#[test]
fn seconds_since_epoch_of_reading() {
    assert_eq!(seconds_since_epoch(Some(1_700_000_000)), 1_700_000_000);
    assert_eq!(seconds_since_epoch(None), 0);
    assert_eq!(seconds_since_epoch(Some(u64::MAX)), -1);
}

fn name_reply(v: &[&str]) -> JanitorReply {
    JanitorReply::Names(Ok(v.iter().map(|s| s.to_string()).collect()))
}

fn perform(a: JanitorAction) -> Vec<JanitorOp> {
    match a {
        JanitorAction::Perform(ops) => ops,
        other => panic!("expected operations, got {other:?}"),
    }
}

#[test]
fn janitor_pass() {
    let (stage, action) = janitor_step(JanitorStage::Start, JanitorReply::Start, 1000, 30);
    assert_eq!(perform(action), vec![JanitorOp::AliveNodes]);
    let (stage, action) = janitor_step(stage, name_reply(&["n1"]), 1000, 30);
    assert_eq!(perform(action), vec![JanitorOp::ScanBindings]);
    let (stage, action) = janitor_step(stage, name_reply(&["r1", "r2"]), 1000, 30);
    assert_eq!(perform(action), vec![JanitorOp::GetBinding { room_id: "r1".into() }]);
    let (stage, action) = janitor_step(stage, JanitorReply::Binding(Ok(Some(binding("dead", Some("sfu-1"), None, "active")))), 1000, 30);
    assert_eq!(perform(action), vec![
        JanitorOp::DecrementSfuLoad { sfu_instance_id: "sfu-1".into() },
        JanitorOp::DeleteBinding { room_id: "r1".into() },
        JanitorOp::DeleteMembers { room_id: "r1".into() },
        JanitorOp::GetBinding { room_id: "r2".into() },
    ]);
    let (stage, action) = janitor_step(stage, JanitorReply::Binding(Ok(Some(binding("n1", None, None, "active")))), 1000, 30);
    assert_eq!(perform(action), vec![JanitorOp::ScanMemberRooms]);
    let (stage, action) = janitor_step(stage, name_reply(&["r2", "r3"]), 1000, 30);
    assert_eq!(perform(action), vec![JanitorOp::DeleteMembers { room_id: "r3".into() }, JanitorOp::LoadMembers]);
    let (stage, action) = janitor_step(stage, name_reply(&["n1", "n2"]), 1000, 30);
    assert_eq!(perform(action), vec![JanitorOp::RemoveLoad { node_id: "n2".into() }, JanitorOp::ScanSessions]);
    let (stage, action) = janitor_step(stage, name_reply(&["s1", "s2"]), 1000, 30);
    assert_eq!(perform(action), vec![JanitorOp::GetOwner { session_id: "s1".into() }]);
    let (stage, action) = janitor_step(stage, JanitorReply::Owner(Ok(Some("n2".into()))), 1000, 30);
    assert_eq!(perform(action), vec![JanitorOp::DeleteSession { session_id: "s1".into() }, JanitorOp::GetOwner { session_id: "s2".into() }]);
    let (stage, action) = janitor_step(stage, JanitorReply::Owner(Ok(None)), 1000, 30);
    assert_eq!(perform(action), vec![JanitorOp::CompactHeartbeats { below: 970 }]);
    let (_, action) = janitor_step(stage, JanitorReply::Done, 1000, 30);
    assert_eq!(action, JanitorAction::Finish(Ok(())));
    let (_, action) = janitor_step(JanitorStage::Alive, JanitorReply::Names(Err("down".into())), 1000, 30);
    assert_eq!(action, JanitorAction::Finish(Err("down".to_string())));
}

#[test]
fn dead_sfu_sweep() {
    let admins = vec![SignalingAdminInstance { node_id: "n1".into(), grpc_addr: "http://n1:9".into() }];
    let dead = "http://sfu-a".to_string();
    let (stage, action) = dead_sfu_step(DeadSfuStage::Start, JanitorReply::Start, &dead, &admins);
    assert_eq!(perform(action), vec![JanitorOp::ScanBindings]);
    let (stage, action) = dead_sfu_step(stage, name_reply(&["r1", "r2"]), &dead, &admins);
    assert_eq!(perform(action), vec![JanitorOp::GetBinding { room_id: "r1".into() }]);
    let on_dead = binding("n1", Some("sfu-1"), Some("http://sfu-a"), "active");
    let (stage, action) = dead_sfu_step(stage, JanitorReply::Binding(Ok(Some(on_dead))), &dead, &admins);
    assert_eq!(perform(action), vec![
        JanitorOp::CloseRoomsOnSfu { admin_addr: "http://n1:9".into(), sfu_grpc_addr: "http://sfu-a".into() },
        JanitorOp::DecrementSfuLoad { sfu_instance_id: "sfu-1".into() },
        JanitorOp::DeleteBinding { room_id: "r1".into() },
        JanitorOp::DeleteMembers { room_id: "r1".into() },
        JanitorOp::GetBinding { room_id: "r2".into() },
    ]);
    let elsewhere = binding("n1", Some("sfu-2"), Some("http://sfu-b"), "active");
    let (stage, action) = dead_sfu_step(stage, JanitorReply::Binding(Ok(Some(elsewhere))), &dead, &admins);
    assert_eq!(action, JanitorAction::Finish(Ok(())));
    assert_eq!(stage, DeadSfuStage::Finished);
    let (_, action) = dead_sfu_step(DeadSfuStage::Scan, JanitorReply::Names(Err("down".into())), &dead, &admins);
    assert_eq!(action, JanitorAction::Finish(Ok(())));
}

fn health_ops(a: HealthAction) -> Vec<HealthOp> {
    match a {
        HealthAction::Perform(ops) => ops,
        other => panic!("expected operations, got {other:?}"),
    }
}

#[test]
fn room_manager_health_pass() {
    let (stage, action) = health_step(HealthStage::Start, HealthReply::Start, 1000, 60_000, 300_000);
    assert_eq!(health_ops(action), vec![HealthOp::ListInstances]);
    let list = vec![inst("a", "provisioning", false, true, 100), inst("b", "ready", true, true, 0)];
    let (stage, action) = health_step(stage, HealthReply::Instances(Ok(list)), 1000, 60_000, 300_000);
    assert_eq!(health_ops(action), vec![HealthOp::Ping { grpc_addr: "http://a".into() }]);
    let (stage, action) = health_step(stage, HealthReply::Alive(false), 2000, 60_000, 300_000);
    assert_eq!(health_ops(action), vec![HealthOp::UpdateHealth { instance_id: "a".into(), alive: false, now: 1000 }]);
    let (stage, action) = health_step(stage, HealthReply::Stored(Ok(())), 2000, 60_000, 300_000);
    assert_eq!(health_ops(action), vec![HealthOp::DeleteInstance { instance_id: "a".into() }]);
    let (stage, action) = health_step(stage, HealthReply::Stored(Ok(())), 2000, 60_000, 300_000);
    let ops = health_ops(action);
    assert!(matches!(&ops[0], HealthOp::ReleaseSlot { instance_id, candidate } if instance_id == "a" && candidate.grpc_addr == "http://a" && candidate.max_rooms == 4));
    assert_eq!(ops[1], HealthOp::Ping { grpc_addr: "http://b".into() });
    let (stage, _) = health_step(stage, HealthReply::Alive(true), 2000, 60_000, 300_000);
    let (stage, action) = health_step(stage, HealthReply::Stored(Ok(())), 2000, 60_000, 300_000);
    assert_eq!(health_ops(action), vec![HealthOp::ListInstances]);
    let (stage, action) = health_step(stage, HealthReply::Instances(Ok(vec![inst("b", "ready", true, true, 0)])), 1010, 60_000, 300_000);
    assert_eq!(health_ops(action), vec![HealthOp::LoadRoomLoads]);
    let (stage, action) = health_step(stage, HealthReply::Loads(Ok(vec![("b".into(), 1)])), 1010, 60_000, 300_000);
    assert_eq!(health_ops(action), vec![HealthOp::PopWaiting]);
    let (stage, action) = health_step(stage, HealthReply::Waiting(Ok(None)), 1010, 60_000, 300_000);
    assert_eq!(health_ops(action), vec![HealthOp::ListInstances]);
    let idle = vec![inst("c", "ready", true, true, 100), inst("d", "ready", true, false, 100)];
    let (stage, _) = health_step(stage, HealthReply::Instances(Ok(idle)), 1010, 60_000, 300_000);
    let (stage, action) = health_step(stage, HealthReply::Loads(Ok(vec![])), 1010, 60_000, 300_000);
    assert_eq!(health_ops(action), vec![HealthOp::DeleteInstance { instance_id: "c".into() }]);
    let (stage, action) = health_step(stage, HealthReply::Stored(Ok(())), 1010, 60_000, 300_000);
    assert!(matches!(&health_ops(action)[..], [HealthOp::ReleaseSlot { instance_id, .. }] if instance_id == "c"));
    let (_, action) = health_step(stage, HealthReply::Done, 1010, 60_000, 300_000);
    assert_eq!(action, HealthAction::Finish(Ok(())));
}
