use callifornia::services::signaling::websocket::ServerErrorCode as Code;
use base64::Engine;
use callifornia::connector::config::{duration_from_env, get_env_or, parse_signaling_instances, Config as ConnectorConfig};
use callifornia::connector::message::{
    validate_nickname, validate_room_id, validate_session_id, AuthRequest, CreateRequest, JoinRequest, LogoutRequest,
    ServerErrorCode as ConnectorCode, SessionRenewRequest, ValidationError,
};
use callifornia::connector::redis::{
    lease_ttl_secs, nick_key as connector_nick_key, nick_lease_reply, room_binding_key as connector_binding_key,
    room_route_from_fields as connector_route, session_create_fields, session_from_nickname, session_key as connector_session_key,
    RedisError,
};
use callifornia::connector::service::{
    check_supervisor_freshness, listed, map_error as connector_map_error, map_redis_error as connector_map_redis,
    select_least_loaded_signaling, session_renew_decision, status_for_error, HandlerError,
};
use callifornia::connector::token::{issue_token, sign_token, token_at, token_claims, TokenError};
use callifornia::services::signaling::membership::{join_room_step, leave_room_step, JoinAction, JoinStage, LeaveAction, LeaveStage, MemberOp, MemberReply};
use callifornia::services::signaling::state::{rooms_on_sfu_count, upgrade_refusal};
use callifornia::connector::config::SignalingInstance;
use callifornia::control_store::models::SupervisorStatus;
use callifornia::env::{parse_inventory, parse_inventory_entry, usize_env_or, ConfigError, EntryFault};
use callifornia::services::signaling::redis::{
    assignment_from_reply, jti_key, leave_outcome, other_participants, room_route_from_fields, session_from_fields,
    set_nx_succeeded, LeaveRoomResult, RedisRoomError, RoomRoute, SessionState, join_room_check, leave_room_check,
};
use callifornia::services::signaling::state::{purge_plan, room_on_sfu, DegradationReason, PeerAttachment, PurgeFlag, RoomPeers};
use callifornia::services::signaling::websocket::{
    attach_admission, attach_session, bound_session_check, create_admission, current_room, existing_session,
    is_local_target, join_admission, join_target, leave_admission, map_error, map_redis_error,
    map_sfu_error, route_sfu, ServerErrorCode, SfuClientError, WsHandlerError,
};

fn vars(v: &[(&str, &str)]) -> Vec<(String, String)> {
    v.iter().map(|(a, b)| (a.to_string(), b.to_string())).collect()
}

fn names(v: &[&str]) -> Vec<String> {
    v.iter().map(|s| s.to_string()).collect()
}

const UUID: &str = "123e4567-e89b-12d3-a456-426614174000";

#[test]
fn connector_config_from_env() {
    let c = ConnectorConfig::from_env(&vars(&[("SIGNALING_INSTANCES", "a|ws://a/ws, ,b|ws://b/ws"), ("WS_WRITE_TIMEOUT_MS", "5")])).unwrap();
    assert_eq!(c.connector_addr, "0.0.0.0:8090");
    assert_eq!(c.redis_connect_timeout, 2000);
    assert_eq!(c.ws_write_timeout, 5);
    assert_eq!(c.token_ttl, 120000);
    assert_eq!(c.token_secret, "dev-connector-token-secret");
    assert_eq!(c.signaling_instances.len(), 2);
    assert_eq!(c.signaling_by_id("b").unwrap().ws_url, "ws://b/ws");
    assert!(c.signaling_by_id("c").is_none());
    let d = ConnectorConfig::from_env(&Vec::new()).unwrap();
    assert_eq!(d.signaling_instances, vec![SignalingInstance { id: "127.0.0.1:8080".into(), ws_url: "ws://127.0.0.1:8080/ws".into() }]);
    match ConnectorConfig::from_env(&vars(&[("REDIS_CONNECT_TIMEOUT_MS", "soon")])) {
        Err(ConfigError::InvalidInteger { key, value }) => assert_eq!((key.as_str(), value.as_str()), ("REDIS_CONNECT_TIMEOUT_MS", "soon")),
        other => panic!("unexpected {other:?}"),
    }
    match ConnectorConfig::from_env(&vars(&[("SIGNALING_INSTANCES", "nopipe")])) {
        Err(e) => {
            assert!(matches!(e, ConfigError::MalformedEntry { fault: EntryFault::MissingSeparator, .. }));
            assert_eq!(e.message(), "SIGNALING_INSTANCES entries must be id|ws_url");
        },
        other => panic!("unexpected {other:?}"),
    }
    assert!(parse_signaling_instances("").unwrap().is_empty());
    assert_eq!(get_env_or(&vars(&[("K", "v"), ("K", "w")]), "K", "d"), "v");
    assert_eq!(duration_from_env(&Vec::new(), "K", 9), Ok(9));
    assert_eq!(usize_env_or(&vars(&[("N", "12")]), "N", 3), Ok(12));
    let err = ConfigError::InvalidInteger { key: "K".into(), value: "x".into() };
    assert_eq!(err.message(), "invalid integer for K: x");
}

#[test]
fn inventory_entries() {
    assert_eq!(parse_inventory_entry("id|addr|3|extra"), Ok(("id".into(), "addr".into(), 3)));
    assert_eq!(parse_inventory_entry("|addr|3"), Err(EntryFault::MissingInstanceId));
    assert_eq!(parse_inventory_entry("id"), Err(EntryFault::MissingGrpcAddr));
    assert_eq!(parse_inventory_entry("id||3"), Err(EntryFault::MissingGrpcAddr));
    assert_eq!(parse_inventory_entry("id|addr"), Err(EntryFault::MissingCapacity));
    assert_eq!(parse_inventory_entry("id|addr| 3"), Err(EntryFault::InvalidCapacity));
    assert_eq!(parse_inventory(" a | b |2; ;c|d|4", true), Ok(vec![("a".into(), "b".into(), 2), ("c".into(), "d".into(), 4)]));
    assert_eq!(parse_inventory(" a | b |2", false), Ok(vec![(" a ".into(), " b ".into(), 2)]));
    assert_eq!(parse_inventory("a|b|2;x|y", true), Err(EntryFault::MissingCapacity));
}

#[test]
fn connector_request_validation() {
    assert_eq!(validate_nickname("  bob-1 "), Ok(()));
    assert_eq!(validate_nickname("bo"), Err(ValidationError::InvalidNickname));
    assert_eq!(validate_nickname("bob!"), Err(ValidationError::InvalidNickname));
    assert_eq!(validate_session_id(UUID), Ok(()));
    assert_eq!(validate_session_id("{123e4567-e89b-12d3-a456-426614174000}"), Ok(()));
    assert_eq!(validate_session_id("urn:uuid:123e4567-e89b-12d3-a456-426614174000"), Ok(()));
    assert_eq!(validate_session_id("123e4567e89b12d3a456426614174000"), Ok(()));
    assert_eq!(validate_session_id("nope"), Err(ValidationError::InvalidSessionId));
    assert_eq!(validate_room_id("123e4567-e89b-12d3-a456-42661417400"), Err(ValidationError::InvalidRoomId));
    assert_eq!(AuthRequest { nickname: "alice".into() }.validate(), Ok(()));
    assert_eq!(CreateRequest { session_id: "x".into() }.validate(), Err(ValidationError::InvalidSessionId));
    assert_eq!(JoinRequest { session_id: UUID.into(), room_id: "x".into() }.validate(), Err(ValidationError::InvalidRoomId));
    assert_eq!(JoinRequest { session_id: "x".into(), room_id: "x".into() }.validate(), Err(ValidationError::InvalidSessionId));
    assert_eq!(LogoutRequest { session_id: UUID.into() }.validate(), Ok(()));
    assert_eq!(SessionRenewRequest { session_id: UUID.into() }.validate(), Ok(()));
    assert_eq!(ValidationError::InvalidRoomId.message(), "room_id must be a valid UUID");
    assert_eq!(ConnectorCode::NoHealthySignaling.as_str(), "no_healthy_signaling");
}

#[test]
fn connector_store_helpers() {
    assert_eq!(connector_session_key("s"), "signaling:session:s");
    assert_eq!(connector_nick_key("n"), "signaling:nick:n");
    assert_eq!(connector_binding_key("r"), "room_manager:room:r:binding");
    assert_eq!(connector_route(&vars(&[("owner_host", "h"), ("owner_port", "8080")])).unwrap().signaling_instance_id, "h:8080");
    assert_eq!(connector_route(&Vec::new()), Err(RedisError::RoomNotFound));
    assert_eq!(connector_route(&vars(&[("owner_host", "")])), Err(RedisError::InvalidRoomRoute));
    assert_eq!(session_from_nickname(Some(String::new())), None);
    assert_eq!(session_from_nickname(Some("bob".into())).unwrap().nickname, "bob");
    assert_eq!(nick_lease_reply(Some("OK".into())), Ok(()));
    assert_eq!(nick_lease_reply(None), Err(RedisError::NicknameTaken));
    assert_eq!(lease_ttl_secs(500), 1);
    assert_eq!(lease_ttl_secs(90_500), 90);
    assert_eq!(session_create_fields("bob"), vars(&[("nickname", "bob"), ("room_id", ""), ("pending_room_id", "")]));
}

#[test]
fn law_session_read_after_create_example() {
    let s = session_from_fields(&session_create_fields("bob")).unwrap();
    assert_eq!(s, SessionState { nickname: "bob".into(), room_id: None });
}

#[test]
fn connector_handler_decisions() {
    assert_eq!(connector_map_redis(RedisError::Timeout), HandlerError::Redis);
    assert_eq!(connector_map_redis(RedisError::NicknameTaken), HandlerError::NicknameTaken);
    assert_eq!(connector_map_error(&HandlerError::SupervisorUnavailable), (ConnectorCode::StorageUnavailable, "Supervisor not available; retry shortly"));
    assert_eq!(connector_map_error(&HandlerError::InvalidPayload("bad")), (ConnectorCode::InvalidPayload, "bad"));
    assert_eq!(status_for_error(&HandlerError::Unauthorized), 401);
    assert_eq!(status_for_error(&HandlerError::NicknameTaken), 409);
    assert_eq!(status_for_error(&HandlerError::RoomNotFound), 404);
    assert_eq!(status_for_error(&HandlerError::InvalidPayload("x")), 400);
    assert_eq!(status_for_error(&HandlerError::Token), 500);
    assert_eq!(status_for_error(&HandlerError::SignalingUnavailable), 503);
    let instances = vec![
        SignalingInstance { id: "a".into(), ws_url: "wa".into() },
        SignalingInstance { id: "b".into(), ws_url: "wb".into() },
        SignalingInstance { id: "c".into(), ws_url: "wc".into() },
    ];
    let loads = vec![("a".to_string(), 5u64), ("b".to_string(), 2u64)];
    assert_eq!(select_least_loaded_signaling(&instances, &names(&["a", "b", "c"]), &loads), Ok(2));
    assert_eq!(select_least_loaded_signaling(&instances, &names(&["a", "b"]), &loads), Ok(1));
    assert_eq!(select_least_loaded_signaling(&instances, &Vec::new(), &loads), Err(HandlerError::SignalingUnavailable));
    assert!(listed(&names(&["x"]), "x"));
    let fresh = Some(SupervisorStatus { last_seen_unix: 100, instance_id: None });
    assert_eq!(check_supervisor_freshness(&fresh, 110, 10), Ok(()));
    assert_eq!(check_supervisor_freshness(&fresh, 111, 10), Err(HandlerError::SupervisorUnavailable));
    assert_eq!(check_supervisor_freshness(&None, 0, 10), Err(HandlerError::SupervisorUnavailable));
    assert_eq!(session_renew_decision(&Some("s".into()), "s", true), Ok(()));
    assert_eq!(session_renew_decision(&Some("s".into()), "t", true), Err(HandlerError::Unauthorized));
    assert_eq!(session_renew_decision(&Some("s".into()), "s", false), Err(HandlerError::Unauthorized));
    let claims = token_claims("s".into(), "n".into(), "node".into(), "join".into(), Some("r".into()), 1000, 120);
    assert_eq!((claims.iat, claims.exp, claims.intent.as_str()), (1000, 1120, "join"));
}

fn route(host: &str, port: u16, state: &str, sfu: Option<&str>) -> RoomRoute {
    RoomRoute { owner_host: host.into(), owner_port: port, room_state: state.into(), sfu_grpc_addr: sfu.map(|s| s.to_string()) }
}

#[test]
fn signaling_store_decoding() {
    assert_eq!(jti_key("j"), "signaling:jti:j");
    assert_eq!(session_from_fields(&Vec::new()), None);
    assert_eq!(session_from_fields(&vars(&[("room_id", "r")])), Some(SessionState { nickname: "".into(), room_id: Some("r".into()) }));
    assert_eq!(
        room_route_from_fields(&vars(&[("owner_host", "h"), ("owner_port", "9000"), ("sfu_grpc_addr", "")])),
        Ok(route("h", 9000, "active", None))
    );
    assert_eq!(room_route_from_fields(&vars(&[("owner_host", "h"), ("owner_port", "x")])), Err(RedisRoomError::InvalidRoomTarget));
    assert_eq!(room_route_from_fields(&Vec::new()), Err(RedisRoomError::RoomNotFound));
    assert_eq!(assignment_from_reply(&Vec::new()), Err(RedisRoomError::NoSfuCapacity));
    assert_eq!(assignment_from_reply(&names(&["__ROOM_EXISTS__"])), Err(RedisRoomError::RoomAlreadyExists));
    assert_eq!(assignment_from_reply(&names(&["sfu-1", "http://s:1"])).unwrap().sfu_grpc_addr, "http://s:1");
    assert_eq!(assignment_from_reply(&names(&["sfu-1", ""])), Err(RedisRoomError::InvalidRoomTarget));
    assert!(set_nx_succeeded(&Some("OK".into())));
    assert!(!set_nx_succeeded(&None));
    assert_eq!(leave_outcome(0, 3), Err(RedisRoomError::ParticipantNotInRoom));
    assert_eq!(leave_outcome(1, 0), Ok(LeaveRoomResult { room_empty: true }));
}

#[test]
fn law_others_exclude_self_example() {
    let others = other_participants(names(&["me", "a", "me", "b"]), "me");
    assert_eq!(others, names(&["a", "b"]));
}

#[test]
fn law_route_read_after_binding_example() {
    let inst = callifornia::control_store::models::SfuInstance {
        instance_id: "sfu-1".into(),
        grpc_addr: "http://sfu-1".into(),
        max_rooms: 3,
        alive: true,
        state: "ready".into(),
        last_ping_unix: 0,
        idle_since_unix: 0,
    };
    let f = callifornia::control_store::storage::binding_fields("h:1", "h", 1, &inst);
    assert_eq!(room_route_from_fields(&f), Ok(route("h", 1, "active", Some("http://sfu-1"))));
}

#[test]
fn websocket_admission() {
    assert_eq!(attach_admission(&None), Ok(()));
    assert_eq!(attach_admission(&Some("s".into())), Err(WsHandlerError::AlreadyAuthorized));
    let s = SessionState { nickname: "bob".into(), room_id: None };
    assert_eq!(attach_session(Some(s.clone()), "bob"), Ok(s.clone()));
    assert_eq!(attach_session(Some(s.clone()), "eve"), Err(WsHandlerError::Unauthorized));
    assert_eq!(attach_session(None, "bob"), Err(WsHandlerError::Unauthorized));
    assert_eq!(bound_session_check(&Some("s".into()), "t"), Err(WsHandlerError::SessionConflict));
    assert_eq!(bound_session_check(&None, "t"), Ok(()));
    assert_eq!(existing_session(Some(SessionState { nickname: "".into(), room_id: None })), Err(WsHandlerError::SessionConflict));
    assert_eq!(create_admission(&s, &Some("create".into())), Ok(()));
    assert_eq!(create_admission(&s, &Some("join".into())), Err(WsHandlerError::Unauthorized));
    let in_room = SessionState { nickname: "bob".into(), room_id: Some("r".into()) };
    assert_eq!(create_admission(&in_room, &Some("create".into())), Err(WsHandlerError::AlreadyInRoom));
    assert_eq!(join_admission(&s, &Some("join".into()), &Some("r".into()), "r"), Ok(()));
    assert_eq!(join_admission(&s, &Some("join".into()), &Some("q".into()), "r"), Err(WsHandlerError::Unauthorized));
    assert_eq!(join_admission(&in_room, &Some("join".into()), &Some("r".into()), "r"), Err(WsHandlerError::AlreadyInRoom));
    assert_eq!(leave_admission(&in_room, "r"), Ok(()));
    assert_eq!(leave_admission(&in_room, "q"), Err(WsHandlerError::LeaveRoomMismatch));
    assert_eq!(leave_admission(&s, "r"), Err(WsHandlerError::NotInRoom));
    assert_eq!(current_room(&in_room), Ok("r".to_string()));
    assert_eq!(current_room(&s), Err(WsHandlerError::NotInRoom));
}

#[test]
fn websocket_routing_and_errors() {
    let r = route("h", 1, "active", Some("sfu"));
    assert!(is_local_target(&r, "h", 1));
    assert!(!is_local_target(&r, "h", 2));
    assert_eq!(join_target(&r, "h", 1), Ok("sfu".to_string()));
    assert_eq!(join_target(&r, "x", 1), Err(WsHandlerError::InvalidRoomAssignment));
    assert_eq!(join_target(&route("h", 1, "allocating", Some("sfu")), "h", 1), Err(WsHandlerError::InvalidRoomAssignment));
    assert_eq!(join_target(&route("h", 1, "active", None), "h", 1), Err(WsHandlerError::SfuUnavailable));
    assert_eq!(route_sfu(&route("h", 1, "x", None)), Err(WsHandlerError::SfuUnavailable));
    assert_eq!(jti_ttl(100, 130), 90);
    assert_eq!(jti_ttl(100, 400), 330);
    assert_eq!(jti_ttl(500, 100), 90);
    assert_eq!(jti_ttl(0, u64::MAX), u64::MAX);
    assert_eq!(map_error(&WsHandlerError::SfuCapacityExhausted).0, ServerErrorCode::SfuCapacityExhausted);
    assert_eq!(map_error(&WsHandlerError::RedisError).0, ServerErrorCode::StorageUnavailable);
    assert_eq!(map_redis_error(RedisRoomError::RoomNotFound), WsHandlerError::RoomNotFound);
    assert_eq!(map_redis_error(RedisRoomError::NoSfuCapacity), WsHandlerError::SfuCapacityExhausted);
    assert_eq!(map_sfu_error(SfuClientError::Timeout), WsHandlerError::SfuUnavailable);
    assert_eq!(map_sfu_error(SfuClientError::Rejected("no".into())), WsHandlerError::SfuRejected);
}

#[test]
fn purge_state() {
    assert_eq!(DegradationReason::RedisDown.as_str(), "redis");
    assert_eq!(DegradationReason::RoomManagerDown.as_str(), "room_manager");
    let mut flag = PurgeFlag::new();
    assert!(!flag.is_purging());
    assert!(flag.try_begin_purge());
    assert!(flag.is_purging());
    let rooms = vec![
        RoomPeers {
            room_id: "r1".into(),
            participants: vec![
                PeerAttachment { nickname: "a".into(), sfu_addr: Some("s1".into()) },
                PeerAttachment { nickname: "b".into(), sfu_addr: None },
            ],
        },
        RoomPeers { room_id: "r2".into(), participants: vec![PeerAttachment { nickname: "c".into(), sfu_addr: Some("s2".into()) }] },
    ];
    let plan = purge_plan(&rooms);
    let got: Vec<(String, String, String)> = plan.into_iter().map(|d| (d.sfu_addr, d.room_id, d.nickname)).collect();
    assert_eq!(got, vec![("s1".into(), "r1".into(), "a".into()), ("s2".into(), "r2".into(), "c".into())]);
    assert!(room_on_sfu(&Some("s1".into()), "s1"));
    assert!(!room_on_sfu(&None, "s1"));
}

#[test]
fn law_purge_begins_once_example() {
    let mut flag = PurgeFlag::new();
    assert!(flag.try_begin_purge());
    assert!(!flag.try_begin_purge());
    assert!(!flag.try_begin_purge());
}

#[test]
fn signed_token_carries_claims_in_order() {
    let t = sign_token("sec", 60, "s1".into(), "ann".into(), "n1".into(), "join".into(), Some("r1".into()), 100);
    let parts: Vec<&str> = t.split('.').collect();
    assert_eq!(parts.len(), 3);
    let header = base64::engine::general_purpose::URL_SAFE_NO_PAD.decode(parts[0]).unwrap();
    assert_eq!(String::from_utf8(header).unwrap(), r#"{"typ":"JWT","alg":"HS256"}"#);
    let payload = base64::engine::general_purpose::URL_SAFE_NO_PAD.decode(parts[1]).unwrap();
    assert_eq!(
        String::from_utf8(payload).unwrap(),
        r#"{"session_id":"s1","nickname":"ann","signaling_instance_id":"n1","intent":"join","room_id":"r1","iat":100,"exp":160}"#
    );
    let none_room = sign_token("sec", 0, "s".into(), "n".into(), "i".into(), "create".into(), None, 7);
    let payload = base64::engine::general_purpose::URL_SAFE_NO_PAD.decode(none_room.split('.').nth(1).unwrap()).unwrap();
    assert!(String::from_utf8(payload).unwrap().contains(r#""room_id":null,"iat":7,"exp":7"#));
    let mut validation = jsonwebtoken::Validation::new(jsonwebtoken::Algorithm::HS256);
    validation.validate_exp = false;
    validation.required_spec_claims.clear();
    let key = jsonwebtoken::DecodingKey::from_secret(b"sec");
    assert!(jsonwebtoken::decode::<serde_json::Value>(&t, &key, &validation).is_ok());
    let wrong = jsonwebtoken::DecodingKey::from_secret(b"other");
    assert!(jsonwebtoken::decode::<serde_json::Value>(&t, &wrong, &validation).is_err());
}

#[test]
fn issued_token_expires_after_ttl() {
    let t = issue_token("sec", 120_000, "s".into(), "n".into(), "i".into(), "create".into(), None).unwrap();
    let mut validation = jsonwebtoken::Validation::new(jsonwebtoken::Algorithm::HS256);
    validation.required_spec_claims.clear();
    let data = jsonwebtoken::decode::<serde_json::Value>(&t, &jsonwebtoken::DecodingKey::from_secret(b"sec"), &validation).unwrap();
    let iat = data.claims["iat"].as_u64().unwrap();
    assert_eq!(data.claims["exp"].as_u64().unwrap(), iat + 120);
}

use callifornia::services::signaling::protocol::{
    cleanup_step, CleanupStage, client_message_step, jti_ttl, new_connection, inbound_action, after_handling, after_write,
    ConnectionAction, InboundFrame, new_room_id, AfterLeave, ConnectionContext, HandlerAction, LeaveReason, Op, Reply, Stage,
    TokenClaims, WsClientMessage, WsServerMessage,
};

fn ops_of(a: &HandlerAction) -> &Vec<Op> {
    match a {
        HandlerAction::Perform(ops) => ops,
        other => panic!("expected operations, got {other:?}"),
    }
}

#[test]
fn protocol_attach_flow() {
    let ctx = new_connection();
    let (ctx, stage, action) = client_message_step(ctx, Stage::Received(WsClientMessage::Attach { token: "t".into() }), Reply::Start, "h", 80);
    assert_eq!(ops_of(&action), &vec![Op::CheckStore]);
    let (ctx, stage, action) = client_message_step(ctx, stage, Reply::Available(true), "h", 80);
    assert_eq!(ops_of(&action), &vec![Op::ValidateToken { token: "t".into() }]);
    let claims = TokenClaims {
        session_id: "s1".into(), nickname: "ann".into(), intent: "join".into(), room_id: Some("r1".into()),
        jti: "j1".into(), iat: 100, exp: 110,
    };
    let (ctx, stage, action) = client_message_step(ctx, stage, Reply::Claims(Some(claims)), "h", 80);
    assert_eq!(ops_of(&action), &vec![Op::ConsumeJti { jti: "j1".into(), ttl_secs: 90 }]);
    let (ctx, stage, action) = client_message_step(ctx, stage, Reply::Flag(Ok(true)), "h", 80);
    assert_eq!(ops_of(&action), &vec![Op::GetSession { session_id: "s1".into() }]);
    let session = SessionState { nickname: "ann".into(), room_id: None };
    let (ctx, stage, action) = client_message_step(ctx, stage, Reply::Session(Ok(Some(session))), "h", 80);
    assert_eq!(ops_of(&action), &vec![Op::SetOwner { session_id: "s1".into() }]);
    let (ctx, stage, action) = client_message_step(ctx, stage, Reply::Stored(Ok(())), "h", 80);
    assert_eq!(ctx.session_id.as_deref(), Some("s1"));
    assert_eq!(ctx.allowed_intent.as_deref(), Some("join"));
    assert_eq!(ctx.allowed_room_id.as_deref(), Some("r1"));
    assert_eq!(ops_of(&action), &vec![Op::IncrementLoad]);
    let (ctx, stage, action) = client_message_step(ctx, stage, Reply::Stored(Ok(())), "h", 80);
    assert!(ctx.instance_load_registered && ctx.lease_renewer_running);
    assert_eq!(ops_of(&action).last(), Some(&Op::Send(WsServerMessage::Attached { nickname: "ann".into(), session_id: "s1".into() })));
    let (_, _, action) = client_message_step(ctx, stage, Reply::Sent(true), "h", 80);
    assert_eq!(action, HandlerAction::Finish(Ok(())));
}

#[test]
fn protocol_refusals() {
    let bound = ConnectionContext { session_id: Some("s1".into()), ..new_connection() };
    let (_, _, action) = client_message_step(bound, Stage::Received(WsClientMessage::Attach { token: "t".into() }), Reply::Start, "h", 80);
    assert_eq!(action, HandlerAction::Finish(Err(WsHandlerError::AlreadyAuthorized)));
    let bound = ConnectionContext { session_id: Some("s1".into()), ..new_connection() };
    let (_, _, action) = client_message_step(bound, Stage::Received(WsClientMessage::Logout { session_id: "s2".into() }), Reply::Start, "h", 80);
    assert_eq!(action, HandlerAction::Finish(Err(WsHandlerError::SessionConflict)));
    let stage = Stage::SessionRead { session_id: "s1".into(), then: callifornia::services::signaling::protocol::Pending::Leave { room_id: "r2".into() } };
    let read = Reply::Session(Ok(Some(SessionState { nickname: "ann".into(), room_id: Some("r1".into()) })));
    let (ctx, _, action) = client_message_step(new_connection(), stage, read, "h", 80);
    assert_eq!(ctx.session_id.as_deref(), Some("s1"));
    assert_eq!(ops_of(&action).len(), 1);
    let (_, _, action) = client_message_step(ctx, Stage::Finishing(Err(WsHandlerError::LeaveRoomMismatch)), Reply::Done, "h", 80);
    assert_eq!(action, HandlerAction::Finish(Err(WsHandlerError::LeaveRoomMismatch)));
}

#[test]
fn protocol_join_rolls_back_when_sfu_fails() {
    let ctx = ConnectionContext {
        session_id: Some("s1".into()),
        allowed_intent: Some("join".into()),
        allowed_room_id: Some("r1".into()),
        ..new_connection()
    };
    let (ctx, stage, action) = client_message_step(ctx, Stage::Received(WsClientMessage::Join { session_id: "s1".into(), room_id: "r1".into() }), Reply::Start, "h", 80);
    assert_eq!(ops_of(&action), &vec![Op::CheckStore]);
    let (ctx, stage, _) = client_message_step(ctx, stage, Reply::Available(true), "h", 80);
    let (ctx, stage, _) = client_message_step(ctx, stage, Reply::Flag(Ok(true)), "h", 80);
    let (ctx, stage, _) = client_message_step(ctx, stage, Reply::Available(true), "h", 80);
    let read = Reply::Session(Ok(Some(SessionState { nickname: "ann".into(), room_id: None })));
    let (ctx, stage, action) = client_message_step(ctx, stage, read, "h", 80);
    assert_eq!(ops_of(&action).last(), Some(&Op::GetRoute { room_id: "r1".into() }));
    let route = RoomRoute { owner_host: "h".into(), owner_port: 80, room_state: "active".into(), sfu_grpc_addr: Some("sfu".into()) };
    let (ctx, stage, action) = client_message_step(ctx, stage, Reply::Route(Ok(route)), "h", 80);
    assert_eq!(ops_of(&action), &vec![Op::JoinRoom { room_id: "r1".into(), nickname: "ann".into() }]);
    let (ctx, stage, _) = client_message_step(ctx, stage, Reply::Members(Ok(vec!["bob".into(), "ann".into()])), "h", 80);
    let (_, stage, action) = client_message_step(ctx, stage, Reply::Sfu(Err(SfuClientError::Timeout)), "h", 80);
    assert_eq!(ops_of(&action), &vec![
        Op::RemoveMember { room_id: "r1".into(), nickname: "ann".into() },
        Op::ReleaseLock { session_id: "s1".into() },
    ]);
    assert_eq!(stage, Stage::Finishing(Err(WsHandlerError::SfuUnavailable)));
    let route = RoomRoute { owner_host: "other".into(), owner_port: 80, room_state: "active".into(), sfu_grpc_addr: Some("sfu".into()) };
    let stage = Stage::JoinRoute { session_id: "s1".into(), nickname: "ann".into(), room_id: "r1".into() };
    let (_, _, action) = client_message_step(new_connection(), stage, Reply::Route(Ok(route)), "h", 80);
    assert_eq!(ops_of(&action), &vec![Op::ReleaseLock { session_id: "s1".into() }]);
}

#[test]
fn protocol_create_closes_binding_when_join_fails() {
    let stage = Stage::CreateJoin { session_id: "s1".into(), nickname: "ann".into(), room_id: "r9".into(), sfu_addr: "sfu".into() };
    let (_, stage, action) = client_message_step(new_connection(), stage, Reply::Members(Err(callifornia::services::signaling::redis::RedisRoomError::NicknameTaken)), "h", 80);
    assert_eq!(ops_of(&action), &vec![Op::CloseBinding { room_id: "r9".into() }, Op::ReleaseLock { session_id: "s1".into() }]);
    assert_eq!(stage, Stage::Finishing(Err(WsHandlerError::NicknameTaken)));
}

#[test]
fn protocol_logout_from_room() {
    let ctx = ConnectionContext { session_id: Some("s1".into()), instance_load_registered: true, lease_renewer_running: true, ..new_connection() };
    let stage = Stage::LeaveStore { session_id: "s1".into(), room_id: "r1".into(), nickname: "ann".into(), reason: LeaveReason::UserLogout, then: AfterLeave::Logout };
    let (ctx, stage, action) = client_message_step(ctx, stage, Reply::Available(true), "h", 80);
    assert_eq!(ops_of(&action)[0], Op::AnnounceLeave { room_id: "r1".into(), nickname: "ann".into(), reason: LeaveReason::UserLogout });
    let (ctx, stage, _) = client_message_step(ctx, stage, Reply::Stored(Ok(())), "h", 80);
    let (ctx, stage, action) = client_message_step(ctx, stage, Reply::Available(true), "h", 80);
    assert_eq!(ops_of(&action), &vec![Op::DecrementLoad]);
    let (ctx, stage, _) = client_message_step(ctx, stage, Reply::Stored(Ok(())), "h", 80);
    assert!(!ctx.instance_load_registered);
    let (ctx, stage, _) = client_message_step(ctx, stage, Reply::Stored(Ok(())), "h", 80);
    let (ctx, _, action) = client_message_step(ctx, stage, Reply::Stored(Ok(())), "h", 80);
    assert_eq!(ctx.session_id, None);
    assert!(!ctx.lease_renewer_running);
    assert_eq!(ops_of(&action), &vec![
        Op::ForgetSession { session_id: "s1".into() },
        Op::StopRenewer,
        Op::Send(WsServerMessage::LoggedOut { nickname: "ann".into() }),
    ]);
}

#[test]
fn law_session_lock_released_example() {
    let stage = Stage::CreateAssign { session_id: "s1".into(), nickname: "ann".into(), room_id: "r1".into() };
    let err = callifornia::services::signaling::redis::RedisRoomError::NoSfuCapacity;
    let (_, stage, action) = client_message_step(new_connection(), stage, Reply::Assigned(Err(err)), "h", 80);
    assert_eq!(ops_of(&action).last(), Some(&Op::ReleaseLock { session_id: "s1".into() }));
    assert_eq!(stage, Stage::Finishing(Err(WsHandlerError::SfuCapacityExhausted)));
}

#[test]
fn connection_cleanup() {
    let (_, _, action) = cleanup_step(new_connection(), CleanupStage::Start, Reply::Start);
    assert_eq!(action, HandlerAction::Finish(Ok(())));
    let ctx = ConnectionContext { session_id: Some("s1".into()), instance_load_registered: true, lease_renewer_running: true, ..new_connection() };
    let (ctx, stage, action) = cleanup_step(ctx, CleanupStage::Start, Reply::Start);
    assert!(!ctx.lease_renewer_running);
    assert_eq!(ops_of(&action), &vec![Op::StopRenewer, Op::CheckStore]);
    let (ctx, stage, action) = cleanup_step(ctx, stage, Reply::Available(true));
    assert_eq!(ops_of(&action), &vec![Op::LookupCachedSession { session_id: "s1".into() }]);
    let (ctx, stage, action) = cleanup_step(ctx, stage, Reply::Session(Ok(None)));
    assert_eq!(ops_of(&action), &vec![Op::GetSession { session_id: "s1".into() }]);
    let found = SessionState { nickname: "ann".into(), room_id: Some("r1".into()) };
    let (ctx, stage, action) = cleanup_step(ctx, stage, Reply::Session(Ok(Some(found))));
    assert_eq!(ops_of(&action), &vec![
        Op::AnnounceLeave { room_id: "r1".into(), nickname: "ann".into(), reason: LeaveReason::SignalingDisconnected },
        Op::DecrementLoad,
        Op::ReleaseNick { nickname: "ann".into(), session_id: "s1".into() },
        Op::DeleteSession { session_id: "s1".into() },
        Op::ForgetSession { session_id: "s1".into() },
    ]);
    let (_, _, action) = cleanup_step(ctx, stage, Reply::Done);
    assert_eq!(action, HandlerAction::Finish(Ok(())));
}

#[test]
fn room_membership_checks() {
    assert_eq!(join_room_check(false, false), Err(RedisRoomError::RoomNotFound));
    assert_eq!(join_room_check(true, true), Err(RedisRoomError::NicknameTaken));
    assert_eq!(join_room_check(true, false), Ok(()));
    assert_eq!(leave_room_check(false), Err(RedisRoomError::RoomNotFound));
    assert_eq!(leave_room_check(true), Ok(()));
}

#[test]
fn connection_read_loop() {
    assert_eq!(inbound_action(InboundFrame::TimedOut), ConnectionAction::Close);
    assert_eq!(inbound_action(InboundFrame::Closed), ConnectionAction::Close);
    assert_eq!(inbound_action(InboundFrame::Other), ConnectionAction::Continue);
    assert_eq!(inbound_action(InboundFrame::Malformed), ConnectionAction::ReplyError { code: Code::InvalidJson, message: "Malformed JSON".into() });
    assert_eq!(inbound_action(InboundFrame::Invalid("sdp is empty".into())), ConnectionAction::ReplyError { code: Code::InvalidPayload, message: "sdp is empty".into() });
    assert_eq!(inbound_action(InboundFrame::Message(WsClientMessage::Logout { session_id: "s".into() })), ConnectionAction::Handle(WsClientMessage::Logout { session_id: "s".into() }));
    assert_eq!(after_handling(Ok(())), ConnectionAction::Continue);
    assert_eq!(after_handling(Err(WsHandlerError::WriteFailed)), ConnectionAction::Close);
    assert_eq!(after_handling(Err(WsHandlerError::RoomNotFound)), ConnectionAction::ReplyError { code: Code::RoomNotFound, message: "Room not found".into() });
    assert_eq!(after_write(false), ConnectionAction::Close);
    assert_eq!(after_write(true), ConnectionAction::Continue);
}

#[test]
fn short_lived_token_is_always_issued() {
    assert!(issue_token("sec", 999, "s".into(), "n".into(), "i".into(), "create".into(), None).is_ok());
}

#[test]
fn fresh_room_ids_are_uuids() {
    let a = new_room_id();
    assert!(callifornia::connector::message::validate_room_id(&a).is_ok());
    assert_ne!(a, new_room_id());
}

#[test]
fn token_at_reading() {
    let t = token_at("sec", 60_999, "s1".into(), "ann".into(), "n1".into(), "join".into(), Some("r1".into()), 100).unwrap();
    assert_eq!(t, sign_token("sec", 60, "s1".into(), "ann".into(), "n1".into(), "join".into(), Some("r1".into()), 100));
    assert_eq!(token_at("sec", 2_000, "s".into(), "n".into(), "i".into(), "create".into(), None, u64::MAX - 1), Err(TokenError::ExpiryOverflow));
    assert!(token_at("sec", 1_999, "s".into(), "n".into(), "i".into(), "create".into(), None, u64::MAX - 1).is_ok());
}

#[test]
fn join_room_commands() {
    let (stage, action) = join_room_step(JoinStage::Start { room_id: "r".into(), nickname: "ann".into() }, MemberReply::Start);
    assert_eq!(action, JoinAction::Perform(MemberOp::BindingExists { room_id: "r".into() }));
    let (stage, action) = join_room_step(stage, MemberReply::Flag(Ok(true)));
    assert_eq!(action, JoinAction::Perform(MemberOp::IsMember { room_id: "r".into(), nickname: "ann".into() }));
    let (stage, action) = join_room_step(stage, MemberReply::Flag(Ok(false)));
    assert_eq!(action, JoinAction::Perform(MemberOp::AddMember { room_id: "r".into(), nickname: "ann".into() }));
    let (stage, action) = join_room_step(stage, MemberReply::Count(Ok(1)));
    assert_eq!(action, JoinAction::Perform(MemberOp::Members { room_id: "r".into() }));
    let (_, action) = join_room_step(stage, MemberReply::Names(Ok(vec!["bob".into(), "ann".into()])));
    assert_eq!(action, JoinAction::Finish(Ok(vec!["bob".to_string()])));
    let (_, action) = join_room_step(JoinStage::Binding { room_id: "r".into(), nickname: "ann".into() }, MemberReply::Flag(Ok(false)));
    assert_eq!(action, JoinAction::Finish(Err(RedisRoomError::RoomNotFound)));
    let (_, action) = join_room_step(JoinStage::Member { room_id: "r".into(), nickname: "ann".into() }, MemberReply::Flag(Ok(true)));
    assert_eq!(action, JoinAction::Finish(Err(RedisRoomError::NicknameTaken)));
}

#[test]
fn leave_room_commands() {
    let (stage, _) = leave_room_step(LeaveStage::Start { room_id: "r".into(), nickname: "ann".into() }, MemberReply::Start);
    let (stage, action) = leave_room_step(stage, MemberReply::Flag(Ok(true)));
    assert_eq!(action, LeaveAction::Perform(MemberOp::RemoveMember { room_id: "r".into(), nickname: "ann".into() }));
    let (stage, action) = leave_room_step(stage, MemberReply::Count(Ok(1)));
    assert_eq!(action, LeaveAction::Perform(MemberOp::CountMembers { room_id: "r".into() }));
    let (stage, action) = leave_room_step(stage, MemberReply::Count(Ok(0)));
    assert_eq!(action, LeaveAction::Perform(MemberOp::DeleteMembers { room_id: "r".into() }));
    let (_, action) = leave_room_step(stage, MemberReply::Stored(Ok(())));
    assert_eq!(action, LeaveAction::Finish(Ok(LeaveRoomResult { room_empty: true })));
    let (_, action) = leave_room_step(LeaveStage::Removed { room_id: "r".into() }, MemberReply::Count(Ok(0)));
    assert_eq!(action, LeaveAction::Finish(Err(RedisRoomError::ParticipantNotInRoom)));
    let (_, action) = leave_room_step(LeaveStage::Counted { room_id: "r".into() }, MemberReply::Count(Ok(2)));
    assert_eq!(action, LeaveAction::Finish(Ok(LeaveRoomResult { room_empty: false })));
}

#[test]
fn admin_close_count_and_upgrade_gate() {
    let routes = vec![Some("sfu-a".to_string()), None, Some("sfu-b".to_string()), Some("sfu-a".to_string())];
    assert_eq!(rooms_on_sfu_count(&routes, "sfu-a"), 2);
    assert_eq!(rooms_on_sfu_count(&routes, "sfu-c"), 0);
    assert_eq!(upgrade_refusal(true), Some((503, "service degraded")));
    assert_eq!(upgrade_refusal(false), None);
}
