use callifornia::client::app::{
    active_room_with_participant, active_room_without_participant, participant_media_slots, unique_participants,
    ActiveRoom, AppScreen, AppState, MediaEvent, MediaSlot, SettingsState,
};
use callifornia::client::connector_api::{
    endpoint, failure_message, status_error_message, status_is_success, SignalingReadyResponse,
};
use callifornia::client::signaling::{
    handle_server_message, leave_message, push_if_absent, ClientMessage, RoomSnapshot, ServerErrorCode, ServerMessage,
    ServerMessageOutcome, SignalingError, SignalingEvent, SignalingIntent, SignalingStart,
};
use callifornia::client::theme::Theme;

fn names(v: &[&str]) -> Vec<String> {
    v.iter().map(|s| s.to_string()).collect()
}

fn start(intent: SignalingIntent) -> SignalingStart {
    SignalingStart::new(
        SignalingReadyResponse {
            signaling_url: "ws://s/ws".to_string(),
            session_id: "sess".to_string(),
            token: "tok".to_string(),
        },
        intent,
    )
}

fn room(participants: &[&str]) -> ActiveRoom {
    ActiveRoom { room_id: "r1".to_string(), your_nickname: "me".to_string(), participants: names(participants) }
}

#[test]
fn connector_endpoints_and_errors() {
    assert_eq!(endpoint(Some("https://c.example//"), "/auth"), "https://c.example/auth");
    assert_eq!(endpoint(Some(""), "/auth"), "/auth");
    assert_eq!(endpoint(None, "/join"), "/join");
    assert_eq!(status_error_message(500), "Internal error. Please try again.");
    assert_eq!(status_error_message(503), "Service unavailable. Please try again.");
    assert_eq!(status_error_message(404), "Service error. Please try again.");
    assert!(status_is_success(204));
    assert!(!status_is_success(300));
    assert!(!status_is_success(199));
    assert_eq!(failure_message(502, None), "Service unavailable. Please try again.");
    assert_eq!(failure_message(502, Some("busy".to_string())), "busy");
}

#[test]
fn attach_is_followed_by_create_or_join() {
    let create = start(SignalingIntent::Create);
    match handle_server_message(&create, ServerMessage::Attached { nickname: "n".into(), session_id: "sess".into() }) {
        ServerMessageOutcome::Send(ClientMessage::Create { session_id }) => assert_eq!(session_id, "sess"),
        other => panic!("unexpected {other:?}"),
    }
    let join = start(SignalingIntent::Join { room_id: "r9".into() });
    match handle_server_message(&join, ServerMessage::Attached { nickname: "n".into(), session_id: "sess".into() }) {
        ServerMessageOutcome::Send(ClientMessage::Join { session_id, room_id }) => {
            assert_eq!((session_id.as_str(), room_id.as_str()), ("sess", "r9"))
        },
        other => panic!("unexpected {other:?}"),
    }
    match handle_server_message(&join, ServerMessage::Attached { nickname: "n".into(), session_id: "other".into() }) {
        ServerMessageOutcome::Emit(SignalingEvent::Error(e)) => {
            assert_eq!(e.code, None);
            assert_eq!(e.message, "Signaling attached an unexpected session.");
        },
        other => panic!("unexpected {other:?}"),
    }
}

#[test]
fn server_messages_become_events() {
    let s = start(SignalingIntent::Create);
    match handle_server_message(&s, ServerMessage::Joined {
        room_id: "r".into(),
        your_nickname: "me".into(),
        participants: names(&["a", "b"]),
    }) {
        ServerMessageOutcome::Emit(SignalingEvent::RoomReady(snap)) => assert_eq!(snap.participants, names(&["a", "b", "me"])),
        other => panic!("unexpected {other:?}"),
    }
    match handle_server_message(&s, ServerMessage::Created { room_id: "r".into(), your_nickname: "me".into() }) {
        ServerMessageOutcome::Emit(SignalingEvent::RoomReady(snap)) => {
            assert_eq!(snap.participants, names(&["me"]));
            assert_eq!(snap.room_id, "r");
        },
        other => panic!("unexpected {other:?}"),
    }
    match handle_server_message(&s, ServerMessage::Error { code: ServerErrorCode::RoomNotFound, message: "gone".into() }) {
        ServerMessageOutcome::Emit(SignalingEvent::Error(e)) => {
            assert_eq!(e.code, Some(ServerErrorCode::RoomNotFound));
            assert_eq!(e.message, "RoomNotFound: gone");
        },
        other => panic!("unexpected {other:?}"),
    }
    match handle_server_message(&s, ServerMessage::LoggedOut { nickname: "me".into() }) {
        ServerMessageOutcome::Emit(SignalingEvent::Error(e)) => assert_eq!(e.message, "me logged out."),
        other => panic!("unexpected {other:?}"),
    }
    match handle_server_message(&s, ServerMessage::Sdp { from: "sfu".into(), sdp: "x".into(), sdp_type: "answer".into() }) {
        ServerMessageOutcome::Emit(SignalingEvent::RemoteSdp { sdp, sdp_type }) => assert_eq!((sdp.as_str(), sdp_type.as_str()), ("x", "answer")),
        other => panic!("unexpected {other:?}"),
    }
    match handle_server_message(&s, ServerMessage::ServiceUnavailable { dependency: "redis".into(), retry_after_ms: 5000 }) {
        ServerMessageOutcome::Emit(SignalingEvent::ServiceUnavailable { dependency, retry_after_ms }) => {
            assert_eq!((dependency.as_str(), retry_after_ms), ("redis", 5000))
        },
        other => panic!("unexpected {other:?}"),
    }
    assert_eq!(SignalingError::server(ServerErrorCode::WriteFailed, "x".into()).message, "WriteFailed: x");
    assert_eq!(SignalingError::local("y".into()).code, None);
}

#[test]
fn law_room_lists_self_example() {
    assert_eq!(push_if_absent(names(&["me", "a"]), "me"), names(&["me", "a"]));
    assert_eq!(push_if_absent(names(&["a"]), "me"), names(&["a", "me"]));
    let msg = leave_message("s", "r", &names(&["a", "b"]));
    assert_eq!(
        msg,
        ClientMessage::Leave { session_id: "s".into(), room_id: "r".into(), participants: Some(names(&["a", "b"])) }
    );
}

#[test]
fn room_membership_updates() {
    assert_eq!(unique_participants(names(&["a", "b", "a", "c", "b"])), names(&["a", "b", "c"]));
    let joined = active_room_with_participant(Some(room(&["me"])), "bob".into()).unwrap();
    assert_eq!(joined.participants, names(&["me", "bob"]));
    let again = active_room_with_participant(Some(joined), "bob".into()).unwrap();
    assert_eq!(again.participants, names(&["me", "bob"]));
    let left = active_room_without_participant(Some(room(&["me", "bob", "x", "bob"])), "bob").unwrap();
    assert_eq!(left.participants, names(&["me", "x"]));
    assert!(active_room_with_participant(None, "bob".into()).is_none());
    assert!(active_room_without_participant(None, "bob").is_none());
    let snap = RoomSnapshot { room_id: "r".into(), your_nickname: "me".into(), participants: names(&["me", "me", "a"]) };
    assert_eq!(ActiveRoom::from_snapshot(snap).participants, names(&["me", "a"]));
}

#[test]
fn law_unique_keeps_names_once_example() {
    let input = names(&["z", "y", "z", "x", "y"]);
    let out = unique_participants(input.clone());
    for n in &input {
        assert_eq!(out.iter().filter(|o| *o == n).count(), 1);
    }
    assert_eq!(out.len(), 3);
}

#[test]
fn law_leave_removes_only_that_name_example() {
    let left = active_room_without_participant(Some(room(&["a", "b", "a", "c"])), "a").unwrap();
    assert!(!left.participants.contains(&"a".to_string()));
    assert!(left.participants.contains(&"b".to_string()) && left.participants.contains(&"c".to_string()));
}

#[test]
fn settings_defaults() {
    let s = SettingsState::default();
    assert_eq!(s.theme, Theme::Light);
    assert!(s.mic_enabled && !s.camera_enabled);
    assert_eq!((s.input_level, s.output_level), (100, 100));
    assert_eq!(s.mic_device_id, "default");
    assert_eq!(s.speaker_device_id, "default");
    assert_eq!(s.camera_device_id, "default");
}

#[test]
fn app_navigation() {
    let mut app = AppState::new();
    assert_eq!(app.screen, AppScreen::Nickname);
    app.on_nickname_success("sess".into());
    assert_eq!(app.screen, AppScreen::MainMenu);
    assert!(app.should_renew_session());
    assert!(app.should_logout_on_pagehide());
    app.on_open_join_room();
    assert_eq!(app.screen, AppScreen::JoinRoom);
    app.on_signaling_ready(
        SignalingReadyResponse { signaling_url: "ws://x".into(), session_id: "sess".into(), token: "t".into() },
        SignalingIntent::Create,
    );
    assert!(app.signaling_start.is_some());
    assert_eq!(app.on_signaling_event(SignalingEvent::Connected), None);
    assert!(!app.should_renew_session());
    assert!(!app.should_logout_on_pagehide());
    app.on_signaling_event(SignalingEvent::RoomReady(RoomSnapshot {
        room_id: "r1".into(),
        your_nickname: "me".into(),
        participants: names(&["me"]),
    }));
    assert_eq!(app.screen, AppScreen::Room);
    app.on_signaling_event(SignalingEvent::ParticipantJoined("bob".into()));
    assert_eq!(app.active_room.as_ref().unwrap().participants, names(&["me", "bob"]));
    app.on_signaling_event(SignalingEvent::ParticipantLeft("bob".into()));
    assert_eq!(app.active_room.as_ref().unwrap().participants, names(&["me"]));
    let leave = app.on_back_to_main_menu(true);
    assert_eq!(
        leave,
        Some(ClientMessage::Leave { session_id: "sess".into(), room_id: "r1".into(), participants: Some(names(&["me"])) })
    );
    assert_eq!(app.screen, AppScreen::MainMenu);
    assert!(app.active_room.is_none());
    assert_eq!(app.on_back_to_main_menu(true), None);
    app.on_back_to_nickname();
    assert_eq!(app.screen, AppScreen::Nickname);
    assert!(app.session_id.is_none());
}

#[test]
fn app_room_endings() {
    let mut app = AppState::new();
    app.on_nickname_success("sess".into());
    app.on_signaling_event(SignalingEvent::Disconnected { reason: Some("bye".into()) });
    assert_eq!(app.app_error.as_deref(), Some("Signaling disconnected before joining room: bye"));
    app.on_signaling_event(SignalingEvent::Left { room_id: "r1".into() });
    assert_eq!(app.app_error.as_deref(), Some("Left room r1."));
    app.on_signaling_event(SignalingEvent::RoomClosed { room_id: "r1".into(), reason: "sfu_down".into() });
    assert_eq!(app.app_error.as_deref(), Some("Room r1 closed: sfu_down"));
    app.on_signaling_event(SignalingEvent::ServiceUnavailable { dependency: "redis".into(), retry_after_ms: 5000 });
    assert_eq!(app.app_error.as_deref(), Some("redis unavailable. Retry after 5000 ms."));
    app.handoff_complete = true;
    app.screen = AppScreen::Room;
    app.on_signaling_event(SignalingEvent::Error(SignalingError::server(ServerErrorCode::SfuCapacityExhausted, "full".into())));
    assert_eq!(app.screen, AppScreen::MainMenu);
    assert!(!app.handoff_complete);
    assert_eq!(app.app_error.as_deref(), Some("SfuCapacityExhausted: full"));
    app.screen = AppScreen::Room;
    app.on_signaling_event(SignalingEvent::Error(SignalingError::local("oops".into())));
    assert_eq!(app.screen, AppScreen::Room);
    let media = app.on_signaling_event(SignalingEvent::RemoteIceCandidate { candidate: "c".into(), sdp_mid: "0".into() });
    assert_eq!(media, Some(MediaEvent::RemoteIceCandidate { candidate: "c".into(), sdp_mid: "0".into() }));
    app.on_connect_failed("no ws".into());
    assert_eq!(app.app_error.as_deref(), Some("no ws"));
}

#[test]
fn media_slots_follow_participants() {
    let slots = participant_media_slots(&names(&["a", "me", "b", "c"]), "me");
    assert_eq!(slots, vec![MediaSlot::Remote(0), MediaSlot::Local, MediaSlot::Remote(1), MediaSlot::Remote(2)]);
}

#[test]
fn law_room_events_keep_participants_distinct_example() {
    let room = ActiveRoom { room_id: "r".into(), your_nickname: "me".into(), participants: vec!["me".into(), "ann".into()] };
    let joined = active_room_with_participant(Some(room), "ann".into()).unwrap();
    assert_eq!(joined.participants, vec!["me".to_string(), "ann".to_string()]);
    let joined = active_room_with_participant(Some(joined), "bob".into()).unwrap();
    assert_eq!(joined.participants, vec!["me".to_string(), "ann".to_string(), "bob".to_string()]);
    let left = active_room_without_participant(Some(joined), "ann").unwrap();
    assert_eq!(left.participants, vec!["me".to_string(), "bob".to_string()]);
}

#[test]
fn signaling_events_keep_other_fields() {
    let mut app = AppState::new();
    app.on_nickname_success("s1".into());
    app.on_signaling_event(SignalingEvent::Connected);
    assert!(app.handoff_complete);
    app.on_signaling_event(SignalingEvent::Left { room_id: "r".into() });
    assert!(app.handoff_complete);
    assert_eq!(app.session_id.as_deref(), Some("s1"));
    assert_eq!(app.screen, AppScreen::MainMenu);
}
