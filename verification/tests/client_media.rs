use callifornia::client::local_media::{failure_report, local_media_step, MediaAction, MediaFailure, MediaOp, MediaReply, MediaStage};
use callifornia::client::sdp_text::{join_with, lines_of, replace_crlf_with_lf, replace_lf_with_crlf, split_at_pattern};
use callifornia::client::webrtc_room::{
    is_stale, js_error_text, media_track_constraint, next_generation, remote_source_from_relay_track_id,
    rewrite_bundle_group, rewrite_offer_mids_for_sfu, rewrite_section_mid, str_eq_ignore_ascii_case, MediaConstraint,
    RemoteSource, outgoing_ice_candidate, slot_for_source, local_track_route, TrackSlot, SenderKind, SenderUse,
};

const OFFER: &str = "v=0\r\no=- 1 2 IN IP4 127.0.0.1\r\ns=-\r\nt=0 0\r\na=group:BUNDLE 0 1 2\r\n\
m=audio 9 UDP/TLS/RTP/SAVPF 111\r\na=mid:0\r\na=sendrecv\r\n\
m=video 9 UDP/TLS/RTP/SAVPF 96\r\na=mid:1\r\n\
m=video 9 UDP/TLS/RTP/SAVPF 97\r\na=mid:2\r\n";

#[test]
fn offer_mids_become_fixed_sfu_slots() {
    let out = rewrite_offer_mids_for_sfu(OFFER);
    assert_eq!(
        out,
        "v=0\r\no=- 1 2 IN IP4 127.0.0.1\r\ns=-\r\nt=0 0\r\n\
a=group:BUNDLE audio_main video_camera video_screen\r\n\
m=audio 9 UDP/TLS/RTP/SAVPF 111\r\na=mid:audio_main\r\na=sendrecv\r\n\
m=video 9 UDP/TLS/RTP/SAVPF 96\r\na=mid:video_camera\r\n\
m=video 9 UDP/TLS/RTP/SAVPF 97\r\na=mid:video_screen"
    );
}

#[test]
fn offer_other_sections_pass_unchanged() {
    let sdp = "v=0\na=group:BUNDLE 0 1\nm=application 9 DTLS/SCTP 5000\na=mid:0\nm=audio 9 RTP 0\na=mid:1\n";
    let out = rewrite_offer_mids_for_sfu(sdp);
    assert_eq!(
        out,
        "v=0\r\na=group:BUNDLE audio_main\r\nm=application 9 DTLS/SCTP 5000\r\na=mid:0\r\nm=audio 9 RTP 0\r\na=mid:audio_main"
    );
}

#[test]
fn offer_without_media_keeps_bundle_line() {
    let out = rewrite_offer_mids_for_sfu("v=0\r\na=group:BUNDLE 0\r\n");
    assert_eq!(out, "v=0\r\na=group:BUNDLE 0");
}

#[test]
fn section_mid_rewrite_records_old_ids() {
    let mut map: Vec<(String, String)> = Vec::new();
    let out = rewrite_section_mid("m=video 9\r\na=mid:a=mid:7\r\nx", "video_camera", &mut map);
    assert_eq!(out, "m=video 9\na=mid:video_camera\nx");
    assert_eq!(map, vec![("7".to_string(), "video_camera".to_string())]);
}

#[test]
fn bundle_group_lists_new_mids_in_order() {
    let map = vec![
        ("0".to_string(), "audio_main".to_string()),
        ("1".to_string(), "video_camera".to_string()),
    ];
    assert_eq!(
        rewrite_bundle_group("v=0\na=group:BUNDLE 0 1\ns=-", &map),
        "v=0\na=group:BUNDLE audio_main video_camera\ns=-"
    );
    assert_eq!(rewrite_bundle_group("a=group:BUNDLE 0", &[]), "a=group:BUNDLE 0");
}

#[test]
fn line_helpers_follow_std() {
    assert_eq!(replace_crlf_with_lf("a\r\nb\r\r\nc\r"), "a\nb\r\nc\r");
    assert_eq!(replace_lf_with_crlf("a\nb\n"), "a\r\nb\r\n");
    assert_eq!(lines_of("foo\r\nbar\n\nbaz\r"), vec!["foo", "bar", "", "baz\r"]);
    assert_eq!(lines_of(""), Vec::<String>::new());
    assert_eq!(lines_of("a\n"), vec!["a"]);
    assert_eq!(split_at_pattern("s\nm=a\nm=b", "\nm="), vec!["s", "a", "b"]);
    assert_eq!(split_at_pattern("", "\nm="), vec![""]);
    assert_eq!(join_with(&vec!["a".to_string(), "b".to_string()], ", "), "a, b");
    assert_eq!(join_with(&Vec::new(), ", "), "");
}

#[test]
fn relay_track_ids_name_publisher_and_source() {
    assert_eq!(
        remote_source_from_relay_track_id("alice|screen:3"),
        Some(("alice".to_string(), RemoteSource::Screen))
    );
    assert_eq!(
        remote_source_from_relay_track_id("bob|camera:1"),
        Some(("bob".to_string(), RemoteSource::Camera))
    );
    assert_eq!(
        remote_source_from_relay_track_id("bob|audio:0"),
        Some(("bob".to_string(), RemoteSource::Camera))
    );
    assert_eq!(remote_source_from_relay_track_id("bob|camera"), None);
    assert_eq!(remote_source_from_relay_track_id("nobar:1"), None);
    assert_eq!(remote_source_from_relay_track_id("|screen:1"), None);
    assert_eq!(remote_source_from_relay_track_id("bob|:1"), None);
}

#[test]
fn generations_saturate_and_mark_stale_work() {
    let mut g: u64 = 4;
    assert_eq!(next_generation(&mut g), 5);
    assert_eq!(g, 5);
    let mut top: u64 = u64::MAX;
    assert_eq!(next_generation(&mut top), u64::MAX);
    assert!(!is_stale(false, 5, 5));
    assert!(is_stale(false, 6, 5));
    assert!(is_stale(true, 5, 5));
}

#[test]
fn law_new_generation_makes_old_work_stale_example() {
    let mut current: u64 = 10;
    let started = current;
    assert!(!is_stale(false, current, started));
    next_generation(&mut current);
    assert!(is_stale(false, current, started));
}

#[test]
fn device_constraints() {
    assert_eq!(media_track_constraint(false, "mic-1"), MediaConstraint::Off);
    assert_eq!(media_track_constraint(true, "  "), MediaConstraint::Any);
    assert_eq!(media_track_constraint(true, " DeFault "), MediaConstraint::Any);
    assert_eq!(media_track_constraint(true, " mic-1 "), MediaConstraint::Device("mic-1".to_string()));
    assert!(str_eq_ignore_ascii_case("ABC", "abc"));
    assert!(!str_eq_ignore_ascii_case("ABC", "abd"));
    assert!(!str_eq_ignore_ascii_case("ab", "abc"));
}

#[test]
fn js_error_texts() {
    assert_eq!(
        js_error_text(Some("NotAllowedError".to_string()), Some("denied".to_string())),
        Some("NotAllowedError: denied".to_string())
    );
    assert_eq!(js_error_text(Some("E".to_string()), Some(String::new())), Some("E".to_string()));
    assert_eq!(js_error_text(Some("E".to_string()), None), Some("E".to_string()));
    assert_eq!(js_error_text(None, Some("m".to_string())), Some("m".to_string()));
    assert_eq!(js_error_text(None, None), None);
}

#[test]
fn local_media_decisions() {
    assert_eq!(outgoing_ice_candidate("candidate:1".into(), Some("0".into())), Some(("candidate:1".to_string(), "0".to_string())));
    assert_eq!(outgoing_ice_candidate("".into(), Some("0".into())), None);
    assert_eq!(outgoing_ice_candidate("candidate:1".into(), Some("".into())), None);
    assert_eq!(outgoing_ice_candidate("candidate:1".into(), None), None);
    assert_eq!(slot_for_source(RemoteSource::Screen), TrackSlot::Screen);
    assert_eq!(slot_for_source(RemoteSource::Camera), TrackSlot::Camera);
    assert_eq!(local_track_route("audio", true, false), Some((SenderKind::Audio, SenderUse::ReplaceTrack)));
    assert_eq!(local_track_route("video", true, false), Some((SenderKind::Video, SenderUse::AddTrack)));
    assert_eq!(local_track_route("data", true, true), None);
}

fn media_ops(a: MediaAction) -> Vec<MediaOp> {
    match a {
        MediaAction::Perform(ops) => ops,
        MediaAction::Finish => panic!("expected operations"),
    }
}

#[test]
fn apply_local_media_steps() {
    let start = MediaStage::Start { mic: true, camera: true, audio_sender: true, video_sender: false };
    let (stage, action) = local_media_step(start, MediaReply::Stale(false));
    assert_eq!(media_ops(action), vec![MediaOp::GetUserMedia { mic: true, camera: true }]);
    let (stage, _) = local_media_step(stage, MediaReply::Acquired(Ok(())));
    let (stage, action) = local_media_step(stage, MediaReply::Stale(false));
    assert_eq!(media_ops(action), vec![MediaOp::PrepareForSend]);
    let (stage, action) = local_media_step(stage, MediaReply::Tracks { audio: true, video: true });
    assert_eq!(media_ops(action), vec![MediaOp::ReplaceTrack { sender: SenderKind::Audio, with_new_track: true }]);
    let (stage, action) = local_media_step(stage, MediaReply::Replaced(Ok(())));
    assert_eq!(media_ops(action), vec![MediaOp::AddTrack { sender: SenderKind::Video }]);
    let (stage, action) = local_media_step(stage, MediaReply::Added(true));
    assert_eq!(media_ops(action), vec![MediaOp::SendOffer]);
    let (stage, action) = local_media_step(stage, MediaReply::Offered(Err("boom".into())));
    assert_eq!(media_ops(action), vec![
        MediaOp::Report { failure: MediaFailure::Renegotiate, detail: "boom".into() },
        MediaOp::StopSendStream,
        MediaOp::NotifyUpdated,
    ]);
    let (_, action) = local_media_step(stage, MediaReply::Done);
    assert_eq!(action, MediaAction::Finish);

    let off = MediaStage::Start { mic: false, camera: false, audio_sender: true, video_sender: true };
    let (stage, action) = local_media_step(off, MediaReply::Stale(false));
    assert_eq!(media_ops(action), vec![MediaOp::TeardownMicGraph, MediaOp::ReplaceTrack { sender: SenderKind::Audio, with_new_track: false }]);
    let (stage, action) = local_media_step(stage, MediaReply::Replaced(Err("x".into())));
    assert_eq!(media_ops(action), vec![
        MediaOp::Report { failure: MediaFailure::MuteMicrophone, detail: "x".into() },
        MediaOp::ReplaceTrack { sender: SenderKind::Video, with_new_track: false },
    ]);
    let (_, action) = local_media_step(stage, MediaReply::Replaced(Ok(())));
    assert_eq!(media_ops(action), vec![MediaOp::StopOldStream, MediaOp::NotifyUpdated]);

    let (_, action) = local_media_step(MediaStage::Start { mic: true, camera: false, audio_sender: false, video_sender: false }, MediaReply::Stale(true));
    assert_eq!(action, MediaAction::Finish);
    let r = failure_report(MediaFailure::SwitchCamera);
    assert_eq!((r.1, r.2), ("replace_video_track", "Could not switch camera on the active WebRTC sender."));
}
