use callifornia::client::components::nickname_entry::NicknameForm;
use callifornia::client::components::main_menu::MenuActions;
use callifornia::client::components::device_settings_left_panel::data as stub_data;
use callifornia::client::components::join_room_entry::{is_uuid_like, join_submit, room_input_error, JoinSubmit};
use callifornia::client::components::main_menu::prompted_room_id;
use callifornia::client::components::nickname_entry::{logo_data_url, nickname_submit, NicknameSubmit};
use callifornia::client::components::room::tiles::{truncate_str, MAX_NAME_CHARS};
use callifornia::client::components::room::{
    grid_page_count, page_next, page_prev, page_window, playback_sink_id, rail_page_count, screen_share_toggle,
    stage_caption, ScreenShareToggle,
};
use callifornia::client::components::screen_share_dialog::{share_disabled, share_target, status_text, toggle_selection};
use callifornia::client::components::settings_panel::data::{
    catalog_from_devices, catalog_len_for_kind, default_label, DeviceCatalog, DeviceKind,
};
use callifornia::client::components::settings_panel::slider_level;
use callifornia::client::handlers;
use callifornia::client::nickname::{validate_nickname, validate_nickname_live};
use callifornia::client::theme::Theme;
use callifornia::connector::message::validate_room_id;

#[test]
fn nickname_screen_checks() {
    assert_eq!(validate_nickname("alice_1"), Ok(()));
    assert_eq!(validate_nickname(""), Err("Nickname is required"));
    assert_eq!(validate_nickname("ab"), Err("Use at least 3 characters"));
    assert_eq!(validate_nickname("a".repeat(25).as_str()), Err("Use up to 24 characters"));
    assert_eq!(validate_nickname("___"), Err("Nickname cannot contain only underscores"));
    assert_eq!(validate_nickname("al ice"), Err("Spaces and line breaks are not allowed"));
    assert_eq!(validate_nickname("al-ice"), Err("Use only English letters, numbers, and underscores"));
    assert_eq!(validate_nickname("ålice"), Err("Use only English letters, numbers, and underscores"));
    assert_eq!(validate_nickname_live("ab", false), Ok(()));
    assert_eq!(validate_nickname_live("", false), Ok(()));
    assert_eq!(validate_nickname_live("ab", true), Err("Use at least 3 characters"));
    assert_eq!(validate_nickname_live("a\tb", false), Err("Spaces and line breaks are not allowed"));
}

#[test]
fn law_live_check_agrees_with_submit_example() {
    for value in ["", "ab", "abc", "___", "a b", "a-b", "abcdefghijklmnopqrstuvwxy"] {
        assert_eq!(validate_nickname_live(value, true), validate_nickname(value));
        if validate_nickname_live(value, false).is_err() {
            assert!(validate_nickname(value).is_err());
        }
    }
}

#[test]
fn handlers_nickname_checks() {
    assert_eq!(handlers::validate_nickname(""), Err("Nickname is required"));
    assert_eq!(handlers::validate_nickname("a b"), Err("Use only letters, numbers, and underscores"));
    assert_eq!(handlers::validate_nickname("ab"), Err("Use at least 3 characters"));
    assert_eq!(handlers::validate_nickname("x".repeat(25).as_str()), Err("Use up to 24 characters"));
    assert_eq!(handlers::validate_nickname("____"), Err("Nickname cannot contain only underscores"));
    assert_eq!(handlers::validate_nickname("bob_7"), Ok(()));
    assert_eq!(
        handlers::validate_nickname_live("a b", false),
        Err("Use only english letters, numbers, and underscores")
    );
    assert_eq!(handlers::validate_nickname_live("", false), Ok(()));
    assert_eq!(handlers::validate_nickname_live("", true), Err("Nickname is required"));
    assert_eq!(handlers::handle_nickname_change("  raw "), "  raw ");
    handlers::handle_continue_click("bob");
}

#[test]
fn law_handlers_live_accepts_what_submit_accepts_example() {
    for value in ["", "ab", "abc", "___", "a b", "abcdefghijklmnopqrstuvwxy", "ok_name"] {
        assert_eq!(handlers::validate_nickname_live(value, true).is_ok(), handlers::validate_nickname(value).is_ok());
        if handlers::validate_nickname(value).is_ok() {
            assert!(handlers::validate_nickname_live(value, false).is_ok());
        }
    }
}

#[test]
fn theme_toggles() {
    assert_eq!(Theme::Light.html_class(), "light");
    assert_eq!(Theme::Dark.html_class(), "dark");
    assert_eq!(Theme::Light.toggle(), Theme::Dark);
    assert_eq!(Theme::Light.next_label(), "Dark");
    assert_eq!(Theme::Dark.next_label(), "Light");
}

#[test]
fn law_toggle_involution_example() {
    for t in [Theme::Light, Theme::Dark] {
        assert_eq!(t.toggle().toggle(), t);
        assert_ne!(t.toggle(), t);
    }
}

#[test]
fn device_stub_catalog() {
    let c = stub_data::stub_device_catalog();
    assert_eq!(c.inputs.len(), 3);
    assert_eq!(c.outputs.len(), 3);
    assert_eq!(c.cameras.len(), 2);
    assert_eq!(c.inputs[0].id, "mic-default");
    assert_eq!(c.cameras[1].label, "OBS Virtual Camera");
    assert_eq!(stub_data::DeviceKind::Output.title(), "Speakers");
    assert_eq!(stub_data::DeviceKind::Camera.nav_label(), "CAMERA");
    assert_eq!(DeviceKind::Input.title(), "Microphone");
    assert_eq!(DeviceKind::Output.nav_label(), "OUTPUT");
}

#[test]
fn browser_devices_grouped_by_kind() {
    let devices = vec![
        ("audioinput".to_string(), "m1".to_string(), String::new()),
        ("audioinput".to_string(), "".to_string(), "skipped".to_string()),
        ("videoinput".to_string(), "c1".to_string(), "Cam".to_string()),
        ("audioinput".to_string(), "m2".to_string(), String::new()),
        ("audiooutput".to_string(), "s1".to_string(), String::new()),
        ("other".to_string(), "x".to_string(), String::new()),
    ];
    let c = catalog_from_devices(&devices);
    let names: Vec<(String, String)> = c.inputs.iter().map(|e| (e.id.clone(), e.label.clone())).collect();
    assert_eq!(names, vec![("m1".to_string(), "Microphone 1".to_string()), ("m2".to_string(), "Microphone 2".to_string())]);
    assert_eq!(c.outputs[0].label, "Speaker 1");
    assert_eq!(c.cameras[0].label, "Cam");
    assert_eq!(catalog_len_for_kind(&c, "audioinput"), 2);
    assert_eq!(catalog_len_for_kind(&c, "other"), 0);
    assert_eq!(default_label("videoinput", 3), "Camera 3");
    assert_eq!(default_label("x", 12), "Device 12");
    let empty = DeviceCatalog::default();
    assert_eq!(empty.inputs.len() + empty.outputs.len() + empty.cameras.len(), 0);
}

#[test]
fn slider_levels_clamp() {
    assert_eq!(slider_level("150"), 150);
    assert_eq!(slider_level("250"), 200);
    assert_eq!(slider_level("abc"), 100);
    assert_eq!(slider_level("+7"), 7);
    assert_eq!(slider_level("99999999999"), 100);
}

#[test]
fn room_id_checks() {
    let id = "123e4567-e89b-12d3-a456-426614174000";
    assert!(is_uuid_like(id));
    assert!(!is_uuid_like("123e4567e89b12d3a456426614174000"));
    assert!(!is_uuid_like("123e4567-e89b-12d3-a456-42661417400g"));
    assert_eq!(room_input_error("  "), Some("Enter a room ID."));
    assert_eq!(room_input_error(" x "), None);
    assert_eq!(join_submit(true, id), JoinSubmit::Ignore);
    assert_eq!(join_submit(false, "  "), JoinSubmit::Invalid("Enter a room ID."));
    assert_eq!(join_submit(false, "room-1"), JoinSubmit::Invalid("Room ID must be a UUID."));
    assert_eq!(join_submit(false, &format!(" {id} ")), JoinSubmit::Join(id.to_string()));
}

#[test]
fn law_uuid_like_is_uuid_text_example() {
    let id = "A23E4567-E89B-12D3-A456-426614174000";
    assert!(is_uuid_like(id));
    assert!(validate_room_id(id).is_ok());
}

#[test]
fn main_menu_prompt() {
    assert_eq!(prompted_room_id(false, Some("  abc ".to_string())), Some("abc".to_string()));
    assert_eq!(prompted_room_id(false, Some("   ".to_string())), None);
    assert_eq!(prompted_room_id(false, None), None);
    assert_eq!(prompted_room_id(true, Some("abc".to_string())), None);
}

#[test]
fn nickname_entry_submit_and_logo() {
    assert_eq!(nickname_submit(true, "alice"), NicknameSubmit::Ignore);
    assert_eq!(nickname_submit(false, "alice"), NicknameSubmit::Submit);
    assert_eq!(nickname_submit(false, "a"), NicknameSubmit::Invalid("Use at least 3 characters"));
    assert_eq!(logo_data_url(b"Man"), "data:image/png;base64,TWFu");
    assert_eq!(logo_data_url(b"Ma"), "data:image/png;base64,TWE=");
    assert_eq!(logo_data_url(b"M"), "data:image/png;base64,TQ==");
    assert_eq!(logo_data_url(&[0xfb, 0xff]), "data:image/png;base64,+/8=");
    assert_eq!(logo_data_url(b""), "data:image/png;base64,");
}

#[test]
fn tile_names_truncate() {
    assert_eq!(truncate_str("alice", MAX_NAME_CHARS), "alice");
    assert_eq!(truncate_str("abcdef", 4), "abc…");
    assert_eq!(truncate_str("abcdef", 0), "");
    assert_eq!(truncate_str("", 0), "");
    assert_eq!(truncate_str("ααααα", 3), "αα…");
}

#[test]
fn law_truncate_bounded_example() {
    for (s, max) in [("abcdefgh", 5usize), ("abc", 5), ("abc", 3), ("abcd", 1), ("abcd", 0)] {
        let t = truncate_str(s, max);
        assert!(t.chars().count() <= max);
        if s.chars().count() <= max {
            assert_eq!(t, s);
        }
    }
}

#[test]
fn room_paging() {
    assert_eq!(grid_page_count(0), 1);
    assert_eq!(grid_page_count(6), 1);
    assert_eq!(grid_page_count(7), 2);
    assert_eq!(grid_page_count(13), 3);
    assert_eq!(rail_page_count(0), 1);
    assert_eq!(rail_page_count(5), 2);
    assert_eq!(rail_page_count(9), 3);
    let w = page_window(false, 1, 8);
    assert_eq!((w.page, w.page_count, w.start, w.end, w.show_arrows), (1, 2, 6, 8, true));
    let w = page_window(false, 5, 3);
    assert_eq!((w.page, w.page_count, w.start, w.end, w.show_arrows), (0, 1, 0, 3, false));
    let w = page_window(true, 7, 9);
    assert_eq!((w.page, w.page_count, w.start, w.end, w.show_arrows), (2, 3, 8, 9, true));
    let w = page_window(true, 0, 0);
    assert_eq!((w.start, w.end, w.show_arrows), (0, 0, false));
    assert_eq!(page_prev(0), 0);
    assert_eq!(page_prev(3), 2);
    assert_eq!(page_next(0, 3), 1);
    assert_eq!(page_next(2, 3), 2);
    assert_eq!(page_next(0, 0), 0);
}

#[test]
fn law_pages_cover_participants_example() {
    for presentation in [false, true] {
        let total = 17usize;
        let first = page_window(presentation, 0, total);
        assert_eq!(first.start, 0);
        for p in 0..first.page_count - 1 {
            assert_eq!(page_window(presentation, p + 1, total).start, page_window(presentation, p, total).end);
        }
        assert_eq!(page_window(presentation, first.page_count - 1, total).end, total);
    }
}

#[test]
fn room_stage_and_playback() {
    assert_eq!(stage_caption(true, Some("bob")), "Your screen");
    assert_eq!(stage_caption(false, Some("bob")), "bob");
    assert_eq!(stage_caption(false, None), "Shared screen");
    assert_eq!(playback_sink_id("  spk-1 "), Some("spk-1".to_string()));
    assert_eq!(playback_sink_id("DEFAULT"), None);
    assert_eq!(playback_sink_id(""), None);
    assert_eq!(screen_share_toggle(true), ScreenShareToggle::Stop);
    assert_eq!(screen_share_toggle(false), ScreenShareToggle::OpenPicker);
}

#[test]
fn display_picker() {
    assert_eq!(toggle_selection(None, 2), Some(2));
    assert_eq!(toggle_selection(Some(2), 2), None);
    assert_eq!(toggle_selection(Some(1), 2), Some(2));
    let labels = vec!["Screen 1".to_string(), "Screen 2".to_string()];
    assert_eq!(status_text(true, &labels, None), "Loading displays…");
    assert_eq!(status_text(false, &Vec::new(), Some(0)), "No screens detected");
    assert_eq!(status_text(false, &labels, Some(1)), "Selected: Screen 2 — press Share to start");
    assert_eq!(status_text(false, &labels, Some(5)), "Selected:  — press Share to start");
    assert_eq!(status_text(false, &labels, None), "Pick a display below, then press Share.");
    assert!(share_disabled(false, 2, None));
    assert!(!share_disabled(false, 2, Some(0)));
    assert!(share_disabled(true, 2, Some(0)));
    assert_eq!(share_target(Some(1), 2), Some(1));
    assert_eq!(share_target(Some(2), 2), None);
}

#[test]
fn nickname_form_steps() {
    let mut form = NicknameForm::new();
    form.on_input("ab".to_string());
    assert_eq!(form.validation_error, None);
    assert_eq!(form.on_submit(), None);
    assert!(form.attempted_submit);
    assert!(!form.is_submitting);
    assert_eq!(form.validation_error.as_deref(), Some("Use at least 3 characters"));
    form.on_input("ab".to_string());
    assert_eq!(form.validation_error.as_deref(), Some("Use at least 3 characters"));
    form.on_input("alice".to_string());
    assert_eq!(form.validation_error, None);
    assert_eq!(form.on_submit(), Some("alice".to_string()));
    assert!(form.is_submitting);
    assert_eq!(form.on_submit(), None);
    assert_eq!(form.on_auth_result(Err("Nickname already taken".to_string())), None);
    assert!(!form.is_submitting);
    assert_eq!(form.validation_error.as_deref(), Some("Nickname already taken"));
    assert_eq!(form.on_submit(), Some("alice".to_string()));
    assert_eq!(form.on_auth_result(Ok("sess-1".to_string())), Some("sess-1".to_string()));
    assert!(!form.is_submitting);
}

#[test]
fn main_menu_actions() {
    let mut menu = MenuActions::new();
    assert!(menu.on_create());
    assert!(menu.action_busy);
    assert!(!menu.on_create());
    assert_eq!(menu.on_join(Some("r1".to_string())), None);
    assert!(!menu.on_action_result(Err("Room not found".to_string())));
    assert!(!menu.action_busy);
    assert_eq!(menu.action_error.as_deref(), Some("Room not found"));
    assert_eq!(menu.on_join(Some("   ".to_string())), None);
    assert_eq!(menu.action_error.as_deref(), Some("Room not found"));
    assert_eq!(menu.on_join(Some(" r2 ".to_string())), Some("r2".to_string()));
    assert_eq!(menu.action_error, None);
    assert!(menu.on_action_result(Ok(())));
    assert!(!menu.action_busy);
}
