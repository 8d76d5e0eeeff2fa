//! The client's state: the room it is in, who is there, and its settings.

use vstd::prelude::*;
use crate::client::connector_api::SignalingReadyResponse;
use crate::client::signaling::{has_name, leave_message, push_if_absent, with_self, ClientMessage, RoomSnapshot, ServerErrorCode, SignalingEvent, SignalingIntent, SignalingStart};
use crate::client::theme::Theme;
use crate::decimal::{decimal, decimal_string};
use crate::text::{concat2, concat3, opt_view, str_eq, strings_view};

verus! {

/// The room the client is in.
#[derive(Clone, Debug, PartialEq, Eq)]
pub struct ActiveRoom {
    pub room_id: String,
    pub your_nickname: String,
    pub participants: Vec<String>,
}

/// The names of `names` in order, each once: later repeats are dropped.
pub open spec fn unique(names: Seq<Seq<char>>) -> Seq<Seq<char>>
    decreases names.len(),
{
    if names.len() == 0 {
        Seq::empty()
    } else {
        with_self(unique(names.drop_last()), names.last())
    }
}

/// `names` without every occurrence of `name`.
pub open spec fn without_name(names: Seq<Seq<char>>, name: Seq<char>) -> Seq<Seq<char>>
    decreases names.len(),
{
    if names.len() == 0 {
        Seq::empty()
    } else if names.last() == name {
        without_name(names.drop_last(), name)
    } else {
        without_name(names.drop_last(), name).push(names.last())
    }
}

/// The participants, each once, in the order they first appear.
pub fn unique_participants(participants: Vec<String>) -> (r: Vec<String>)
    ensures
        strings_view(r@) == unique(strings_view(participants@)),
{
    let ghost pv = strings_view(participants@);
    let mut out: Vec<String> = Vec::new();
    let mut i: usize = 0;
    proof {
        assert(pv.take(0) =~= Seq::<Seq<char>>::empty());
        assert(strings_view(out@) =~= Seq::<Seq<char>>::empty());
    }
    while i < participants.len()
        invariant
            pv == strings_view(participants@),
            i <= participants@.len(),
            strings_view(out@) == unique(pv.take(i as int)),
        decreases participants.len() - i,
    {
        proof {
            assert(pv.take(i + 1).drop_last() =~= pv.take(i as int));
            assert(pv.take(i + 1).last() == participants@[i as int]@);
        }
        out = push_if_absent(out, participants[i].as_str());
        i = i + 1;
    }
    proof {
        assert(pv.take(participants@.len() as int) =~= pv);
    }
    out
}

impl ActiveRoom {
    /// The room a snapshot describes, each participant listed once.
    pub fn from_snapshot(snapshot: RoomSnapshot) -> (r: Self)
        ensures
            r.room_id == snapshot.room_id,
            r.your_nickname == snapshot.your_nickname,
            strings_view(r.participants@) == unique(strings_view(snapshot.participants@)),
    {
        ActiveRoom {
            room_id: snapshot.room_id,
            your_nickname: snapshot.your_nickname,
            participants: unique_participants(snapshot.participants),
        }
    }
}

/// The room after `nickname` joins: added at the end unless already listed; no room
/// stays none.
pub fn active_room_with_participant(room: Option<ActiveRoom>, nickname: String) -> (r: Option<ActiveRoom>)
    ensures
        r is Some <==> room is Some,
        room matches Some(before) ==> (r matches Some(after) && after.room_id == before.room_id
            && after.your_nickname == before.your_nickname
            && strings_view(after.participants@) == with_self(strings_view(before.participants@), nickname@)),
{
    match room {
        Some(room) => {
            let participants = push_if_absent(room.participants, nickname.as_str());
            Some(ActiveRoom { room_id: room.room_id, your_nickname: room.your_nickname, participants })
        },
        None => None,
    }
}

/// The room after `nickname` leaves: every listing of it removed; no room stays none.
pub fn active_room_without_participant(room: Option<ActiveRoom>, nickname: &str) -> (r: Option<ActiveRoom>)
    ensures
        r is Some <==> room is Some,
        room matches Some(before) ==> (r matches Some(after) && after.room_id == before.room_id
            && after.your_nickname == before.your_nickname
            && strings_view(after.participants@) == without_name(strings_view(before.participants@), nickname@)),
{
    match room {
        Some(room) => {
            let ghost pv = strings_view(room.participants@);
            let mut kept: Vec<String> = Vec::new();
            let mut i: usize = 0;
            proof {
                assert(pv.take(0) =~= Seq::<Seq<char>>::empty());
                assert(strings_view(kept@) =~= Seq::<Seq<char>>::empty());
            }
            while i < room.participants.len()
                invariant
                    pv == strings_view(room.participants@),
                    i <= room.participants@.len(),
                    strings_view(kept@) == without_name(pv.take(i as int), nickname@),
                decreases room.participants.len() - i,
            {
                proof {
                    assert(pv.take(i + 1).drop_last() =~= pv.take(i as int));
                    assert(pv.take(i + 1).last() == room.participants@[i as int]@);
                }
                if !str_eq(room.participants[i].as_str(), nickname) {
                    let ghost before = kept@;
                    kept.push(room.participants[i].clone());
                    assert(strings_view(kept@) =~= strings_view(before).push(room.participants@[i as int]@));
                }
                i = i + 1;
            }
            proof {
                assert(pv.take(room.participants@.len() as int) =~= pv);
            }
            Some(ActiveRoom { room_id: room.room_id, your_nickname: room.your_nickname, participants: kept })
        },
        None => None,
    }
}

/// Listing names once keeps exactly the names there were, with no repeats.
pub proof fn law_unique_keeps_names_once(names: Seq<Seq<char>>, x: Seq<char>)
    ensures
        has_name(unique(names), x) <==> has_name(names, x),
        unique(names).no_duplicates(),
    decreases names.len(),
{
    if names.len() > 0 {
        let init = names.drop_last();
        let u = unique(init);
        law_unique_keeps_names_once(init, x);
        law_unique_keeps_names_once(init, names.last());
        if has_name(names, x) {
            let i = choose|i: int| 0 <= i < names.len() && names[i] == x;
            if i < names.len() - 1 {
                assert(init[i] == x);
            }
        }
        if has_name(init, x) {
            let i = choose|i: int| 0 <= i < init.len() && init[i] == x;
            assert(names[i] == x);
        }
        if !has_name(u, names.last()) {
            let w = u.push(names.last());
            if has_name(u, x) {
                let i = choose|i: int| 0 <= i < u.len() && u[i] == x;
                assert(w[i] == x);
            }
            if has_name(w, x) {
                let i = choose|i: int| 0 <= i < w.len() && w[i] == x;
                if i < u.len() {
                    assert(u[i] == x);
                }
            }
            assert(w[u.len() as int] == names.last());
            assert forall|a: int, b: int| 0 <= a < w.len() && 0 <= b < w.len() && a != b implies w[a] != w[b] by {
                if a < u.len() && b < u.len() {
                } else if a < u.len() {
                    assert(u[a] != names.last());
                } else {
                    assert(u[b] != names.last());
                }
            }
        }
    }
}

/// After `name` leaves, it is no longer listed; every other listed name stays.
pub proof fn law_leave_removes_only_that_name(names: Seq<Seq<char>>, name: Seq<char>, x: Seq<char>)
    ensures
        !has_name(without_name(names, name), name),
        x != name ==> (has_name(without_name(names, name), x) <==> has_name(names, x)),
    decreases names.len(),
{
    if names.len() > 0 {
        let init = names.drop_last();
        let rest = without_name(init, name);
        law_leave_removes_only_that_name(init, name, x);
        if has_name(names, x) {
            let i = choose|i: int| 0 <= i < names.len() && names[i] == x;
            if i < names.len() - 1 {
                assert(init[i] == x);
            }
        }
        if has_name(init, x) {
            let i = choose|i: int| 0 <= i < init.len() && init[i] == x;
            assert(names[i] == x);
        }
        if names.last() != name {
            let w = rest.push(names.last());
            if has_name(rest, x) {
                let i = choose|i: int| 0 <= i < rest.len() && rest[i] == x;
                assert(w[i] == x);
            }
            if has_name(w, x) {
                let i = choose|i: int| 0 <= i < w.len() && w[i] == x;
                if i < rest.len() {
                    assert(rest[i] == x);
                }
            }
            assert(w[rest.len() as int] == names.last());
            if has_name(w, name) {
                let i = choose|i: int| 0 <= i < w.len() && w[i] == name;
                if i < rest.len() {
                    assert(rest[i] == name);
                }
            }
        }
    }
}

/// Joins and leaves keep a room's participant list free of duplicates: adding a name
/// that may already be listed, or removing every copy of one, leaves each name listed
/// at most once.
pub proof fn law_room_events_keep_participants_distinct(names: Seq<Seq<char>>, name: Seq<char>)
    requires
        names.no_duplicates(),
    ensures
        with_self(names, name).no_duplicates(),
        without_name(names, name).no_duplicates(),
    decreases names.len(),
{
    if !has_name(names, name) {
        let w = names.push(name);
        assert forall|i: int, j: int| 0 <= i < w.len() && 0 <= j < w.len() && i != j implies w[i] != w[j] by {
            if i == names.len() as int {
                assert(names[j] == name ==> has_name(names, name));
            } else if j == names.len() as int {
                assert(names[i] == name ==> has_name(names, name));
            }
        }
    }
    if names.len() > 0 {
        let init = names.drop_last();
        assert(init.no_duplicates());
        law_room_events_keep_participants_distinct(init, name);
        if names.last() != name {
            let rest = without_name(init, name);
            law_leave_removes_only_that_name(init, name, names.last());
            if has_name(init, names.last()) {
                let k = choose|k: int| 0 <= k < init.len() && init[k] == names.last();
                assert(names[k] == names[names.len() - 1]);
            }
            let w = rest.push(names.last());
            assert forall|i: int, j: int| 0 <= i < w.len() && 0 <= j < w.len() && i != j implies w[i] != w[j] by {
                if i == rest.len() as int {
                    assert(rest[j] == names.last() ==> has_name(rest, names.last()));
                } else if j == rest.len() as int {
                    assert(rest[i] == names.last() ==> has_name(rest, names.last()));
                }
            }
        }
    }
}

/// The client's settings.
#[derive(Clone, Debug, PartialEq, Eq)]
pub struct SettingsState {
    pub theme: Theme,
    pub mic_enabled: bool,
    pub camera_enabled: bool,
    pub input_level: u32,
    pub output_level: u32,
    pub mic_device_id: String,
    pub speaker_device_id: String,
    pub camera_device_id: String,
}

impl Default for SettingsState {
    /// Light theme, microphone on, camera off, full levels, default devices.
    fn default() -> (r: Self)
        ensures
            r.theme == Theme::Light,
            r.mic_enabled && !r.camera_enabled,
            r.input_level == 100 && r.output_level == 100,
            r.mic_device_id@ == "default"@ && r.speaker_device_id@ == "default"@ && r.camera_device_id@ == "default"@,
    {
        SettingsState {
            theme: Theme::Light,
            mic_enabled: true,
            camera_enabled: false,
            input_level: 100,
            output_level: 100,
            mic_device_id: String::from_str("default"),
            speaker_device_id: String::from_str("default"),
            camera_device_id: String::from_str("default"),
        }
    }
}

// ── Screens and state ────────────────────────────────────────────────────────

/// The screen the client shows.
#[derive(Clone, Copy, Debug, PartialEq, Eq)]
pub enum AppScreen {
    Nickname,
    MainMenu,
    JoinRoom,
    Room,
}

/// Everything the client's root screen keeps between events.
#[derive(Clone, Debug)]
pub struct AppState {
    pub screen: AppScreen,
    pub session_id: Option<String>,
    /// The signaling connection opened, so closing the page no longer logs out.
    pub handoff_complete: bool,
    /// Signaling renews the session while connected, so the client need not.
    pub signaling_ws_connected: bool,
    pub signaling_start: Option<SignalingStart>,
    pub active_room: Option<ActiveRoom>,
    pub app_error: Option<String>,
}

/// What the client passes on to its media session.
#[derive(Clone, Debug, PartialEq, Eq)]
pub enum MediaEvent {
    RemoteSdp { sdp: String, sdp_type: String },
    RemoteIceCandidate { candidate: String, sdp_mid: String },
}

/// The reset that ends a signaling conversation and returns to the main menu.
pub open spec fn left_for_menu(before: AppState, after: AppState) -> bool {
    &&& after.active_room is None
    &&& after.signaling_start is None
    &&& !after.signaling_ws_connected
    &&& after.screen == AppScreen::MainMenu
    &&& after.session_id == before.session_id
}

/// `after` keeps `before`'s session, and each of the other fields whose flag is set.
pub open spec fn keeps(
    before: AppState,
    after: AppState,
    screen: bool,
    handoff: bool,
    ws: bool,
    start: bool,
    room: bool,
    error: bool,
) -> bool {
    &&& after.session_id == before.session_id
    &&& screen ==> after.screen == before.screen
    &&& handoff ==> after.handoff_complete == before.handoff_complete
    &&& ws ==> after.signaling_ws_connected == before.signaling_ws_connected
    &&& start ==> after.signaling_start == before.signaling_start
    &&& room ==> after.active_room == before.active_room
    &&& error ==> after.app_error == before.app_error
}

/// The message shown when the signaling server reports a dependency down.
pub open spec fn unavailable_message(dependency: Seq<char>, retry_after_ms: u32) -> Seq<char> {
    dependency + " unavailable. Retry after "@ + decimal(retry_after_ms as nat) + " ms."@
}

/// An error code that ends the attempt to enter a room.
pub open spec fn ends_attempt(code: Option<ServerErrorCode>) -> bool {
    code == Some(ServerErrorCode::InvalidRoomAssignment) || code == Some(ServerErrorCode::SfuCapacityExhausted)
}

impl AppState {
    /// The state at start: the nickname screen, nothing else.
    pub fn new() -> (r: Self)
        ensures
            r.screen == AppScreen::Nickname,
            r.session_id is None && r.signaling_start is None && r.active_room is None && r.app_error is None,
            !r.handoff_complete && !r.signaling_ws_connected,
    {
        AppState {
            screen: AppScreen::Nickname,
            session_id: None,
            handoff_complete: false,
            signaling_ws_connected: false,
            signaling_start: None,
            active_room: None,
            app_error: None,
        }
    }

    /// A nickname was accepted with session `session_id`: on to the main menu, afresh.
    pub fn on_nickname_success(&mut self, session_id: String)
        ensures
            final(self).session_id == Some(session_id),
            final(self).screen == AppScreen::MainMenu,
            !final(self).handoff_complete && !final(self).signaling_ws_connected,
            final(self).signaling_start is None && final(self).active_room is None && final(self).app_error is None,
    {
        self.session_id = Some(session_id);
        self.handoff_complete = false;
        self.signaling_ws_connected = false;
        self.signaling_start = None;
        self.active_room = None;
        self.app_error = None;
        self.screen = AppScreen::MainMenu;
    }

    /// Back to the nickname screen, forgetting the session.
    pub fn on_back_to_nickname(&mut self)
        ensures
            final(self).screen == AppScreen::Nickname,
            final(self).session_id is None && final(self).signaling_start is None,
            final(self).active_room is None && final(self).app_error is None,
            !final(self).handoff_complete && !final(self).signaling_ws_connected,
    {
        self.session_id = None;
        self.signaling_ws_connected = false;
        self.signaling_start = None;
        self.active_room = None;
        self.handoff_complete = false;
        self.app_error = None;
        self.screen = AppScreen::Nickname;
    }

    /// On to the join screen.
    pub fn on_open_join_room(&mut self)
        ensures
            *final(self) == (AppState { screen: AppScreen::JoinRoom, ..*old(self) }),
    {
        self.screen = AppScreen::JoinRoom;
    }

    /// Back to the main menu, leaving the room: returns the leave message to send when
    /// connected to signaling with a session and a room.
    pub fn on_back_to_main_menu(&mut self, signaling_connected: bool) -> (r: Option<ClientMessage>)
        ensures
            left_for_menu(*old(self), *final(self)),
            final(self).app_error is None,
            final(self).handoff_complete == old(self).handoff_complete,
            r is Some <==> (signaling_connected && old(self).session_id is Some && old(self).active_room is Some),
            r matches Some(m) ==> (m matches ClientMessage::Leave { session_id, room_id, participants: Some(p) }
                && old(self).session_id matches Some(s) && old(self).active_room matches Some(room)
                && session_id@ == s@ && room_id@ == room.room_id@ && strings_view(p@) == strings_view(room.participants@)),
    {
        let leave = if signaling_connected {
            match (&self.session_id, &self.active_room) {
                (Some(session), Some(room)) => Some(
                    leave_message(session.as_str(), room.room_id.as_str(), &room.participants),
                ),
                _ => None,
            }
        } else {
            None
        };
        self.signaling_start = None;
        self.active_room = None;
        self.signaling_ws_connected = false;
        self.app_error = None;
        self.screen = AppScreen::MainMenu;
        leave
    }

    /// The connector answered a create or join: start the signaling conversation.
    pub fn on_signaling_ready(&mut self, response: SignalingReadyResponse, intent: SignalingIntent)
        ensures
            final(self).app_error is None,
            final(self).signaling_start matches Some(st) && st.signaling_url == response.signaling_url
                && st.session_id == response.session_id && st.token == response.token && st.intent == intent,
            final(self).screen == old(self).screen && final(self).session_id == old(self).session_id,
            final(self).active_room == old(self).active_room,
    {
        self.app_error = None;
        self.signaling_start = Some(SignalingStart::new(response, intent));
    }

    /// Connecting to signaling failed with `error`: report it on the main menu.
    pub fn on_connect_failed(&mut self, error: String)
        ensures
            final(self).app_error == Some(error),
            final(self).screen == AppScreen::MainMenu,
            final(self).active_room == old(self).active_room,
            final(self).signaling_start == old(self).signaling_start,
    {
        self.app_error = Some(error);
        self.screen = AppScreen::MainMenu;
    }

    /// While a session exists and signaling is not connected, the client renews the
    /// session itself.
    pub fn should_renew_session(&self) -> (r: bool)
        ensures
            r == (self.session_id is Some && !self.signaling_ws_connected),
    {
        self.session_id.is_some() && !self.signaling_ws_connected
    }

    /// While a session exists and the hand-off to signaling has not happened, leaving
    /// the page logs the session out.
    pub fn should_logout_on_pagehide(&self) -> (r: bool)
        ensures
            r == (self.session_id is Some && !self.handoff_complete),
    {
        self.session_id.is_some() && !self.handoff_complete
    }

    fn leave_for_menu(&mut self)
        ensures
            left_for_menu(*old(self), *final(self)),
            final(self).app_error == old(self).app_error,
            final(self).handoff_complete == old(self).handoff_complete,
    {
        self.active_room = None;
        self.signaling_start = None;
        self.signaling_ws_connected = false;
        self.screen = AppScreen::MainMenu;
    }

    /// Applies a signaling event; remote SDP and ICE candidates are handed back for
    /// the media session.
    pub fn on_signaling_event(&mut self, event: SignalingEvent) -> (r: Option<MediaEvent>)
        ensures
            final(self).session_id == old(self).session_id,
            event is Connected ==> final(self).signaling_ws_connected && final(self).handoff_complete
                && keeps(*old(self), *final(self), true, false, false, true, true, true),
            event matches SignalingEvent::Disconnected { reason } ==> {
                &&& !final(self).signaling_ws_connected
                &&& keeps(*old(self), *final(self), false, true, false, false, true, false)
                &&& old(self).active_room is Some ==> keeps(*old(self), *final(self), true, true, false, true, true, true)
                &&& old(self).active_room is None ==> final(self).screen == AppScreen::MainMenu
                    && final(self).signaling_start is None
                    && opt_view(final(self).app_error) == match reason {
                        Some(why) => Some("Signaling disconnected before joining room: "@ + why@),
                        None => opt_view(old(self).app_error),
                    }
            },
            event matches SignalingEvent::RoomReady(snapshot) ==> (final(self).active_room matches Some(room)
                && room.room_id == snapshot.room_id && room.your_nickname == snapshot.your_nickname
                && strings_view(room.participants@) == unique(strings_view(snapshot.participants@))
                && final(self).app_error is None && final(self).screen == AppScreen::Room
                && keeps(*old(self), *final(self), false, true, true, true, false, false)),
            event matches SignalingEvent::ParticipantJoined(n) ==> (keeps(*old(self), *final(self), true, true, true, true, false, true)
                && (final(self).active_room is Some <==> old(self).active_room is Some)
                && (old(self).active_room matches Some(before) ==> (final(self).active_room matches Some(after)
                    && after.room_id == before.room_id && after.your_nickname == before.your_nickname
                    && strings_view(after.participants@) == with_self(strings_view(before.participants@), n@)))),
            event matches SignalingEvent::ParticipantLeft(n) ==> (keeps(*old(self), *final(self), true, true, true, true, false, true)
                && (final(self).active_room is Some <==> old(self).active_room is Some)
                && (old(self).active_room matches Some(before) ==> (final(self).active_room matches Some(after)
                    && after.room_id == before.room_id && after.your_nickname == before.your_nickname
                    && strings_view(after.participants@) == without_name(strings_view(before.participants@), n@)))),
            event matches SignalingEvent::Left { room_id } ==> left_for_menu(*old(self), *final(self))
                && final(self).handoff_complete == old(self).handoff_complete
                && opt_view(final(self).app_error) == Some("Left room "@ + room_id@ + "."@),
            event matches SignalingEvent::RoomClosed { room_id, reason } ==> left_for_menu(*old(self), *final(self))
                && final(self).handoff_complete == old(self).handoff_complete
                && opt_view(final(self).app_error) == Some("Room "@ + room_id@ + " closed: "@ + reason@),
            event matches SignalingEvent::Error(e) ==> {
                &&& final(self).app_error == Some(e.message)
                &&& ends_attempt(e.code) ==> left_for_menu(*old(self), *final(self)) && !final(self).handoff_complete
                &&& !ends_attempt(e.code) ==> keeps(*old(self), *final(self), true, true, true, true, true, false)
            },
            event matches SignalingEvent::ServiceUnavailable { dependency, retry_after_ms } ==> left_for_menu(
                *old(self),
                *final(self),
            ) && final(self).handoff_complete == old(self).handoff_complete
                && opt_view(final(self).app_error) == Some(unavailable_message(dependency@, retry_after_ms)),
            event matches SignalingEvent::RemoteSdp { sdp, sdp_type } ==> r == Some(MediaEvent::RemoteSdp { sdp, sdp_type })
                && *final(self) == *old(self),
            event matches SignalingEvent::RemoteIceCandidate { candidate, sdp_mid } ==> r == Some(
                MediaEvent::RemoteIceCandidate { candidate, sdp_mid },
            ) && *final(self) == *old(self),
            !(event is RemoteSdp || event is RemoteIceCandidate) ==> r is None,
    {
        match event {
            SignalingEvent::Connected => {
                self.signaling_ws_connected = true;
                self.handoff_complete = true;
                None
            },
            SignalingEvent::Disconnected { reason } => {
                self.signaling_ws_connected = false;
                if self.active_room.is_none() {
                    match reason {
                        Some(why) => {
                            self.app_error = Some(concat2("Signaling disconnected before joining room: ", why.as_str()));
                        },
                        None => {},
                    }
                    self.signaling_start = None;
                    self.screen = AppScreen::MainMenu;
                }
                None
            },
            SignalingEvent::RoomReady(snapshot) => {
                self.active_room = Some(ActiveRoom::from_snapshot(snapshot));
                self.app_error = None;
                self.screen = AppScreen::Room;
                None
            },
            SignalingEvent::ParticipantJoined(nickname) => {
                let room = self.active_room.take();
                self.active_room = active_room_with_participant(room, nickname);
                None
            },
            SignalingEvent::ParticipantLeft(nickname) => {
                let room = self.active_room.take();
                self.active_room = active_room_without_participant(room, nickname.as_str());
                None
            },
            SignalingEvent::Left { room_id } => {
                self.leave_for_menu();
                self.app_error = Some(concat3("Left room ", room_id.as_str(), "."));
                None
            },
            SignalingEvent::RoomClosed { room_id, reason } => {
                self.leave_for_menu();
                self.app_error = Some(concat3("Room ", room_id.as_str(), " closed: ").concat(reason.as_str()));
                None
            },
            SignalingEvent::Error(error) => {
                let ends = match error.code {
                    Some(ServerErrorCode::InvalidRoomAssignment) => true,
                    Some(ServerErrorCode::SfuCapacityExhausted) => true,
                    _ => false,
                };
                if ends {
                    self.leave_for_menu();
                    self.handoff_complete = false;
                }
                self.app_error = Some(error.message);
                None
            },
            SignalingEvent::ServiceUnavailable { dependency, retry_after_ms } => {
                self.leave_for_menu();
                let text = concat3(dependency.as_str(), " unavailable. Retry after ", decimal_string(retry_after_ms as u64).as_str())
                    .concat(" ms.");
                self.app_error = Some(text);
                None
            },
            SignalingEvent::RemoteSdp { sdp, sdp_type } => Some(MediaEvent::RemoteSdp { sdp, sdp_type }),
            SignalingEvent::RemoteIceCandidate { candidate, sdp_mid } => Some(
                MediaEvent::RemoteIceCandidate { candidate, sdp_mid },
            ),
        }
    }
}

/// Where a participant tile's video comes from.
#[derive(Clone, Copy, Debug, PartialEq, Eq)]
pub enum MediaSlot {
    /// The client's own camera.
    Local,
    /// The remote stream at this index, in arrival order.
    Remote(usize),
}

/// The names other than `me`, in order.
pub open spec fn others(names: Seq<Seq<char>>, me: Seq<char>) -> Seq<Seq<char>> {
    without_name(names, me)
}

/// The first position of `name` in `names`; zero when absent.
pub open spec fn position_or_zero(names: Seq<Seq<char>>, name: Seq<char>) -> int {
    if exists|i: int| 0 <= i < names.len() && names[i] == name {
        choose|i: int| 0 <= i < names.len() && names[i] == name && forall|j: int| 0 <= j < i ==> names[j] != name
    } else {
        0
    }
}

/// The first position of `name` among `names`, if any.
fn first_position(names: &Vec<String>, name: &str) -> (r: Option<usize>)
    ensures
        r matches Some(i) ==> position_or_zero(strings_view(names@), name@) == i && i < names@.len(),
        r is None ==> position_or_zero(strings_view(names@), name@) == 0,
{
    let ghost nv = strings_view(names@);
    let mut at: usize = 0;
    while at < names.len()
        invariant
            nv == strings_view(names@),
            at <= names@.len(),
            forall|j: int| 0 <= j < at ==> nv[j] != name@,
        decreases names.len() - at,
    {
        if str_eq(names[at].as_str(), name) {
            proof {
                assert(nv[at as int] == name@);
                assert(0 <= at < nv.len() && nv[at as int] == name@ && forall|j: int| 0 <= j < at ==> nv[j] != name@);
                let w = choose|w: int| 0 <= w < nv.len() && nv[w] == name@ && forall|j: int| 0 <= j < w ==> nv[j] != name@;
                if w < at {
                    assert(nv[w] != name@);
                } else if w > at {
                    assert(nv[at as int] != name@);
                }
            }
            return Some(at);
        }
        at = at + 1;
    }
    proof {
        assert(!exists|w: int| 0 <= w < nv.len() && nv[w] == name@);
    }
    None
}

/// The video slot of each participant: the client's own tile shows the local stream;
/// the `k`-th other participant shows the `k`-th remote stream.
pub fn participant_media_slots(participants: &Vec<String>, your_nickname: &str) -> (r: Vec<MediaSlot>)
    ensures
        r@.len() == participants@.len(),
        forall|i: int| 0 <= i < r@.len() ==> (#[trigger] r@[i]) == if participants@[i]@ == your_nickname@ {
            MediaSlot::Local
        } else {
            MediaSlot::Remote(position_or_zero(others(strings_view(participants@), your_nickname@), participants@[i]@) as usize)
        },
{
    let mut other: Vec<String> = Vec::new();
    let ghost pv = strings_view(participants@);
    let mut i: usize = 0;
    proof {
        assert(pv.take(0) =~= Seq::<Seq<char>>::empty());
        assert(strings_view(other@) =~= Seq::<Seq<char>>::empty());
    }
    while i < participants.len()
        invariant
            pv == strings_view(participants@),
            i <= participants@.len(),
            strings_view(other@) == without_name(pv.take(i as int), your_nickname@),
            other@.len() <= i,
        decreases participants.len() - i,
    {
        proof {
            assert(pv.take(i + 1).drop_last() =~= pv.take(i as int));
            assert(pv.take(i + 1).last() == participants@[i as int]@);
        }
        if !str_eq(participants[i].as_str(), your_nickname) {
            let ghost before = other@;
            other.push(participants[i].clone());
            assert(strings_view(other@) =~= strings_view(before).push(participants@[i as int]@));
        }
        i = i + 1;
    }
    proof {
        assert(pv.take(participants@.len() as int) =~= pv);
    }
    let ghost ov = strings_view(other@);
    let mut slots: Vec<MediaSlot> = Vec::new();
    let mut k: usize = 0;
    while k < participants.len()
        invariant
            pv == strings_view(participants@),
            ov == strings_view(other@),
            ov == others(pv, your_nickname@),
            k <= participants@.len(),
            slots@.len() == k,
            forall|j: int| 0 <= j < k ==> (#[trigger] slots@[j]) == if participants@[j]@ == your_nickname@ {
                MediaSlot::Local
            } else {
                MediaSlot::Remote(position_or_zero(ov, participants@[j]@) as usize)
            },
        decreases participants.len() - k,
    {
        let name = participants[k].as_str();
        if str_eq(name, your_nickname) {
            slots.push(MediaSlot::Local);
        } else {
            let idx = match first_position(&other, name) {
                Some(at) => at,
                None => 0,
            };
            slots.push(MediaSlot::Remote(idx));
        }
        k = k + 1;
    }
    slots
}

} // verus!
