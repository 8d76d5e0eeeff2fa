//! The client's signaling conversation: what it answers and reports for each server
//! message. The WebSocket and the JSON coding run around these functions.

use vstd::prelude::*;
use crate::client::connector_api::SignalingReadyResponse;
use crate::text::{concat2, concat3, str_eq, strings_view};

verus! {

/// Why the client connects to signaling.
#[derive(Clone, Debug, PartialEq, Eq)]
pub enum SignalingIntent {
    Create,
    Join { room_id: String },
}

/// Where and how to connect to signaling, and why.
#[derive(Clone, Debug, PartialEq, Eq)]
pub struct SignalingStart {
    pub signaling_url: String,
    pub session_id: String,
    pub token: String,
    pub intent: SignalingIntent,
}

impl SignalingStart {
    /// The start of a conversation from the connector's answer and the intent.
    pub fn new(response: SignalingReadyResponse, intent: SignalingIntent) -> (r: Self)
        ensures
            r.signaling_url == response.signaling_url,
            r.session_id == response.session_id,
            r.token == response.token,
            r.intent == intent,
    {
        SignalingStart {
            signaling_url: response.signaling_url,
            session_id: response.session_id,
            token: response.token,
            intent,
        }
    }
}

/// A room as the client first sees it.
#[derive(Clone, Debug, PartialEq, Eq)]
pub struct RoomSnapshot {
    pub room_id: String,
    pub your_nickname: String,
    pub participants: Vec<String>,
}

/// The error codes the signaling server sends.
#[derive(Debug, Clone, Copy, PartialEq, Eq)]
pub enum ServerErrorCode {
    InvalidJson,
    InvalidPayload,
    Unauthorized,
    SessionConflict,
    AlreadyAuthorized,
    LeaveRoomMismatch,
    RoomNotFound,
    NicknameTaken,
    AlreadyInRoom,
    NotInRoom,
    SfuCapacityExhausted,
    SfuUnavailable,
    SfuRejected,
    InvalidRoomAssignment,
    StorageUnavailable,
    WriteFailed,
}

/// The name of a code as its `Debug` text writes it.
pub open spec fn spec_code_name(code: ServerErrorCode) -> Seq<char> {
    match code {
        ServerErrorCode::InvalidJson => "InvalidJson"@,
        ServerErrorCode::InvalidPayload => "InvalidPayload"@,
        ServerErrorCode::Unauthorized => "Unauthorized"@,
        ServerErrorCode::SessionConflict => "SessionConflict"@,
        ServerErrorCode::AlreadyAuthorized => "AlreadyAuthorized"@,
        ServerErrorCode::LeaveRoomMismatch => "LeaveRoomMismatch"@,
        ServerErrorCode::RoomNotFound => "RoomNotFound"@,
        ServerErrorCode::NicknameTaken => "NicknameTaken"@,
        ServerErrorCode::AlreadyInRoom => "AlreadyInRoom"@,
        ServerErrorCode::NotInRoom => "NotInRoom"@,
        ServerErrorCode::SfuCapacityExhausted => "SfuCapacityExhausted"@,
        ServerErrorCode::SfuUnavailable => "SfuUnavailable"@,
        ServerErrorCode::SfuRejected => "SfuRejected"@,
        ServerErrorCode::InvalidRoomAssignment => "InvalidRoomAssignment"@,
        ServerErrorCode::StorageUnavailable => "StorageUnavailable"@,
        ServerErrorCode::WriteFailed => "WriteFailed"@,
    }
}

impl ServerErrorCode {
    /// The code's name, as its `Debug` text.
    pub fn name(self) -> (r: &'static str)
        ensures
            r@ == spec_code_name(self),
    {
        match self {
            ServerErrorCode::InvalidJson => "InvalidJson",
            ServerErrorCode::InvalidPayload => "InvalidPayload",
            ServerErrorCode::Unauthorized => "Unauthorized",
            ServerErrorCode::SessionConflict => "SessionConflict",
            ServerErrorCode::AlreadyAuthorized => "AlreadyAuthorized",
            ServerErrorCode::LeaveRoomMismatch => "LeaveRoomMismatch",
            ServerErrorCode::RoomNotFound => "RoomNotFound",
            ServerErrorCode::NicknameTaken => "NicknameTaken",
            ServerErrorCode::AlreadyInRoom => "AlreadyInRoom",
            ServerErrorCode::NotInRoom => "NotInRoom",
            ServerErrorCode::SfuCapacityExhausted => "SfuCapacityExhausted",
            ServerErrorCode::SfuUnavailable => "SfuUnavailable",
            ServerErrorCode::SfuRejected => "SfuRejected",
            ServerErrorCode::InvalidRoomAssignment => "InvalidRoomAssignment",
            ServerErrorCode::StorageUnavailable => "StorageUnavailable",
            ServerErrorCode::WriteFailed => "WriteFailed",
        }
    }
}

/// A signaling failure: the server's code when the server reported it.
#[derive(Clone, Debug, PartialEq, Eq)]
pub struct SignalingError {
    pub code: Option<ServerErrorCode>,
    pub message: String,
}

impl SignalingError {
    /// A failure the client found itself.
    pub fn local(message: String) -> (r: Self)
        ensures
            r.code is None,
            r.message == message,
    {
        SignalingError { code: None, message }
    }

    /// A failure the server reported: its code, and `Code: message` as the text.
    pub fn server(code: ServerErrorCode, message: String) -> (r: Self)
        ensures
            r.code == Some(code),
            r.message@ == spec_code_name(code) + ": "@ + message@,
    {
        SignalingError { code: Some(code), message: concat3(code.name(), ": ", message.as_str()) }
    }
}

/// What the client tells its room screen.
#[derive(Clone, Debug)]
pub enum SignalingEvent {
    Connected,
    Disconnected { reason: Option<String> },
    RoomReady(RoomSnapshot),
    ParticipantJoined(String),
    ParticipantLeft(String),
    Left { room_id: String },
    RoomClosed { room_id: String, reason: String },
    Error(SignalingError),
    ServiceUnavailable { dependency: String, retry_after_ms: u32 },
    RemoteSdp { sdp: String, sdp_type: String },
    RemoteIceCandidate { candidate: String, sdp_mid: String },
}

/// What the client sends the server.
#[derive(Clone, Debug, PartialEq, Eq)]
pub enum ClientMessage {
    Attach { token: String },
    Create { session_id: String },
    Join { session_id: String, room_id: String },
    Leave { session_id: String, room_id: String, participants: Option<Vec<String>> },
    Sdp { session_id: String, sdp: String, sdp_type: String },
    Candidate { session_id: String, candidate: String, sdp_mid: String },
}

/// What the server sends the client.
#[derive(Clone, Debug, PartialEq, Eq)]
pub enum ServerMessage {
    Attached { nickname: String, session_id: String },
    LoggedOut { nickname: String },
    Sdp { from: String, sdp: String, sdp_type: String },
    Candidate { from: String, candidate: String, sdp_mid: String },
    Created { room_id: String, your_nickname: String },
    Joined { room_id: String, your_nickname: String, participants: Vec<String> },
    RoomClosed { room_id: String, reason: String },
    Left { room_id: String },
    ParticipantJoined { nickname: String },
    ParticipantLeft { nickname: String },
    Error { code: ServerErrorCode, message: String },
    ServiceUnavailable { dependency: String, retry_after_ms: u32 },
}

/// The client's answer to a server message: a message to send back, or an event for
/// the room screen.
#[derive(Clone, Debug)]
pub enum ServerMessageOutcome {
    Send(ClientMessage),
    Emit(SignalingEvent),
}

/// `name` is one of `names`.
pub open spec fn has_name(names: Seq<Seq<char>>, name: Seq<char>) -> bool {
    exists|i: int| 0 <= i < names.len() && names[i] == name
}

/// The participants of a joined room as shown: the server's list, with the client's
/// own nickname added at the end when missing.
pub open spec fn with_self(participants: Seq<Seq<char>>, me: Seq<char>) -> Seq<Seq<char>> {
    if has_name(participants, me) {
        participants
    } else {
        participants.push(me)
    }
}

/// The message that follows a successful attach: create a room, or join the intended one.
pub open spec fn follow_up(start: SignalingStart, m: ClientMessage) -> bool {
    match start.intent {
        SignalingIntent::Create => m matches ClientMessage::Create { session_id } && session_id@ == start.session_id@,
        SignalingIntent::Join { room_id: wanted } => m matches ClientMessage::Join { session_id, room_id }
            && session_id@ == start.session_id@ && room_id@ == wanted@,
    }
}

/// `names` with `name` added at the end unless already there.
pub fn push_if_absent(names: Vec<String>, name: &str) -> (r: Vec<String>)
    ensures
        strings_view(r@) == with_self(strings_view(names@), name@),
{
    let ghost nv = strings_view(names@);
    let mut i: usize = 0;
    while i < names.len()
        invariant
            nv == strings_view(names@),
            i <= names@.len(),
            forall|k: int| 0 <= k < i ==> nv[k] != name@,
        decreases names.len() - i,
    {
        if str_eq(names[i].as_str(), name) {
            assert(nv[i as int] == name@);
            return names;
        }
        i = i + 1;
    }
    let mut names = names;
    names.push(String::from_str(name));
    assert(strings_view(names@) =~= nv.push(name@));
    names
}

/// The client's answer to a server message, in the conversation begun by `start`.
pub fn handle_server_message(start: &SignalingStart, message: ServerMessage) -> (r: ServerMessageOutcome)
    ensures
        message matches ServerMessage::Attached { session_id, .. } ==> if session_id@ == start.session_id@ {
            r matches ServerMessageOutcome::Send(m) && follow_up(*start, m)
        } else {
            r matches ServerMessageOutcome::Emit(SignalingEvent::Error(e)) && e.code is None
                && e.message@ == "Signaling attached an unexpected session."@
        },
        message matches ServerMessage::Created { room_id, your_nickname } ==> (r matches ServerMessageOutcome::Emit(
            SignalingEvent::RoomReady(s),
        ) && s.room_id == room_id && s.your_nickname == your_nickname && strings_view(s.participants@) == seq![your_nickname@]),
        message matches ServerMessage::Joined { room_id, your_nickname, participants } ==> (r matches ServerMessageOutcome::Emit(
            SignalingEvent::RoomReady(s),
        ) && s.room_id == room_id && s.your_nickname == your_nickname && strings_view(s.participants@) == with_self(
            strings_view(participants@),
            your_nickname@,
        )),
        message matches ServerMessage::ParticipantJoined { nickname } ==> (r matches ServerMessageOutcome::Emit(
            SignalingEvent::ParticipantJoined(n),
        ) && n == nickname),
        message matches ServerMessage::ParticipantLeft { nickname } ==> (r matches ServerMessageOutcome::Emit(
            SignalingEvent::ParticipantLeft(n),
        ) && n == nickname),
        message matches ServerMessage::Left { room_id } ==> (r matches ServerMessageOutcome::Emit(
            SignalingEvent::Left { room_id: id },
        ) && id == room_id),
        message matches ServerMessage::RoomClosed { room_id, reason } ==> (r matches ServerMessageOutcome::Emit(
            SignalingEvent::RoomClosed { room_id: id, reason: why },
        ) && id == room_id && why == reason),
        message matches ServerMessage::Error { code, message: text } ==> (r matches ServerMessageOutcome::Emit(
            SignalingEvent::Error(e),
        ) && e.code == Some(code) && e.message@ == spec_code_name(code) + ": "@ + text@),
        message matches ServerMessage::ServiceUnavailable { dependency, retry_after_ms } ==> (r matches ServerMessageOutcome::Emit(
            SignalingEvent::ServiceUnavailable { dependency: d, retry_after_ms: ms },
        ) && d == dependency && ms == retry_after_ms),
        message matches ServerMessage::LoggedOut { nickname } ==> (r matches ServerMessageOutcome::Emit(
            SignalingEvent::Error(e),
        ) && e.code is None && e.message@ == nickname@ + " logged out."@),
        message matches ServerMessage::Sdp { sdp, sdp_type, .. } ==> (r matches ServerMessageOutcome::Emit(
            SignalingEvent::RemoteSdp { sdp: s, sdp_type: t },
        ) && s == sdp && t == sdp_type),
        message matches ServerMessage::Candidate { candidate, sdp_mid, .. } ==> (r matches ServerMessageOutcome::Emit(
            SignalingEvent::RemoteIceCandidate { candidate: c, sdp_mid: m },
        ) && c == candidate && m == sdp_mid),
{
    match message {
        ServerMessage::Attached { nickname: _, session_id } => {
            if !str_eq(session_id.as_str(), start.session_id.as_str()) {
                return ServerMessageOutcome::Emit(
                    SignalingEvent::Error(SignalingError::local(String::from_str("Signaling attached an unexpected session."))),
                );
            }
            let next = match &start.intent {
                SignalingIntent::Create => ClientMessage::Create { session_id: start.session_id.clone() },
                SignalingIntent::Join { room_id } => ClientMessage::Join {
                    session_id: start.session_id.clone(),
                    room_id: room_id.clone(),
                },
            };
            ServerMessageOutcome::Send(next)
        },
        ServerMessage::Created { room_id, your_nickname } => {
            let participants = vec![your_nickname.clone()];
            proof {
                assert(strings_view(participants@) =~= seq![your_nickname@]);
            }
            ServerMessageOutcome::Emit(SignalingEvent::RoomReady(RoomSnapshot { room_id, participants, your_nickname }))
        },
        ServerMessage::Joined { room_id, your_nickname, participants } => {
            let participants = push_if_absent(participants, your_nickname.as_str());
            ServerMessageOutcome::Emit(SignalingEvent::RoomReady(RoomSnapshot { room_id, your_nickname, participants }))
        },
        ServerMessage::ParticipantJoined { nickname } => ServerMessageOutcome::Emit(SignalingEvent::ParticipantJoined(nickname)),
        ServerMessage::ParticipantLeft { nickname } => ServerMessageOutcome::Emit(SignalingEvent::ParticipantLeft(nickname)),
        ServerMessage::Left { room_id } => ServerMessageOutcome::Emit(SignalingEvent::Left { room_id }),
        ServerMessage::RoomClosed { room_id, reason } => ServerMessageOutcome::Emit(SignalingEvent::RoomClosed { room_id, reason }),
        ServerMessage::Error { code, message } => ServerMessageOutcome::Emit(
            SignalingEvent::Error(SignalingError::server(code, message)),
        ),
        ServerMessage::ServiceUnavailable { dependency, retry_after_ms } => ServerMessageOutcome::Emit(
            SignalingEvent::ServiceUnavailable { dependency, retry_after_ms },
        ),
        ServerMessage::LoggedOut { nickname } => ServerMessageOutcome::Emit(
            SignalingEvent::Error(SignalingError::local(concat2(nickname.as_str(), " logged out."))),
        ),
        ServerMessage::Sdp { from: _, sdp, sdp_type } => ServerMessageOutcome::Emit(SignalingEvent::RemoteSdp { sdp, sdp_type }),
        ServerMessage::Candidate { from: _, candidate, sdp_mid } => ServerMessageOutcome::Emit(
            SignalingEvent::RemoteIceCandidate { candidate, sdp_mid },
        ),
    }
}

/// A room the client is shown always lists the client's own nickname among its
/// participants.
pub proof fn law_room_lists_self(participants: Seq<Seq<char>>, me: Seq<char>)
    ensures
        has_name(with_self(participants, me), me),
        has_name(seq![me], me),
{
    if !has_name(participants, me) {
        assert(with_self(participants, me)[participants.len() as int] == me);
    }
    assert(seq![me][0] == me);
}

/// The message leaving a room: the session, the room, and the participants it had.
pub fn leave_message(session_id: &str, room_id: &str, participants: &Vec<String>) -> (r: ClientMessage)
    ensures
        r matches ClientMessage::Leave { session_id: s, room_id: id, participants: Some(p) } && s@ == session_id@
            && id@ == room_id@ && strings_view(p@) == strings_view(participants@),
{
    let mut copy: Vec<String> = Vec::new();
    let mut i: usize = 0;
    while i < participants.len()
        invariant
            i <= participants@.len(),
            strings_view(copy@) == strings_view(participants@).take(i as int),
        decreases participants.len() - i,
    {
        let ghost before = copy@;
        copy.push(participants[i].clone());
        proof {
            assert(strings_view(copy@) =~= strings_view(before).push(participants@[i as int]@));
            assert(strings_view(participants@).take(i + 1) =~= strings_view(participants@).take(i as int).push(participants@[i as int]@));
        }
        i = i + 1;
    }
    assert(strings_view(participants@).take(participants@.len() as int) =~= strings_view(participants@));
    ClientMessage::Leave {
        session_id: String::from_str(session_id),
        room_id: String::from_str(room_id),
        participants: Some(copy),
    }
}

} // verus!
