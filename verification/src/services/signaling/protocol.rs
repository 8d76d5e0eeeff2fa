//! The signaling connection's message handling as a state machine: from the
//! connection's context, the stage a client message has reached and the reply to the
//! last outside operation, the next context, stage and action. The driver performs
//! each `Perform` action's operations in order and hands back the reply of the last
//! one; `Finish` ends the message with its outcome.

use vstd::prelude::*;
use crate::text::{opt_view, str_eq};
use crate::uuid_text::{fresh_uuid_text, is_v4_text};
use super::redis::{RedisRoomError, RoomRoute, SessionState};
use super::websocket::{
    attach_admission, bound_session_check, create_admission, current_room, existing_session,
    join_admission, join_target, leave_admission, map_redis_error, map_sfu_error, route_sfu,
    map_error, spec_error_code, spec_error_message, spec_is_local_target, spec_map_redis_error, ServerErrorCode,
    SfuClientError, WsHandlerError,
};

verus! {

/// What a connection remembers between messages.
#[derive(Debug, PartialEq, Eq)]
pub struct ConnectionContext {
    /// The session the connection is bound to.
    pub session_id: Option<String>,
    /// The session as last read.
    pub cached_session: Option<SessionState>,
    /// The intent its token was issued for.
    pub allowed_intent: Option<String>,
    /// The room its token was issued for.
    pub allowed_room_id: Option<String>,
    /// The node's load counts this connection.
    pub instance_load_registered: bool,
    /// A task renews the session's lease.
    pub lease_renewer_running: bool,
}

/// What a valid token states.
#[derive(Debug, PartialEq, Eq)]
pub struct TokenClaims {
    pub session_id: String,
    pub nickname: String,
    pub intent: String,
    pub room_id: Option<String>,
    /// The token's id; empty when it has none.
    pub jti: String,
    pub iat: u64,
    pub exp: u64,
}

/// A client message, as the server reads it.
#[derive(Debug, PartialEq, Eq)]
pub enum WsClientMessage {
    Attach { token: String },
    Logout { session_id: String },
    Create { session_id: String },
    Join { session_id: String, room_id: String },
    Leave { session_id: String, room_id: String },
    Sdp { session_id: String, sdp: String, sdp_type: String },
    Candidate { session_id: String, candidate: String, sdp_mid: String },
}

/// A message the handler sends the client (`SfuAnswer` travels as an SDP message
/// from `"sfu"`).
#[derive(Debug, PartialEq, Eq)]
pub enum WsServerMessage {
    Attached { nickname: String, session_id: String },
    LoggedOut { nickname: String },
    Created { room_id: String, your_nickname: String },
    Joined { room_id: String, your_nickname: String, participants: Vec<String> },
    Left { room_id: String },
    SfuAnswer { sdp: String, sdp_type: String },
}

/// Why a member leaves a room.
#[derive(Debug, Clone, Copy, PartialEq, Eq)]
pub enum LeaveReason {
    UserLogout,
    UserLeft,
    SignalingDisconnected,
}

/// An outside operation, with the reply the driver hands back for it.
#[derive(Debug, PartialEq, Eq)]
pub enum Op {
    /// Is the store reachable? `Available`.
    CheckStore,
    /// Validate a token for this node. `Claims`.
    ValidateToken { token: String },
    /// Mark a token id used for `ttl_secs`; false when it was used before. `Flag`.
    ConsumeJti { jti: String, ttl_secs: u64 },
    /// Read a session. `Session`.
    GetSession { session_id: String },
    /// Record this node as the session's owner. `Stored`.
    SetOwner { session_id: String },
    /// Count the connection in the node's load. `Stored`.
    IncrementLoad,
    /// Stop counting it. `Stored`.
    DecrementLoad,
    /// Start renewing the session's lease. `Done`.
    StartRenewer { session_id: String, nickname: String },
    /// Stop renewing it. `Done`.
    StopRenewer,
    /// Keep the session in the node's registry. `Done`.
    CacheSession { session_id: String, session: SessionState },
    /// Set the registry's room of the session. `Done`.
    CacheSessionRoom { session_id: String, room_id: Option<String> },
    /// Drop the session from the registry. `Done`.
    ForgetSession { session_id: String },
    /// The session as the registry holds it. `Session`, never an error.
    LookupCachedSession { session_id: String },
    /// Release the nickname lease the session holds. `Stored`.
    ReleaseNick { nickname: String, session_id: String },
    /// Delete the session. `Stored`.
    DeleteSession { session_id: String },
    /// Take the session's lock under a fresh owner. `Flag`.
    AcquireLock { session_id: String },
    /// Release it. `Done`.
    ReleaseLock { session_id: String },
    /// A fresh room id, as `new_room_id` draws it. `RoomId`.
    NewRoomId,
    /// Bind a new room to the least loaded SFU, owned by this node. `Assigned`.
    AssignRoom { room_id: String },
    /// Add a member to a room. `Members`.
    JoinRoom { room_id: String, nickname: String },
    /// Close a room's binding (a failure is only logged). `Done`.
    CloseBinding { room_id: String },
    /// Have the SFU set up the member's peer. `Sfu`.
    EnsurePeer { sfu_addr: String, room_id: String, nickname: String },
    /// Remove a member from a room (a failure is only logged). `Done`.
    RemoveMember { room_id: String, nickname: String },
    /// Read a room's route. `Route`.
    GetRoute { room_id: String },
    /// Store the session's room. `Stored`.
    SetSessionRoom { session_id: String, room_id: Option<String> },
    /// Detach the member's peer and tell the room it left. `Done`.
    AnnounceLeave { room_id: String, nickname: String, reason: LeaveReason },
    /// Register the member's outbound channel with the room. `Done`.
    RegisterPeer { room_id: String, nickname: String, sfu_addr: String },
    /// Tell the room the member joined. `Done`.
    AnnounceJoin { room_id: String, nickname: String },
    /// Send an SDP offer to the SFU. `SfuAnswer`.
    SfuSdp { sfu_addr: String, room_id: String, nickname: String, sdp: String, sdp_type: String },
    /// Send an ICE candidate to the SFU. `Sfu`.
    SfuCandidate { sfu_addr: String, room_id: String, nickname: String, candidate: String, sdp_mid: String },
    /// Send a message to the client. `Sent`.
    Send(WsServerMessage),
}

/// The reply to the last operation; `Start` begins a message.
#[derive(Debug, PartialEq, Eq)]
pub enum Reply {
    Start,
    Done,
    Available(bool),
    Claims(Option<TokenClaims>),
    Flag(Result<bool, RedisRoomError>),
    Session(Result<Option<SessionState>, RedisRoomError>),
    Stored(Result<(), RedisRoomError>),
    RoomId(String),
    Assigned(Result<String, RedisRoomError>),
    Members(Result<Vec<String>, RedisRoomError>),
    Route(Result<RoomRoute, RedisRoomError>),
    Sfu(Result<(), SfuClientError>),
    SfuAnswer(Result<(String, String), SfuClientError>),
    Sent(bool),
}

/// What the handler does next.
#[derive(Debug, PartialEq, Eq)]
pub enum HandlerAction {
    Perform(Vec<Op>),
    Finish(Result<(), WsHandlerError>),
}

/// A `HandlerAction` with its operations as a sequence.
pub enum ActionView {
    Perform(Seq<Op>),
    Finish(Result<(), WsHandlerError>),
}

pub open spec fn action_view(a: HandlerAction) -> ActionView {
    match a {
        HandlerAction::Perform(ops) => ActionView::Perform(ops@),
        HandlerAction::Finish(r) => ActionView::Finish(r),
    }
}

/// What follows a successful session check.
#[derive(Debug, PartialEq, Eq)]
pub enum Pending {
    Logout,
    Leave { room_id: String },
    Sdp { sdp: String, sdp_type: String },
    Candidate { candidate: String, sdp_mid: String },
    /// Under the session lock.
    Create,
    /// Under the session lock.
    Join { room_id: String },
}

/// What follows leaving a room.
#[derive(Debug, PartialEq, Eq)]
pub enum AfterLeave {
    Logout,
    Leave { room_id: String },
}

/// How far a client message has got, with what later steps need.
#[derive(Debug, PartialEq, Eq)]
pub enum Stage {
    Received(WsClientMessage),
    AttachStore { token: String },
    AttachClaims,
    AttachJti { claims: TokenClaims },
    AttachSession { claims: TokenClaims },
    AttachOwner { claims: TokenClaims, session: SessionState },
    AttachLoad { session_id: String, session: SessionState },
    LockStore { session_id: String, then: Pending },
    LockAcquire { session_id: String, then: Pending },
    SessionStore { session_id: String, then: Pending },
    SessionRead { session_id: String, then: Pending },
    LeaveStore { session_id: String, room_id: String, nickname: String, reason: LeaveReason, then: AfterLeave },
    LeaveStored { session_id: String, nickname: String, then: AfterLeave },
    LogoutStore { session_id: String, nickname: String },
    LogoutLoad { session_id: String, nickname: String },
    LogoutNick { session_id: String, nickname: String },
    LogoutDelete { session_id: String, nickname: String },
    CreateRoomId { session_id: String, nickname: String },
    CreateAssign { session_id: String, nickname: String, room_id: String },
    CreateJoin { session_id: String, nickname: String, room_id: String, sfu_addr: String },
    CreatePeer { session_id: String, nickname: String, room_id: String, sfu_addr: String },
    CreateStored { session_id: String, nickname: String, room_id: String, sfu_addr: String },
    CreateSent { session_id: String, nickname: String, room_id: String, sfu_addr: String },
    JoinRoute { session_id: String, nickname: String, room_id: String },
    JoinMembers { session_id: String, nickname: String, room_id: String, sfu_addr: String },
    JoinPeer { session_id: String, nickname: String, room_id: String, sfu_addr: String, participants: Vec<String> },
    JoinStored { session_id: String, nickname: String, room_id: String, sfu_addr: String, participants: Vec<String> },
    JoinSent { session_id: String, nickname: String, room_id: String, sfu_addr: String },
    MediaRoute { nickname: String, room_id: String, media: Pending },
    MediaSfu,
    AwaitSent,
    /// The operations in flight only need to finish; then the message ends so.
    Finishing(Result<(), WsHandlerError>),
}

/// The reply kind each stage waits for.
pub open spec fn fits(stage: Stage, reply: Reply) -> bool {
    match stage {
        Stage::Received(_) => reply is Start,
        Stage::AttachStore { .. } | Stage::LockStore { .. } | Stage::SessionStore { .. } | Stage::LeaveStore { .. }
        | Stage::LogoutStore { .. } => reply is Available,
        Stage::AttachClaims => reply is Claims,
        Stage::AttachJti { .. } | Stage::LockAcquire { .. } => reply is Flag,
        Stage::AttachSession { .. } | Stage::SessionRead { .. } => reply is Session,
        Stage::AttachOwner { .. } | Stage::AttachLoad { .. } | Stage::LeaveStored { .. } | Stage::LogoutLoad { .. }
        | Stage::LogoutNick { .. } | Stage::LogoutDelete { .. } | Stage::CreateStored { .. }
        | Stage::JoinStored { .. } => reply is Stored,
        Stage::CreateRoomId { .. } => reply is RoomId,
        Stage::CreateAssign { .. } => reply is Assigned,
        Stage::CreateJoin { .. } | Stage::JoinMembers { .. } => reply is Members,
        Stage::CreatePeer { .. } | Stage::JoinPeer { .. } => reply is Sfu,
        Stage::JoinRoute { .. } | Stage::MediaRoute { .. } => reply is Route,
        Stage::MediaSfu => reply is Sfu || reply is SfuAnswer,
        Stage::CreateSent { .. } | Stage::JoinSent { .. } | Stage::AwaitSent => reply is Sent,
        Stage::Finishing(_) => reply is Done,
    }
}

/// One step of the handler: its next context, stage and action.
pub struct StepView {
    pub ctx: ConnectionContext,
    pub stage: Stage,
    pub action: ActionView,
}

/// Seconds a used token id is remembered: the token's lifetime, at least a minute,
/// plus half a minute, capped at `u64::MAX`.
pub open spec fn spec_jti_ttl(iat: u64, exp: u64) -> u64 {
    let life: int = if exp > iat { exp - iat } else { 0 };
    let kept: int = if life >= 60 { life } else { 60 };
    if kept + 30 > u64::MAX { u64::MAX } else { (kept + 30) as u64 }
}

pub fn jti_ttl(iat: u64, exp: u64) -> (r: u64)
    ensures
        r == spec_jti_ttl(iat, exp),
{
    let life = exp.saturating_sub(iat);
    let kept = if life >= 60 { life } else { 60 };
    kept.saturating_add(30)
}

/// The cached session with its room set to `room_id`, when there is one.
pub open spec fn with_cached_room(cached: Option<SessionState>, room_id: Option<String>) -> Option<SessionState> {
    match cached {
        Some(s) => Some(SessionState { nickname: s.nickname, room_id }),
        None => None,
    }
}

/// The session under whose lock a pending step runs, if any.
pub open spec fn lock_of(session_id: String, then: Pending) -> Option<String> {
    if then is Create || then is Join { Some(session_id) } else { None }
}

/// Failing after `prefix` ran, releasing `lock` when held.
pub open spec fn spec_fail(ctx: ConnectionContext, prefix: Seq<Op>, lock: Option<String>, err: WsHandlerError) -> StepView {
    let ops = match lock {
        Some(id) => prefix.push(Op::ReleaseLock { session_id: id }),
        None => prefix,
    };
    if ops.len() == 0 {
        StepView { ctx, stage: Stage::Finishing(Err(err)), action: ActionView::Finish(Err(err)) }
    } else {
        StepView { ctx, stage: Stage::Finishing(Err(err)), action: ActionView::Perform(ops) }
    }
}

/// Performing `ops`, then waiting in `stage`.
pub open spec fn spec_go(ctx: ConnectionContext, ops: Seq<Op>, stage: Stage) -> StepView {
    StepView { ctx, stage, action: ActionView::Perform(ops) }
}

/// Ending the message with `result`.
pub open spec fn spec_end(ctx: ConnectionContext, result: Result<(), WsHandlerError>) -> StepView {
    StepView { ctx, stage: Stage::Finishing(result), action: ActionView::Finish(result) }
}

/// The session named by a message, and what follows its check.
pub open spec fn session_target(m: WsClientMessage) -> Option<(String, Pending)> {
    match m {
        WsClientMessage::Attach { .. } => None,
        WsClientMessage::Logout { session_id } => Some((session_id, Pending::Logout)),
        WsClientMessage::Create { session_id } => Some((session_id, Pending::Create)),
        WsClientMessage::Join { session_id, room_id } => Some((session_id, Pending::Join { room_id })),
        WsClientMessage::Leave { session_id, room_id } => Some((session_id, Pending::Leave { room_id })),
        WsClientMessage::Sdp { session_id, sdp, sdp_type } => Some((session_id, Pending::Sdp { sdp, sdp_type })),
        WsClientMessage::Candidate { session_id, candidate, sdp_mid } => Some(
            (session_id, Pending::Candidate { candidate, sdp_mid }),
        ),
    }
}

/// The token of an attach message.
pub open spec fn attach_token(m: WsClientMessage) -> String {
    match m {
        WsClientMessage::Attach { token } => token,
        _ => arbitrary(),
    }
}

/// A new message: an attach first needs an unbound connection and the store; create
/// and join first check the store and take the session lock; the others first check
/// that the connection is not bound to another session, then the store.
pub open spec fn spec_received(ctx: ConnectionContext, m: WsClientMessage) -> StepView {
    match session_target(m) {
        None => if ctx.session_id is Some {
            spec_end(ctx, Err(WsHandlerError::AlreadyAuthorized))
        } else {
            spec_go(ctx, seq![Op::CheckStore], Stage::AttachStore { token: attach_token(m) })
        },
        Some((session_id, then)) => if then is Create || then is Join {
            spec_go(ctx, seq![Op::CheckStore], Stage::LockStore { session_id, then })
        } else {
            spec_session_check(ctx, session_id, then)
        },
    }
}

/// The session check: the connection must not be bound to another session, and the
/// store must be reachable.
pub open spec fn spec_session_check(ctx: ConnectionContext, session_id: String, then: Pending) -> StepView {
    if ctx.session_id matches Some(b) && b@ != session_id@ {
        spec_fail(ctx, Seq::empty(), lock_of(session_id, then), WsHandlerError::SessionConflict)
    } else {
        spec_go(ctx, seq![Op::CheckStore], Stage::SessionStore { session_id, then })
    }
}

/// What continues after the session `s` was read: its check's bookkeeping
/// `CacheSession` runs first.
pub open spec fn spec_continue(ctx: ConnectionContext, session_id: String, s: SessionState, then: Pending) -> StepView {
    let prefix = seq![Op::CacheSession { session_id, session: s }];
    let nickname = s.nickname;
    match then {
        Pending::Logout => match s.room_id {
            Some(room_id) => spec_go(ctx, prefix.push(Op::CheckStore), Stage::LeaveStore {
                session_id, room_id, nickname, reason: LeaveReason::UserLogout, then: AfterLeave::Logout,
            }),
            None => spec_go(ctx, prefix.push(Op::CheckStore), Stage::LogoutStore { session_id, nickname }),
        },
        Pending::Leave { room_id } => match s.room_id {
            None => spec_fail(ctx, prefix, None, WsHandlerError::NotInRoom),
            Some(current) => if current@ != room_id@ {
                spec_fail(ctx, prefix, None, WsHandlerError::LeaveRoomMismatch)
            } else {
                spec_go(ctx, prefix.push(Op::CheckStore), Stage::LeaveStore {
                    session_id, room_id, nickname, reason: LeaveReason::UserLeft,
                    then: AfterLeave::Leave { room_id },
                })
            },
        },
        Pending::Sdp { .. } | Pending::Candidate { .. } => match s.room_id {
            None => spec_fail(ctx, prefix, None, WsHandlerError::NotInRoom),
            Some(room_id) => spec_go(ctx, prefix.push(Op::GetRoute { room_id }), Stage::MediaRoute {
                nickname, room_id, media: then,
            }),
        },
        Pending::Create => if s.room_id is Some {
            spec_fail(ctx, prefix, Some(session_id), WsHandlerError::AlreadyInRoom)
        } else if opt_view(ctx.allowed_intent) != Some("create"@) {
            spec_fail(ctx, prefix, Some(session_id), WsHandlerError::Unauthorized)
        } else {
            spec_go(ctx, prefix.push(Op::NewRoomId), Stage::CreateRoomId { session_id, nickname })
        },
        Pending::Join { room_id } => if s.room_id is Some {
            spec_fail(ctx, prefix, Some(session_id), WsHandlerError::AlreadyInRoom)
        } else if !(opt_view(ctx.allowed_intent) == Some("join"@) && opt_view(ctx.allowed_room_id) == Some(room_id@)) {
            spec_fail(ctx, prefix, Some(session_id), WsHandlerError::Unauthorized)
        } else {
            spec_go(ctx, prefix.push(Op::GetRoute { room_id }), Stage::JoinRoute { session_id, nickname, room_id })
        },
    }
}

/// The end of a logout: the connection is unbound, the lease renewer stopped, the
/// registry forgets the session, and `LoggedOut` is sent.
pub open spec fn spec_logout_done(ctx: ConnectionContext, session_id: String, nickname: String) -> StepView {
    let ops = if ctx.lease_renewer_running {
        seq![Op::ForgetSession { session_id }, Op::StopRenewer, Op::Send(WsServerMessage::LoggedOut { nickname })]
    } else {
        seq![Op::ForgetSession { session_id }, Op::Send(WsServerMessage::LoggedOut { nickname })]
    };
    spec_go(
        ConnectionContext { session_id: None, cached_session: None, lease_renewer_running: false, ..ctx },
        ops,
        Stage::AwaitSent,
    )
}

/// One step of handling a client message on a node reachable at `host:port`.
pub open spec fn spec_step(ctx: ConnectionContext, stage: Stage, reply: Reply, host: Seq<char>, port: u16) -> StepView {
    match (stage, reply) {
        (Stage::Received(m), _) => spec_received(ctx, m),
        // Attach.
        (Stage::AttachStore { token }, Reply::Available(up)) => if !up {
            spec_end(ctx, Err(WsHandlerError::RedisError))
        } else {
            spec_go(ctx, seq![Op::ValidateToken { token }], Stage::AttachClaims)
        },
        (Stage::AttachClaims, Reply::Claims(claims)) => match claims {
            None => spec_end(ctx, Err(WsHandlerError::Unauthorized)),
            Some(c) => if c.jti@.len() > 0 {
                spec_go(ctx, seq![Op::ConsumeJti { jti: c.jti, ttl_secs: spec_jti_ttl(c.iat, c.exp) }], Stage::AttachJti { claims: c })
            } else {
                spec_go(ctx, seq![Op::GetSession { session_id: c.session_id }], Stage::AttachSession { claims: c })
            },
        },
        (Stage::AttachJti { claims }, Reply::Flag(consumed)) => match consumed {
            Err(e) => spec_end(ctx, Err(spec_map_redis_error(e))),
            Ok(false) => spec_end(ctx, Err(WsHandlerError::Unauthorized)),
            Ok(true) => spec_go(ctx, seq![Op::GetSession { session_id: claims.session_id }], Stage::AttachSession { claims }),
        },
        (Stage::AttachSession { claims }, Reply::Session(read)) => match read {
            Err(e) => spec_end(ctx, Err(spec_map_redis_error(e))),
            Ok(stored) => match stored {
                Some(s) => if s.nickname@ == claims.nickname@ {
                    spec_go(ctx, seq![Op::SetOwner { session_id: claims.session_id }], Stage::AttachOwner { claims, session: s })
                } else {
                    spec_end(ctx, Err(WsHandlerError::Unauthorized))
                },
                None => spec_end(ctx, Err(WsHandlerError::Unauthorized)),
            },
        },
        (Stage::AttachOwner { claims, session }, Reply::Stored(done)) => match done {
            Err(e) => spec_end(ctx, Err(spec_map_redis_error(e))),
            Ok(()) => spec_go(
                ConnectionContext {
                    session_id: Some(claims.session_id),
                    cached_session: Some(session),
                    allowed_intent: Some(claims.intent),
                    allowed_room_id: claims.room_id,
                    ..ctx
                },
                seq![Op::IncrementLoad],
                Stage::AttachLoad { session_id: claims.session_id, session },
            ),
        },
        (Stage::AttachLoad { session_id, session }, Reply::Stored(done)) => match done {
            Err(e) => spec_end(ctx, Err(spec_map_redis_error(e))),
            Ok(()) => spec_go(
                ConnectionContext { instance_load_registered: true, lease_renewer_running: true, ..ctx },
                seq![
                    Op::StartRenewer { session_id, nickname: session.nickname },
                    Op::CacheSession { session_id, session },
                    Op::Send(WsServerMessage::Attached { nickname: session.nickname, session_id }),
                ],
                Stage::AwaitSent,
            ),
        },
        // Create and join: the session lock.
        (Stage::LockStore { session_id, then }, Reply::Available(up)) => if !up {
            spec_end(ctx, Err(WsHandlerError::RedisError))
        } else {
            spec_go(ctx, seq![Op::AcquireLock { session_id }], Stage::LockAcquire { session_id, then })
        },
        (Stage::LockAcquire { session_id, then }, Reply::Flag(acquired)) => match acquired {
            Err(e) => spec_end(ctx, Err(spec_map_redis_error(e))),
            Ok(false) => spec_end(ctx, Err(WsHandlerError::SessionConflict)),
            Ok(true) => spec_session_check(ctx, session_id, then),
        },
        // The session check.
        (Stage::SessionStore { session_id, then }, Reply::Available(up)) => if !up {
            spec_fail(ctx, Seq::empty(), lock_of(session_id, then), WsHandlerError::RedisError)
        } else {
            spec_go(ctx, seq![Op::GetSession { session_id }], Stage::SessionRead { session_id, then })
        },
        (Stage::SessionRead { session_id, then }, Reply::Session(read)) => match read {
            Err(e) => spec_fail(ctx, Seq::empty(), lock_of(session_id, then), spec_map_redis_error(e)),
            Ok(stored) => match stored {
                Some(s) => if s.nickname@.len() > 0 {
                    spec_continue(
                        ConnectionContext { session_id: Some(session_id), cached_session: Some(s), ..ctx },
                        session_id, s, then,
                    )
                } else {
                    spec_fail(ctx, Seq::empty(), lock_of(session_id, then), WsHandlerError::SessionConflict)
                },
                None => spec_fail(ctx, Seq::empty(), lock_of(session_id, then), WsHandlerError::SessionConflict),
            },
        },
        // Leaving a room.
        (Stage::LeaveStore { session_id, room_id, nickname, reason, then }, Reply::Available(up)) => if !up {
            spec_end(ctx, Err(WsHandlerError::RedisError))
        } else {
            spec_go(
                ctx,
                seq![
                    Op::AnnounceLeave { room_id, nickname, reason },
                    Op::SetSessionRoom { session_id, room_id: None },
                ],
                Stage::LeaveStored { session_id, nickname, then },
            )
        },
        (Stage::LeaveStored { session_id, nickname, then }, Reply::Stored(done)) => match done {
            Err(e) => spec_end(ctx, Err(spec_map_redis_error(e))),
            Ok(()) => {
                let left = ConnectionContext { cached_session: with_cached_room(ctx.cached_session, None), ..ctx };
                match then {
                    AfterLeave::Leave { room_id } => spec_go(
                        left,
                        seq![Op::CacheSessionRoom { session_id, room_id: None }, Op::Send(WsServerMessage::Left { room_id })],
                        Stage::AwaitSent,
                    ),
                    AfterLeave::Logout => spec_go(
                        left,
                        seq![Op::CacheSessionRoom { session_id, room_id: None }, Op::CheckStore],
                        Stage::LogoutStore { session_id, nickname },
                    ),
                }
            },
        },
        // Logging out.
        (Stage::LogoutStore { session_id, nickname }, Reply::Available(up)) => if !up {
            spec_logout_done(ctx, session_id, nickname)
        } else if ctx.instance_load_registered {
            spec_go(ctx, seq![Op::DecrementLoad], Stage::LogoutLoad { session_id, nickname })
        } else {
            spec_go(ctx, seq![Op::ReleaseNick { nickname, session_id }], Stage::LogoutNick { session_id, nickname })
        },
        (Stage::LogoutLoad { session_id, nickname }, Reply::Stored(done)) => match done {
            Err(e) => spec_end(ctx, Err(spec_map_redis_error(e))),
            Ok(()) => spec_go(
                ConnectionContext { instance_load_registered: false, ..ctx },
                seq![Op::ReleaseNick { nickname, session_id }],
                Stage::LogoutNick { session_id, nickname },
            ),
        },
        (Stage::LogoutNick { session_id, nickname }, Reply::Stored(done)) => match done {
            Err(e) => spec_end(ctx, Err(spec_map_redis_error(e))),
            Ok(()) => spec_go(ctx, seq![Op::DeleteSession { session_id }], Stage::LogoutDelete { session_id, nickname }),
        },
        (Stage::LogoutDelete { session_id, nickname }, Reply::Stored(done)) => match done {
            Err(e) => spec_end(ctx, Err(spec_map_redis_error(e))),
            Ok(()) => spec_logout_done(ctx, session_id, nickname),
        },
        // Creating a room.
        (Stage::CreateRoomId { session_id, nickname }, Reply::RoomId(room_id)) => spec_go(
            ctx, seq![Op::AssignRoom { room_id }], Stage::CreateAssign { session_id, nickname, room_id },
        ),
        (Stage::CreateAssign { session_id, nickname, room_id }, Reply::Assigned(assigned)) => match assigned {
            Err(e) => spec_fail(ctx, Seq::empty(), Some(session_id), spec_map_redis_error(e)),
            Ok(sfu_addr) => spec_go(
                ctx, seq![Op::JoinRoom { room_id, nickname }], Stage::CreateJoin { session_id, nickname, room_id, sfu_addr },
            ),
        },
        (Stage::CreateJoin { session_id, nickname, room_id, sfu_addr }, Reply::Members(joined)) => match joined {
            Err(e) => spec_fail(ctx, seq![Op::CloseBinding { room_id }], Some(session_id), spec_map_redis_error(e)),
            Ok(_) => spec_go(
                ctx, seq![Op::EnsurePeer { sfu_addr, room_id, nickname }], Stage::CreatePeer { session_id, nickname, room_id, sfu_addr },
            ),
        },
        (Stage::CreatePeer { session_id, nickname, room_id, sfu_addr }, Reply::Sfu(peer)) => match peer {
            Err(e) => spec_fail(
                ctx,
                seq![Op::RemoveMember { room_id, nickname }, Op::CloseBinding { room_id }],
                Some(session_id),
                if e is Rejected { WsHandlerError::SfuRejected } else { WsHandlerError::SfuUnavailable },
            ),
            Ok(()) => spec_go(
                ctx, seq![Op::SetSessionRoom { session_id, room_id: Some(room_id) }],
                Stage::CreateStored { session_id, nickname, room_id, sfu_addr },
            ),
        },
        (Stage::CreateStored { session_id, nickname, room_id, sfu_addr }, Reply::Stored(done)) => match done {
            Err(e) => spec_fail(ctx, Seq::empty(), Some(session_id), spec_map_redis_error(e)),
            Ok(()) => spec_go(
                ConnectionContext { cached_session: with_cached_room(ctx.cached_session, Some(room_id)), ..ctx },
                seq![
                    Op::CacheSessionRoom { session_id, room_id: Some(room_id) },
                    Op::Send(WsServerMessage::Created { room_id, your_nickname: nickname }),
                ],
                Stage::CreateSent { session_id, nickname, room_id, sfu_addr },
            ),
        },
        (Stage::CreateSent { session_id, nickname, room_id, sfu_addr }, Reply::Sent(ok)) => if !ok {
            spec_fail(ctx, Seq::empty(), Some(session_id), WsHandlerError::WriteFailed)
        } else {
            spec_go(
                ctx,
                seq![Op::RegisterPeer { room_id, nickname, sfu_addr }, Op::ReleaseLock { session_id }],
                Stage::Finishing(Ok(())),
            )
        },
        // Joining a room.
        (Stage::JoinRoute { session_id, nickname, room_id }, Reply::Route(route)) => match route {
            Err(e) => spec_fail(ctx, Seq::empty(), Some(session_id), spec_map_redis_error(e)),
            Ok(r) => if !spec_is_local_target(r@, host, port) || r@.room_state != "active"@ {
                spec_fail(ctx, Seq::empty(), Some(session_id), WsHandlerError::InvalidRoomAssignment)
            } else {
                match r.sfu_grpc_addr {
                    None => spec_fail(ctx, Seq::empty(), Some(session_id), WsHandlerError::SfuUnavailable),
                    Some(sfu_addr) => spec_go(
                        ctx, seq![Op::JoinRoom { room_id, nickname }], Stage::JoinMembers { session_id, nickname, room_id, sfu_addr },
                    ),
                }
            },
        },
        (Stage::JoinMembers { session_id, nickname, room_id, sfu_addr }, Reply::Members(joined)) => match joined {
            Err(e) => spec_fail(ctx, Seq::empty(), Some(session_id), spec_map_redis_error(e)),
            Ok(participants) => spec_go(
                ctx, seq![Op::EnsurePeer { sfu_addr, room_id, nickname }],
                Stage::JoinPeer { session_id, nickname, room_id, sfu_addr, participants },
            ),
        },
        (Stage::JoinPeer { session_id, nickname, room_id, sfu_addr, participants }, Reply::Sfu(peer)) => match peer {
            Err(e) => spec_fail(
                ctx,
                seq![Op::RemoveMember { room_id, nickname }],
                Some(session_id),
                if e is Rejected { WsHandlerError::SfuRejected } else { WsHandlerError::SfuUnavailable },
            ),
            Ok(()) => spec_go(
                ctx, seq![Op::SetSessionRoom { session_id, room_id: Some(room_id) }],
                Stage::JoinStored { session_id, nickname, room_id, sfu_addr, participants },
            ),
        },
        (Stage::JoinStored { session_id, nickname, room_id, sfu_addr, participants }, Reply::Stored(done)) => match done {
            Err(e) => spec_fail(ctx, Seq::empty(), Some(session_id), spec_map_redis_error(e)),
            Ok(()) => spec_go(
                ConnectionContext { cached_session: with_cached_room(ctx.cached_session, Some(room_id)), ..ctx },
                seq![
                    Op::CacheSessionRoom { session_id, room_id: Some(room_id) },
                    Op::Send(WsServerMessage::Joined { room_id, your_nickname: nickname, participants }),
                ],
                Stage::JoinSent { session_id, nickname, room_id, sfu_addr },
            ),
        },
        (Stage::JoinSent { session_id, nickname, room_id, sfu_addr }, Reply::Sent(ok)) => if !ok {
            spec_fail(ctx, Seq::empty(), Some(session_id), WsHandlerError::WriteFailed)
        } else {
            spec_go(
                ctx,
                seq![
                    Op::RegisterPeer { room_id, nickname, sfu_addr },
                    Op::AnnounceJoin { room_id, nickname },
                    Op::ReleaseLock { session_id },
                ],
                Stage::Finishing(Ok(())),
            )
        },
        // SDP and ICE.
        (Stage::MediaRoute { nickname, room_id, media }, Reply::Route(route)) => match route {
            Err(e) => spec_end(ctx, Err(spec_map_redis_error(e))),
            Ok(r) => match r.sfu_grpc_addr {
                None => spec_end(ctx, Err(WsHandlerError::SfuUnavailable)),
                Some(sfu_addr) => match media {
                    Pending::Candidate { candidate, sdp_mid } => spec_go(
                        ctx, seq![Op::SfuCandidate { sfu_addr, room_id, nickname, candidate, sdp_mid }], Stage::MediaSfu,
                    ),
                    Pending::Sdp { sdp, sdp_type } => spec_go(
                        ctx, seq![Op::SfuSdp { sfu_addr, room_id, nickname, sdp, sdp_type }], Stage::MediaSfu,
                    ),
                    _ => spec_end(ctx, Err(WsHandlerError::SfuUnavailable)),
                },
            },
        },
        (Stage::MediaSfu, Reply::Sfu(sent)) => match sent {
            Err(e) => spec_end(ctx, Err(if e is Rejected { WsHandlerError::SfuRejected } else { WsHandlerError::SfuUnavailable })),
            Ok(()) => spec_end(ctx, Ok(())),
        },
        (Stage::MediaSfu, Reply::SfuAnswer(answer)) => match answer {
            Err(e) => spec_end(ctx, Err(if e is Rejected { WsHandlerError::SfuRejected } else { WsHandlerError::SfuUnavailable })),
            Ok((sdp, sdp_type)) => spec_go(ctx, seq![Op::Send(WsServerMessage::SfuAnswer { sdp, sdp_type })], Stage::AwaitSent),
        },
        // Endings.
        (Stage::AwaitSent, Reply::Sent(ok)) => if ok {
            spec_end(ctx, Ok(()))
        } else {
            spec_end(ctx, Err(WsHandlerError::WriteFailed))
        },
        (Stage::Finishing(result), _) => spec_end(ctx, result),
        (stage, _) => StepView { ctx, stage, action: ActionView::Finish(Err(WsHandlerError::RedisError)) },
    }
}


/// `r` is the step `v`.
pub open spec fn step_is(r: (ConnectionContext, Stage, HandlerAction), v: StepView) -> bool {
    r.0 == v.ctx && r.1 == v.stage && action_view(r.2) == v.action
}

fn ops1(a: Op) -> (r: Vec<Op>)
    ensures
        r@ == seq![a],
{
    let mut v: Vec<Op> = Vec::new();
    v.push(a);
    v
}

fn ops2(a: Op, b: Op) -> (r: Vec<Op>)
    ensures
        r@ == seq![a, b],
{
    let mut v = ops1(a);
    v.push(b);
    v
}

fn ops3(a: Op, b: Op, c: Op) -> (r: Vec<Op>)
    ensures
        r@ == seq![a, b, c],
{
    let mut v = ops2(a, b);
    v.push(c);
    v
}

fn copy_opt(o: &Option<String>) -> (r: Option<String>)
    ensures
        r == *o,
{
    match o {
        Some(t) => Some(t.clone()),
        None => None,
    }
}

fn copy_session(s: &SessionState) -> (r: SessionState)
    ensures
        r == *s,
{
    SessionState { nickname: s.nickname.clone(), room_id: copy_opt(&s.room_id) }
}

fn end(ctx: ConnectionContext, result: Result<(), WsHandlerError>) -> (r: (ConnectionContext, Stage, HandlerAction))
    ensures
        step_is(r, spec_end(ctx, result)),
{
    (ctx, Stage::Finishing(result), HandlerAction::Finish(result))
}

fn fail(ctx: ConnectionContext, prefix: Vec<Op>, lock: Option<String>, err: WsHandlerError) -> (r: (ConnectionContext, Stage, HandlerAction))
    ensures
        step_is(r, spec_fail(ctx, prefix@, lock, err)),
{
    let mut ops = prefix;
    match lock {
        Some(id) => ops.push(Op::ReleaseLock { session_id: id }),
        None => {},
    }
    if ops.len() == 0 {
        (ctx, Stage::Finishing(Err(err)), HandlerAction::Finish(Err(err)))
    } else {
        (ctx, Stage::Finishing(Err(err)), HandlerAction::Perform(ops))
    }
}

fn sfu_failure(e: SfuClientError) -> (r: WsHandlerError)
    ensures
        r == (if e is Rejected { WsHandlerError::SfuRejected } else { WsHandlerError::SfuUnavailable }),
{
    map_sfu_error(e)
}

fn is_locking(then: &Pending) -> (r: bool)
    ensures
        r == (*then is Create || *then is Join),
{
    match then {
        Pending::Create | Pending::Join { .. } => true,
        _ => false,
    }
}

fn lock_for(session_id: &String, then: &Pending) -> (r: Option<String>)
    ensures
        r == lock_of(*session_id, *then),
{
    if is_locking(then) { Some(session_id.clone()) } else { None }
}

fn session_check(ctx: ConnectionContext, session_id: String, then: Pending) -> (r: (ConnectionContext, Stage, HandlerAction))
    ensures
        step_is(r, spec_session_check(ctx, session_id, then)),
{
    match bound_session_check(&ctx.session_id, session_id.as_str()) {
        Err(e) => {
            let lock = lock_for(&session_id, &then);
            fail(ctx, Vec::new(), lock, e)
        },
        Ok(()) => (ctx, Stage::SessionStore { session_id, then }, HandlerAction::Perform(ops1(Op::CheckStore))),
    }
}

fn received(ctx: ConnectionContext, m: WsClientMessage) -> (r: (ConnectionContext, Stage, HandlerAction))
    ensures
        step_is(r, spec_received(ctx, m)),
{
    match m {
        WsClientMessage::Attach { token } => match attach_admission(&ctx.session_id) {
            Err(e) => end(ctx, Err(e)),
            Ok(()) => (ctx, Stage::AttachStore { token }, HandlerAction::Perform(ops1(Op::CheckStore))),
        },
        WsClientMessage::Create { session_id } => (
            ctx,
            Stage::LockStore { session_id, then: Pending::Create },
            HandlerAction::Perform(ops1(Op::CheckStore)),
        ),
        WsClientMessage::Join { session_id, room_id } => (
            ctx,
            Stage::LockStore { session_id, then: Pending::Join { room_id } },
            HandlerAction::Perform(ops1(Op::CheckStore)),
        ),
        WsClientMessage::Logout { session_id } => session_check(ctx, session_id, Pending::Logout),
        WsClientMessage::Leave { session_id, room_id } => session_check(ctx, session_id, Pending::Leave { room_id }),
        WsClientMessage::Sdp { session_id, sdp, sdp_type } => session_check(ctx, session_id, Pending::Sdp { sdp, sdp_type }),
        WsClientMessage::Candidate { session_id, candidate, sdp_mid } => session_check(
            ctx, session_id, Pending::Candidate { candidate, sdp_mid },
        ),
    }
}

fn continue_with(ctx: ConnectionContext, session_id: String, s: SessionState, then: Pending) -> (r: (ConnectionContext, Stage, HandlerAction))
    ensures
        step_is(r, spec_continue(ctx, session_id, s, then)),
{
    let mut prefix = ops1(Op::CacheSession { session_id: session_id.clone(), session: copy_session(&s) });
    let nickname = s.nickname.clone();
    match then {
        Pending::Logout => match s.room_id {
            Some(room_id) => {
                prefix.push(Op::CheckStore);
                (ctx, Stage::LeaveStore {
                    session_id, room_id, nickname, reason: LeaveReason::UserLogout, then: AfterLeave::Logout,
                }, HandlerAction::Perform(prefix))
            },
            None => {
                prefix.push(Op::CheckStore);
                (ctx, Stage::LogoutStore { session_id, nickname }, HandlerAction::Perform(prefix))
            },
        },
        Pending::Leave { room_id } => match leave_admission(&s, room_id.as_str()) {
            Err(e) => fail(ctx, prefix, None, e),
            Ok(()) => {
                prefix.push(Op::CheckStore);
                let current = room_id.clone();
                (ctx, Stage::LeaveStore {
                    session_id, room_id, nickname, reason: LeaveReason::UserLeft,
                    then: AfterLeave::Leave { room_id: current },
                }, HandlerAction::Perform(prefix))
            },
        },
        Pending::Sdp { sdp, sdp_type } => match current_room(&s) {
            Err(e) => fail(ctx, prefix, None, e),
            Ok(room_id) => {
                prefix.push(Op::GetRoute { room_id: room_id.clone() });
                (ctx, Stage::MediaRoute { nickname, room_id, media: Pending::Sdp { sdp, sdp_type } }, HandlerAction::Perform(prefix))
            },
        },
        Pending::Candidate { candidate, sdp_mid } => match current_room(&s) {
            Err(e) => fail(ctx, prefix, None, e),
            Ok(room_id) => {
                prefix.push(Op::GetRoute { room_id: room_id.clone() });
                (ctx, Stage::MediaRoute { nickname, room_id, media: Pending::Candidate { candidate, sdp_mid } }, HandlerAction::Perform(prefix))
            },
        },
        Pending::Create => match create_admission(&s, &ctx.allowed_intent) {
            Err(e) => fail(ctx, prefix, Some(session_id), e),
            Ok(()) => {
                prefix.push(Op::NewRoomId);
                (ctx, Stage::CreateRoomId { session_id, nickname }, HandlerAction::Perform(prefix))
            },
        },
        Pending::Join { room_id } => match join_admission(&s, &ctx.allowed_intent, &ctx.allowed_room_id, room_id.as_str()) {
            Err(e) => fail(ctx, prefix, Some(session_id), e),
            Ok(()) => {
                prefix.push(Op::GetRoute { room_id: room_id.clone() });
                (ctx, Stage::JoinRoute { session_id, nickname, room_id }, HandlerAction::Perform(prefix))
            },
        },
    }
}

fn attach_step(ctx: ConnectionContext, stage: Stage, reply: Reply, host: &str, port: u16) -> (r: (ConnectionContext, Stage, HandlerAction))
    requires
        fits(stage, reply),
        stage is AttachStore || stage is AttachClaims || stage is AttachJti || stage is AttachSession
            || stage is AttachOwner || stage is AttachLoad,
    ensures
        step_is(r, spec_step(ctx, stage, reply, host@, port)),
{
    match (stage, reply) {
        (Stage::AttachStore { token }, Reply::Available(up)) => if !up {
            end(ctx, Err(WsHandlerError::RedisError))
        } else {
            (ctx, Stage::AttachClaims, HandlerAction::Perform(ops1(Op::ValidateToken { token })))
        },
        (Stage::AttachClaims, Reply::Claims(claims)) => match claims {
            None => end(ctx, Err(WsHandlerError::Unauthorized)),
            Some(c) => if c.jti.as_str().unicode_len() > 0 {
                let op = Op::ConsumeJti { jti: c.jti.clone(), ttl_secs: jti_ttl(c.iat, c.exp) };
                (ctx, Stage::AttachJti { claims: c }, HandlerAction::Perform(ops1(op)))
            } else {
                let op = Op::GetSession { session_id: c.session_id.clone() };
                (ctx, Stage::AttachSession { claims: c }, HandlerAction::Perform(ops1(op)))
            },
        },
        (Stage::AttachJti { claims }, Reply::Flag(consumed)) => match consumed {
            Err(e) => end(ctx, Err(map_redis_error(e))),
            Ok(false) => end(ctx, Err(WsHandlerError::Unauthorized)),
            Ok(true) => {
                let op = Op::GetSession { session_id: claims.session_id.clone() };
                (ctx, Stage::AttachSession { claims }, HandlerAction::Perform(ops1(op)))
            },
        },
        (Stage::AttachSession { claims }, Reply::Session(read)) => match read {
            Err(e) => end(ctx, Err(map_redis_error(e))),
            Ok(Some(s)) => if str_eq(s.nickname.as_str(), claims.nickname.as_str()) {
                let op = Op::SetOwner { session_id: claims.session_id.clone() };
                (ctx, Stage::AttachOwner { claims, session: s }, HandlerAction::Perform(ops1(op)))
            } else {
                end(ctx, Err(WsHandlerError::Unauthorized))
            },
            Ok(None) => end(ctx, Err(WsHandlerError::Unauthorized)),
        },
        (Stage::AttachOwner { claims, session }, Reply::Stored(done)) => match done {
            Err(e) => end(ctx, Err(map_redis_error(e))),
            Ok(()) => {
                let next = ConnectionContext {
                    session_id: Some(claims.session_id.clone()),
                    cached_session: Some(copy_session(&session)),
                    allowed_intent: Some(claims.intent),
                    allowed_room_id: claims.room_id,
                    instance_load_registered: ctx.instance_load_registered,
                    lease_renewer_running: ctx.lease_renewer_running,
                };
                (next, Stage::AttachLoad { session_id: claims.session_id, session }, HandlerAction::Perform(ops1(Op::IncrementLoad)))
            },
        },
        (Stage::AttachLoad { session_id, session }, Reply::Stored(done)) => match done {
            Err(e) => end(ctx, Err(map_redis_error(e))),
            Ok(()) => {
                let next = ConnectionContext { instance_load_registered: true, lease_renewer_running: true, ..ctx };
                let ops = ops3(
                    Op::StartRenewer { session_id: session_id.clone(), nickname: session.nickname.clone() },
                    Op::CacheSession { session_id: session_id.clone(), session: copy_session(&session) },
                    Op::Send(WsServerMessage::Attached { nickname: session.nickname, session_id }),
                );
                (next, Stage::AwaitSent, HandlerAction::Perform(ops))
            },
        },
        (stage, _) => (ctx, stage, HandlerAction::Finish(Err(WsHandlerError::RedisError))),
    }
}

fn session_step(ctx: ConnectionContext, stage: Stage, reply: Reply, host: &str, port: u16) -> (r: (ConnectionContext, Stage, HandlerAction))
    requires
        fits(stage, reply),
        stage is LockStore || stage is LockAcquire || stage is SessionStore || stage is SessionRead,
    ensures
        step_is(r, spec_step(ctx, stage, reply, host@, port)),
{
    match (stage, reply) {
        (Stage::LockStore { session_id, then }, Reply::Available(up)) => if !up {
            end(ctx, Err(WsHandlerError::RedisError))
        } else {
            let op = Op::AcquireLock { session_id: session_id.clone() };
            (ctx, Stage::LockAcquire { session_id, then }, HandlerAction::Perform(ops1(op)))
        },
        (Stage::LockAcquire { session_id, then }, Reply::Flag(acquired)) => match acquired {
            Err(e) => end(ctx, Err(map_redis_error(e))),
            Ok(false) => end(ctx, Err(WsHandlerError::SessionConflict)),
            Ok(true) => session_check(ctx, session_id, then),
        },
        (Stage::SessionStore { session_id, then }, Reply::Available(up)) => if !up {
            let lock = lock_for(&session_id, &then);
            fail(ctx, Vec::new(), lock, WsHandlerError::RedisError)
        } else {
            let op = Op::GetSession { session_id: session_id.clone() };
            (ctx, Stage::SessionRead { session_id, then }, HandlerAction::Perform(ops1(op)))
        },
        (Stage::SessionRead { session_id, then }, Reply::Session(read)) => {
            let lock = lock_for(&session_id, &then);
            match read {
                Err(e) => fail(ctx, Vec::new(), lock, map_redis_error(e)),
                Ok(stored) => match existing_session(stored) {
                    Err(e) => fail(ctx, Vec::new(), lock, e),
                    Ok(s) => {
                        let next = ConnectionContext {
                            session_id: Some(session_id.clone()),
                            cached_session: Some(copy_session(&s)),
                            ..ctx
                        };
                        continue_with(next, session_id, s, then)
                    },
                },
            }
        },
        (stage, _) => (ctx, stage, HandlerAction::Finish(Err(WsHandlerError::RedisError))),
    }
}

fn logout_done(ctx: ConnectionContext, session_id: String, nickname: String) -> (r: (ConnectionContext, Stage, HandlerAction))
    ensures
        step_is(r, spec_logout_done(ctx, session_id, nickname)),
{
    let ops = if ctx.lease_renewer_running {
        ops3(Op::ForgetSession { session_id }, Op::StopRenewer, Op::Send(WsServerMessage::LoggedOut { nickname }))
    } else {
        ops2(Op::ForgetSession { session_id }, Op::Send(WsServerMessage::LoggedOut { nickname }))
    };
    let next = ConnectionContext { session_id: None, cached_session: None, lease_renewer_running: false, ..ctx };
    (next, Stage::AwaitSent, HandlerAction::Perform(ops))
}

fn set_cached_room(cached: Option<SessionState>, room_id: Option<String>) -> (r: Option<SessionState>)
    ensures
        r == with_cached_room(cached, room_id),
{
    match cached {
        Some(s) => Some(SessionState { nickname: s.nickname, room_id }),
        None => None,
    }
}

fn leave_logout_step(ctx: ConnectionContext, stage: Stage, reply: Reply, host: &str, port: u16) -> (r: (ConnectionContext, Stage, HandlerAction))
    requires
        fits(stage, reply),
        stage is LeaveStore || stage is LeaveStored || stage is LogoutStore || stage is LogoutLoad
            || stage is LogoutNick || stage is LogoutDelete,
    ensures
        step_is(r, spec_step(ctx, stage, reply, host@, port)),
{
    match (stage, reply) {
        (Stage::LeaveStore { session_id, room_id, nickname, reason, then }, Reply::Available(up)) => if !up {
            end(ctx, Err(WsHandlerError::RedisError))
        } else {
            let ops = ops2(
                Op::AnnounceLeave { room_id, nickname: nickname.clone(), reason },
                Op::SetSessionRoom { session_id: session_id.clone(), room_id: None },
            );
            (ctx, Stage::LeaveStored { session_id, nickname, then }, HandlerAction::Perform(ops))
        },
        (Stage::LeaveStored { session_id, nickname, then }, Reply::Stored(done)) => match done {
            Err(e) => end(ctx, Err(map_redis_error(e))),
            Ok(()) => {
                let cached = set_cached_room(ctx.cached_session, None);
                let left = ConnectionContext { cached_session: cached, ..ctx };
                match then {
                    AfterLeave::Leave { room_id } => {
                        let ops = ops2(
                            Op::CacheSessionRoom { session_id, room_id: None },
                            Op::Send(WsServerMessage::Left { room_id }),
                        );
                        (left, Stage::AwaitSent, HandlerAction::Perform(ops))
                    },
                    AfterLeave::Logout => {
                        let ops = ops2(Op::CacheSessionRoom { session_id: session_id.clone(), room_id: None }, Op::CheckStore);
                        (left, Stage::LogoutStore { session_id, nickname }, HandlerAction::Perform(ops))
                    },
                }
            },
        },
        (Stage::LogoutStore { session_id, nickname }, Reply::Available(up)) => if !up {
            logout_done(ctx, session_id, nickname)
        } else if ctx.instance_load_registered {
            (ctx, Stage::LogoutLoad { session_id, nickname }, HandlerAction::Perform(ops1(Op::DecrementLoad)))
        } else {
            let op = Op::ReleaseNick { nickname: nickname.clone(), session_id: session_id.clone() };
            (ctx, Stage::LogoutNick { session_id, nickname }, HandlerAction::Perform(ops1(op)))
        },
        (Stage::LogoutLoad { session_id, nickname }, Reply::Stored(done)) => match done {
            Err(e) => end(ctx, Err(map_redis_error(e))),
            Ok(()) => {
                let op = Op::ReleaseNick { nickname: nickname.clone(), session_id: session_id.clone() };
                let next = ConnectionContext { instance_load_registered: false, ..ctx };
                (next, Stage::LogoutNick { session_id, nickname }, HandlerAction::Perform(ops1(op)))
            },
        },
        (Stage::LogoutNick { session_id, nickname }, Reply::Stored(done)) => match done {
            Err(e) => end(ctx, Err(map_redis_error(e))),
            Ok(()) => {
                let op = Op::DeleteSession { session_id: session_id.clone() };
                (ctx, Stage::LogoutDelete { session_id, nickname }, HandlerAction::Perform(ops1(op)))
            },
        },
        (Stage::LogoutDelete { session_id, nickname }, Reply::Stored(done)) => match done {
            Err(e) => end(ctx, Err(map_redis_error(e))),
            Ok(()) => logout_done(ctx, session_id, nickname),
        },
        (stage, _) => (ctx, stage, HandlerAction::Finish(Err(WsHandlerError::RedisError))),
    }
}

fn create_step(ctx: ConnectionContext, stage: Stage, reply: Reply, host: &str, port: u16) -> (r: (ConnectionContext, Stage, HandlerAction))
    requires
        fits(stage, reply),
        stage is CreateRoomId || stage is CreateAssign || stage is CreateJoin || stage is CreatePeer
            || stage is CreateStored || stage is CreateSent,
    ensures
        step_is(r, spec_step(ctx, stage, reply, host@, port)),
{
    match (stage, reply) {
        (Stage::CreateRoomId { session_id, nickname }, Reply::RoomId(room_id)) => {
            let op = Op::AssignRoom { room_id: room_id.clone() };
            (ctx, Stage::CreateAssign { session_id, nickname, room_id }, HandlerAction::Perform(ops1(op)))
        },
        (Stage::CreateAssign { session_id, nickname, room_id }, Reply::Assigned(assigned)) => match assigned {
            Err(e) => fail(ctx, Vec::new(), Some(session_id), map_redis_error(e)),
            Ok(sfu_addr) => {
                let op = Op::JoinRoom { room_id: room_id.clone(), nickname: nickname.clone() };
                (ctx, Stage::CreateJoin { session_id, nickname, room_id, sfu_addr }, HandlerAction::Perform(ops1(op)))
            },
        },
        (Stage::CreateJoin { session_id, nickname, room_id, sfu_addr }, Reply::Members(joined)) => match joined {
            Err(e) => fail(ctx, ops1(Op::CloseBinding { room_id }), Some(session_id), map_redis_error(e)),
            Ok(_) => {
                let op = Op::EnsurePeer { sfu_addr: sfu_addr.clone(), room_id: room_id.clone(), nickname: nickname.clone() };
                (ctx, Stage::CreatePeer { session_id, nickname, room_id, sfu_addr }, HandlerAction::Perform(ops1(op)))
            },
        },
        (Stage::CreatePeer { session_id, nickname, room_id, sfu_addr }, Reply::Sfu(peer)) => match peer {
            Err(e) => {
                let prefix = ops2(Op::RemoveMember { room_id: room_id.clone(), nickname }, Op::CloseBinding { room_id });
                fail(ctx, prefix, Some(session_id), sfu_failure(e))
            },
            Ok(()) => {
                let op = Op::SetSessionRoom { session_id: session_id.clone(), room_id: Some(room_id.clone()) };
                (ctx, Stage::CreateStored { session_id, nickname, room_id, sfu_addr }, HandlerAction::Perform(ops1(op)))
            },
        },
        (Stage::CreateStored { session_id, nickname, room_id, sfu_addr }, Reply::Stored(done)) => match done {
            Err(e) => fail(ctx, Vec::new(), Some(session_id), map_redis_error(e)),
            Ok(()) => {
                let cached = set_cached_room(ctx.cached_session, Some(room_id.clone()));
                let next = ConnectionContext { cached_session: cached, ..ctx };
                let ops = ops2(
                    Op::CacheSessionRoom { session_id: session_id.clone(), room_id: Some(room_id.clone()) },
                    Op::Send(WsServerMessage::Created { room_id: room_id.clone(), your_nickname: nickname.clone() }),
                );
                (next, Stage::CreateSent { session_id, nickname, room_id, sfu_addr }, HandlerAction::Perform(ops))
            },
        },
        (Stage::CreateSent { session_id, nickname, room_id, sfu_addr }, Reply::Sent(ok)) => if !ok {
            fail(ctx, Vec::new(), Some(session_id), WsHandlerError::WriteFailed)
        } else {
            let ops = ops2(Op::RegisterPeer { room_id, nickname, sfu_addr }, Op::ReleaseLock { session_id });
            (ctx, Stage::Finishing(Ok(())), HandlerAction::Perform(ops))
        },
        (stage, _) => (ctx, stage, HandlerAction::Finish(Err(WsHandlerError::RedisError))),
    }
}

fn join_step(ctx: ConnectionContext, stage: Stage, reply: Reply, host: &str, port: u16) -> (r: (ConnectionContext, Stage, HandlerAction))
    requires
        fits(stage, reply),
        stage is JoinRoute || stage is JoinMembers || stage is JoinPeer || stage is JoinStored || stage is JoinSent,
    ensures
        step_is(r, spec_step(ctx, stage, reply, host@, port)),
{
    match (stage, reply) {
        (Stage::JoinRoute { session_id, nickname, room_id }, Reply::Route(route)) => match route {
            Err(e) => fail(ctx, Vec::new(), Some(session_id), map_redis_error(e)),
            Ok(r) => match join_target(&r, host, port) {
                Err(e) => fail(ctx, Vec::new(), Some(session_id), e),
                Ok(sfu_addr) => {
                    let op = Op::JoinRoom { room_id: room_id.clone(), nickname: nickname.clone() };
                    (ctx, Stage::JoinMembers { session_id, nickname, room_id, sfu_addr }, HandlerAction::Perform(ops1(op)))
                },
            },
        },
        (Stage::JoinMembers { session_id, nickname, room_id, sfu_addr }, Reply::Members(joined)) => match joined {
            Err(e) => fail(ctx, Vec::new(), Some(session_id), map_redis_error(e)),
            Ok(participants) => {
                let op = Op::EnsurePeer { sfu_addr: sfu_addr.clone(), room_id: room_id.clone(), nickname: nickname.clone() };
                (ctx, Stage::JoinPeer { session_id, nickname, room_id, sfu_addr, participants }, HandlerAction::Perform(ops1(op)))
            },
        },
        (Stage::JoinPeer { session_id, nickname, room_id, sfu_addr, participants }, Reply::Sfu(peer)) => match peer {
            Err(e) => fail(ctx, ops1(Op::RemoveMember { room_id, nickname }), Some(session_id), sfu_failure(e)),
            Ok(()) => {
                let op = Op::SetSessionRoom { session_id: session_id.clone(), room_id: Some(room_id.clone()) };
                (ctx, Stage::JoinStored { session_id, nickname, room_id, sfu_addr, participants }, HandlerAction::Perform(ops1(op)))
            },
        },
        (Stage::JoinStored { session_id, nickname, room_id, sfu_addr, participants }, Reply::Stored(done)) => match done {
            Err(e) => fail(ctx, Vec::new(), Some(session_id), map_redis_error(e)),
            Ok(()) => {
                let cached = set_cached_room(ctx.cached_session, Some(room_id.clone()));
                let next = ConnectionContext { cached_session: cached, ..ctx };
                let ops = ops2(
                    Op::CacheSessionRoom { session_id: session_id.clone(), room_id: Some(room_id.clone()) },
                    Op::Send(WsServerMessage::Joined { room_id: room_id.clone(), your_nickname: nickname.clone(), participants }),
                );
                (next, Stage::JoinSent { session_id, nickname, room_id, sfu_addr }, HandlerAction::Perform(ops))
            },
        },
        (Stage::JoinSent { session_id, nickname, room_id, sfu_addr }, Reply::Sent(ok)) => if !ok {
            fail(ctx, Vec::new(), Some(session_id), WsHandlerError::WriteFailed)
        } else {
            let ops = ops3(
                Op::RegisterPeer { room_id: room_id.clone(), nickname: nickname.clone(), sfu_addr },
                Op::AnnounceJoin { room_id, nickname },
                Op::ReleaseLock { session_id },
            );
            (ctx, Stage::Finishing(Ok(())), HandlerAction::Perform(ops))
        },
        (stage, _) => (ctx, stage, HandlerAction::Finish(Err(WsHandlerError::RedisError))),
    }
}

fn media_step(ctx: ConnectionContext, stage: Stage, reply: Reply, host: &str, port: u16) -> (r: (ConnectionContext, Stage, HandlerAction))
    requires
        fits(stage, reply),
        stage is MediaRoute || stage is MediaSfu || stage is AwaitSent || stage is Finishing,
    ensures
        step_is(r, spec_step(ctx, stage, reply, host@, port)),
{
    match (stage, reply) {
        (Stage::MediaRoute { nickname, room_id, media }, Reply::Route(route)) => match route {
            Err(e) => end(ctx, Err(map_redis_error(e))),
            Ok(r) => match route_sfu(&r) {
                Err(e) => end(ctx, Err(e)),
                Ok(sfu_addr) => match media {
                    Pending::Candidate { candidate, sdp_mid } => {
                        let op = Op::SfuCandidate { sfu_addr, room_id, nickname, candidate, sdp_mid };
                        (ctx, Stage::MediaSfu, HandlerAction::Perform(ops1(op)))
                    },
                    Pending::Sdp { sdp, sdp_type } => {
                        let op = Op::SfuSdp { sfu_addr, room_id, nickname, sdp, sdp_type };
                        (ctx, Stage::MediaSfu, HandlerAction::Perform(ops1(op)))
                    },
                    _ => end(ctx, Err(WsHandlerError::SfuUnavailable)),
                },
            },
        },
        (Stage::MediaSfu, Reply::Sfu(sent)) => match sent {
            Err(e) => end(ctx, Err(sfu_failure(e))),
            Ok(()) => end(ctx, Ok(())),
        },
        (Stage::MediaSfu, Reply::SfuAnswer(answer)) => match answer {
            Err(e) => end(ctx, Err(sfu_failure(e))),
            Ok((sdp, sdp_type)) => {
                let op = Op::Send(WsServerMessage::SfuAnswer { sdp, sdp_type });
                (ctx, Stage::AwaitSent, HandlerAction::Perform(ops1(op)))
            },
        },
        (Stage::AwaitSent, Reply::Sent(ok)) => if ok {
            end(ctx, Ok(()))
        } else {
            end(ctx, Err(WsHandlerError::WriteFailed))
        },
        (Stage::Finishing(result), _) => end(ctx, result),
        (stage, _) => (ctx, stage, HandlerAction::Finish(Err(WsHandlerError::RedisError))),
    }
}

/// One step of handling a client message on the node reachable at
/// `public_host:public_port`: a `Received` stage with the `Start` reply begins a
/// message; each later call hands back the reply to the last operation of the action
/// before. The next context, stage and action are exactly those of `spec_step`.
pub fn client_message_step(
    ctx: ConnectionContext,
    stage: Stage,
    reply: Reply,
    public_host: &str,
    public_port: u16,
) -> (r: (ConnectionContext, Stage, HandlerAction))
    requires
        fits(stage, reply),
    ensures
        step_is(r, spec_step(ctx, stage, reply, public_host@, public_port)),
{
    match stage {
        Stage::Received(m) => received(ctx, m),
        Stage::AttachStore { .. } | Stage::AttachClaims | Stage::AttachJti { .. } | Stage::AttachSession { .. }
        | Stage::AttachOwner { .. } | Stage::AttachLoad { .. } => attach_step(ctx, stage, reply, public_host, public_port),
        Stage::LockStore { .. } | Stage::LockAcquire { .. } | Stage::SessionStore { .. } | Stage::SessionRead { .. } =>
            session_step(ctx, stage, reply, public_host, public_port),
        Stage::LeaveStore { .. } | Stage::LeaveStored { .. } | Stage::LogoutStore { .. } | Stage::LogoutLoad { .. }
        | Stage::LogoutNick { .. } | Stage::LogoutDelete { .. } => leave_logout_step(ctx, stage, reply, public_host, public_port),
        Stage::CreateRoomId { .. } | Stage::CreateAssign { .. } | Stage::CreateJoin { .. } | Stage::CreatePeer { .. }
        | Stage::CreateStored { .. } | Stage::CreateSent { .. } => create_step(ctx, stage, reply, public_host, public_port),
        Stage::JoinRoute { .. } | Stage::JoinMembers { .. } | Stage::JoinPeer { .. } | Stage::JoinStored { .. }
        | Stage::JoinSent { .. } => join_step(ctx, stage, reply, public_host, public_port),
        Stage::MediaRoute { .. } | Stage::MediaSfu | Stage::AwaitSent | Stage::Finishing(_) =>
            media_step(ctx, stage, reply, public_host, public_port),
    }
}

/// A connection before its first message: unbound, nothing cached or counted.
pub fn new_connection() -> (r: ConnectionContext)
    ensures
        r.session_id is None && r.cached_session is None && r.allowed_intent is None && r.allowed_room_id is None,
        !r.instance_load_registered && !r.lease_renewer_running,
{
    ConnectionContext {
        session_id: None,
        cached_session: None,
        allowed_intent: None,
        allowed_room_id: None,
        instance_load_registered: false,
        lease_renewer_running: false,
    }
}

/// The session whose lock a stage holds, if it holds one.
pub open spec fn held_lock(stage: Stage) -> Option<String> {
    match stage {
        Stage::SessionStore { session_id, then } | Stage::SessionRead { session_id, then } => lock_of(session_id, then),
        Stage::CreateRoomId { session_id, .. } | Stage::CreateAssign { session_id, .. }
        | Stage::CreateJoin { session_id, .. } | Stage::CreatePeer { session_id, .. }
        | Stage::CreateStored { session_id, .. } | Stage::CreateSent { session_id, .. }
        | Stage::JoinRoute { session_id, .. } | Stage::JoinMembers { session_id, .. }
        | Stage::JoinPeer { session_id, .. } | Stage::JoinStored { session_id, .. }
        | Stage::JoinSent { session_id, .. } => Some(session_id),
        _ => None,
    }
}

/// The action's last operation releases the lock of session `id`.
pub open spec fn releases(a: ActionView, id: String) -> bool {
    match a {
        ActionView::Perform(ops) => ops.len() > 0 && ops.last() == (Op::ReleaseLock { session_id: id }),
        ActionView::Finish(_) => false,
    }
}

/// A create or join never ends while holding its session lock: from any stage that
/// holds it, a step either keeps a stage that holds the same lock, or its last
/// operation releases the lock before the message ends.
pub proof fn law_session_lock_released(ctx: ConnectionContext, stage: Stage, reply: Reply, host: Seq<char>, port: u16)
    requires
        fits(stage, reply),
        held_lock(stage) is Some,
    ensures
        ({
            let v = spec_step(ctx, stage, reply, host, port);
            let id = held_lock(stage)->0;
            held_lock(v.stage) == Some(id) || (v.stage is Finishing && releases(v.action, id))
        }),
{
}

/// The SFU's answer to a forwarded offer goes back to the client unchanged: the SDP
/// body as the message's SDP and the SDP type as its type, and nothing else is done.
pub proof fn law_sfu_answer_relayed(ctx: ConnectionContext, sdp: String, sdp_type: String, host: Seq<char>, port: u16)
    ensures
        ({
            let v = spec_step(ctx, Stage::MediaSfu, Reply::SfuAnswer(Ok((sdp, sdp_type))), host, port);
            &&& v.ctx == ctx
            &&& v.stage == Stage::AwaitSent
            &&& v.action matches ActionView::Perform(ops) && ops.len() == 1
                && ops[0] == Op::Send(WsServerMessage::SfuAnswer { sdp: sdp, sdp_type: sdp_type })
        }),
{
}

/// A client's offer and candidates go to the SFU its room's route names, carrying the
/// client's room, nickname and media text unchanged; a route without an SFU is answered
/// `SfuUnavailable`.
pub proof fn law_media_forwarded(
    ctx: ConnectionContext,
    nickname: String,
    room_id: String,
    route: RoomRoute,
    first: String,
    second: String,
    host: Seq<char>,
    port: u16,
)
    ensures
        ({
            let offer = spec_step(ctx, Stage::MediaRoute { nickname, room_id, media: Pending::Sdp { sdp: first, sdp_type: second } },
                Reply::Route(Ok(route)), host, port);
            let ice = spec_step(ctx, Stage::MediaRoute { nickname, room_id, media: Pending::Candidate { candidate: first, sdp_mid: second } },
                Reply::Route(Ok(route)), host, port);
            match route.sfu_grpc_addr {
                Some(sfu_addr) => {
                    &&& offer.action matches ActionView::Perform(ops) && ops == seq![Op::SfuSdp {
                        sfu_addr, room_id, nickname, sdp: first, sdp_type: second }]
                    &&& ice.action matches ActionView::Perform(ops) && ops == seq![Op::SfuCandidate {
                        sfu_addr, room_id, nickname, candidate: first, sdp_mid: second }]
                    &&& offer.stage == Stage::MediaSfu && ice.stage == Stage::MediaSfu
                },
                None => offer.action == ActionView::Finish(Err(WsHandlerError::SfuUnavailable))
                    && ice.action == ActionView::Finish(Err(WsHandlerError::SfuUnavailable)),
            }
        }),
{
}

/// A join whose `Joined` message went out registers the joiner's peer with the room's
/// SFU, announces the joiner to the room, and releases the session lock, in that order,
/// ending the message successfully; the `Joined` message itself names the room, the
/// joiner and the members the store answered.
pub proof fn law_join_announced(
    ctx: ConnectionContext,
    session_id: String,
    nickname: String,
    room_id: String,
    sfu_addr: String,
    participants: Vec<String>,
    host: Seq<char>,
    port: u16,
)
    ensures
        ({
            let v = spec_step(ctx, Stage::JoinSent { session_id, nickname, room_id, sfu_addr }, Reply::Sent(true), host, port);
            &&& v.stage == Stage::Finishing(Ok(()))
            &&& v.action matches ActionView::Perform(ops) && ops.len() == 3
                && ops[0] == Op::RegisterPeer { room_id, nickname, sfu_addr }
                && ops[1] == Op::AnnounceJoin { room_id, nickname }
                && ops[2] == Op::ReleaseLock { session_id }
        }),
        ({
            let v = spec_step(ctx, Stage::JoinStored { session_id, nickname, room_id, sfu_addr, participants },
                Reply::Stored(Ok(())), host, port);
            v.action matches ActionView::Perform(ops) && ops.len() == 2
                && ops[1] == Op::Send(WsServerMessage::Joined { room_id, your_nickname: nickname, participants })
        }),
{
}

/// A create whose `Created` message went out registers the creator's peer and
/// releases the session lock, ending the message successfully; `Created` names the new
/// room and the creator.
pub proof fn law_create_completed(
    ctx: ConnectionContext,
    session_id: String,
    nickname: String,
    room_id: String,
    sfu_addr: String,
    host: Seq<char>,
    port: u16,
)
    ensures
        ({
            let v = spec_step(ctx, Stage::CreateSent { session_id, nickname, room_id, sfu_addr }, Reply::Sent(true), host, port);
            &&& v.stage == Stage::Finishing(Ok(()))
            &&& v.action matches ActionView::Perform(ops) && ops.len() == 2
                && ops[0] == Op::RegisterPeer { room_id, nickname, sfu_addr }
                && ops[1] == Op::ReleaseLock { session_id }
        }),
        ({
            let v = spec_step(ctx, Stage::CreateStored { session_id, nickname, room_id, sfu_addr }, Reply::Stored(Ok(())), host, port);
            v.action matches ActionView::Perform(ops) && ops.len() == 2
                && ops[1] == Op::Send(WsServerMessage::Created { room_id, your_nickname: nickname })
        }),
{
}

/// A message whose final reply could not be written ends with `WriteFailed`; one that
/// was written ends successfully.
pub proof fn law_write_outcome(ctx: ConnectionContext, ok: bool, host: Seq<char>, port: u16)
    ensures
        spec_step(ctx, Stage::AwaitSent, Reply::Sent(ok), host, port).action
            == ActionView::Finish(if ok { Ok(()) } else { Err(WsHandlerError::WriteFailed) }),
{
}

/// An attach whose load was counted binds the connection to the token's session,
/// starts its lease renewer, and answers `Attached` with the stored nickname and the
/// session id.
pub proof fn law_attach_completed(ctx: ConnectionContext, session_id: String, session: SessionState, host: Seq<char>, port: u16)
    ensures
        ({
            let v = spec_step(ctx, Stage::AttachLoad { session_id, session }, Reply::Stored(Ok(())), host, port);
            &&& v.ctx.instance_load_registered && v.ctx.lease_renewer_running
            &&& v.ctx.session_id == ctx.session_id
            &&& v.action matches ActionView::Perform(ops) && ops.len() == 3
                && ops[0] == Op::StartRenewer { session_id, nickname: session.nickname }
                && ops[2] == Op::Send(WsServerMessage::Attached { nickname: session.nickname, session_id })
        }),
{
}

/// Leaving a room answers `Left` with the room that was named; a logout that has
/// deleted the session unbinds the connection and answers `LoggedOut` with the
/// session's nickname.
pub proof fn law_leave_and_logout_answers(ctx: ConnectionContext, session_id: String, nickname: String, room_id: String, host: Seq<char>, port: u16)
    ensures
        ({
            let v = spec_step(ctx, Stage::LeaveStored { session_id, nickname, then: AfterLeave::Leave { room_id } },
                Reply::Stored(Ok(())), host, port);
            v.action matches ActionView::Perform(ops) && ops.len() == 2 && ops[1] == Op::Send(WsServerMessage::Left { room_id })
        }),
        ({
            let v = spec_step(ctx, Stage::LogoutDelete { session_id, nickname }, Reply::Stored(Ok(())), host, port);
            &&& v.ctx.session_id is None && v.ctx.cached_session is None && !v.ctx.lease_renewer_running
            &&& v.action matches ActionView::Perform(ops) && ops.len() >= 2
                && ops[ops.len() - 1] == Op::Send(WsServerMessage::LoggedOut { nickname })
                && ops[0] == Op::ForgetSession { session_id }
        }),
{
}

/// An attach on a connection already bound to a session is refused
/// (`AlreadyAuthorized`) without touching anything; otherwise the store is checked
/// first, and then the token is validated as given.
pub proof fn law_attach_admission(ctx: ConnectionContext, token: String, host: Seq<char>, port: u16)
    ensures
        ({
            let v = spec_step(ctx, Stage::Received(WsClientMessage::Attach { token }), Reply::Start, host, port);
            &&& v.ctx == ctx
            &&& ctx.session_id is Some ==> v.action == ActionView::Finish(Err(WsHandlerError::AlreadyAuthorized))
            &&& ctx.session_id is None ==> v.action == ActionView::Perform(seq![Op::CheckStore])
        }),
        spec_step(ctx, Stage::AttachStore { token }, Reply::Available(true), host, port).action
            == ActionView::Perform(seq![Op::ValidateToken { token }]),
        spec_step(ctx, Stage::AttachStore { token }, Reply::Available(false), host, port).action
            == ActionView::Finish(Err(WsHandlerError::RedisError)),
{
}

/// A token that does not validate, a token id already used, or a stored session whose
/// nickname differs from the token's (or no session at all) is refused
/// (`Unauthorized`); a session that matches makes this node its owner.
pub proof fn law_attach_token_checks(ctx: ConnectionContext, claims: TokenClaims, stored: Option<SessionState>, host: Seq<char>, port: u16)
    ensures
        spec_step(ctx, Stage::AttachClaims, Reply::Claims(None), host, port).action
            == ActionView::Finish(Err(WsHandlerError::Unauthorized)),
        spec_step(ctx, Stage::AttachJti { claims }, Reply::Flag(Ok(false)), host, port).action
            == ActionView::Finish(Err(WsHandlerError::Unauthorized)),
        ({
            let v = spec_step(ctx, Stage::AttachSession { claims }, Reply::Session(Ok(stored)), host, port);
            match stored {
                Some(s) => if s.nickname@ == claims.nickname@ {
                    v.action == ActionView::Perform(seq![Op::SetOwner { session_id: claims.session_id }])
                } else {
                    v.action == ActionView::Finish(Err(WsHandlerError::Unauthorized))
                },
                None => v.action == ActionView::Finish(Err(WsHandlerError::Unauthorized)),
            }
        }),
        ({
            let v = spec_step(ctx, Stage::AttachClaims, Reply::Claims(Some(claims)), host, port);
            if claims.jti@.len() > 0 {
                v.action == ActionView::Perform(seq![Op::ConsumeJti { jti: claims.jti, ttl_secs: spec_jti_ttl(claims.iat, claims.exp) }])
            } else {
                v.action == ActionView::Perform(seq![Op::GetSession { session_id: claims.session_id }])
            }
        }),
{
}

/// Once this node owns the session, the connection is bound to the token's session,
/// remembers the stored session, and is allowed the token's intent and room.
pub proof fn law_attach_binds_connection(ctx: ConnectionContext, claims: TokenClaims, session: SessionState, host: Seq<char>, port: u16)
    ensures
        ({
            let v = spec_step(ctx, Stage::AttachOwner { claims, session }, Reply::Stored(Ok(())), host, port);
            &&& v.ctx.session_id == Some(claims.session_id)
            &&& v.ctx.cached_session == Some(session)
            &&& v.ctx.allowed_intent == Some(claims.intent)
            &&& v.ctx.allowed_room_id == claims.room_id
            &&& v.action == ActionView::Perform(seq![Op::IncrementLoad])
        }),
{
}

/// A message naming a session other than the one the connection is bound to is
/// refused (`SessionConflict`); a named session that is missing or has no nickname is
/// refused the same way; a session that exists binds the connection to it.
pub proof fn law_session_check(ctx: ConnectionContext, session_id: String, then: Pending, stored: Option<SessionState>, host: Seq<char>, port: u16)
    requires
        !(then is Create || then is Join),
    ensures
        (ctx.session_id matches Some(b) && b@ != session_id@) ==> spec_session_check(ctx, session_id, then).action
            == ActionView::Finish(Err(WsHandlerError::SessionConflict)),
        ({
            let v = spec_step(ctx, Stage::SessionRead { session_id, then }, Reply::Session(Ok(stored)), host, port);
            match stored {
                Some(s) => if s.nickname@.len() > 0 {
                    v.ctx.session_id == Some(session_id) && v.ctx.cached_session == Some(s)
                } else {
                    v.action == ActionView::Finish(Err(WsHandlerError::SessionConflict)) && v.ctx == ctx
                },
                None => v.action == ActionView::Finish(Err(WsHandlerError::SessionConflict)) && v.ctx == ctx,
            }
        }),
{
}

/// Leaving is refused with `NotInRoom` when the session is in no room and with
/// `LeaveRoomMismatch` when it is in another room; leaving the session's own room
/// checks the store next.
pub proof fn law_leave_admission(ctx: ConnectionContext, session_id: String, s: SessionState, room_id: String)
    ensures
        ({
            let v = spec_continue(ctx, session_id, s, Pending::Leave { room_id });
            match s.room_id {
                None => v.stage == Stage::Finishing(Err(WsHandlerError::NotInRoom)),
                Some(current) => if current@ != room_id@ {
                    v.stage == Stage::Finishing(Err(WsHandlerError::LeaveRoomMismatch))
                } else {
                    (v.stage matches Stage::LeaveStore { room_id: r, nickname, .. } && r == room_id && nickname == s.nickname)
                },
            }
        }),
{
}

/// Creating a room is refused with `AlreadyInRoom` for a session already in a room and
/// with `Unauthorized` unless the token was issued to create; joining is refused with
/// `AlreadyInRoom`, and with `Unauthorized` unless the token was issued to join that
/// very room. Either refusal releases the session lock.
pub proof fn law_create_join_admission(ctx: ConnectionContext, session_id: String, s: SessionState, room_id: String)
    ensures
        ({
            let v = spec_continue(ctx, session_id, s, Pending::Create);
            let ok = s.room_id is None && opt_view(ctx.allowed_intent) == Some("create"@);
            &&& s.room_id is Some ==> v.stage == Stage::Finishing(Err(WsHandlerError::AlreadyInRoom))
            &&& s.room_id is None && !ok ==> v.stage == Stage::Finishing(Err(WsHandlerError::Unauthorized))
            &&& !ok ==> releases(v.action, session_id)
            &&& ok ==> v.stage matches Stage::CreateRoomId { .. }
        }),
        ({
            let v = spec_continue(ctx, session_id, s, Pending::Join { room_id });
            let ok = s.room_id is None && opt_view(ctx.allowed_intent) == Some("join"@)
                && opt_view(ctx.allowed_room_id) == Some(room_id@);
            &&& s.room_id is Some ==> v.stage == Stage::Finishing(Err(WsHandlerError::AlreadyInRoom))
            &&& s.room_id is None && !ok ==> v.stage == Stage::Finishing(Err(WsHandlerError::Unauthorized))
            &&& !ok ==> releases(v.action, session_id)
            &&& ok ==> (v.stage matches Stage::JoinRoute { room_id: r, .. } && r == room_id)
        }),
{
}

/// A join goes ahead only on a route owned by this node, in state `active`, with an SFU;
/// a route owned elsewhere or not active is refused with `InvalidRoomAssignment`, one
/// without an SFU with `SfuUnavailable`, and the refusal releases the session lock.
pub proof fn law_join_route_checks(ctx: ConnectionContext, session_id: String, nickname: String, room_id: String, route: RoomRoute, host: Seq<char>, port: u16)
    ensures
        ({
            let v = spec_step(ctx, Stage::JoinRoute { session_id, nickname, room_id }, Reply::Route(Ok(route)), host, port);
            let local = route.owner_host@ == host && route.owner_port == port;
            &&& (!local || route.room_state@ != "active"@) ==> v.stage == Stage::Finishing(Err(WsHandlerError::InvalidRoomAssignment))
                && releases(v.action, session_id)
            &&& (local && route.room_state@ == "active"@ && route.sfu_grpc_addr is None) ==> v.stage
                == Stage::Finishing(Err(WsHandlerError::SfuUnavailable)) && releases(v.action, session_id)
            &&& (local && route.room_state@ == "active"@ && route.sfu_grpc_addr is Some) ==> v.action
                == ActionView::Perform(seq![Op::JoinRoom { room_id, nickname }])
        }),
{
}

/// A room created but not joined is closed again; one joined but refused by the SFU
/// loses its member and is closed; a join refused by the SFU loses its member. Each
/// rollback releases the session lock and ends with the mapped error.
pub proof fn law_rollbacks(ctx: ConnectionContext, session_id: String, nickname: String, room_id: String, sfu_addr: String,
    participants: Vec<String>, store_err: RedisRoomError, sfu_err: SfuClientError, host: Seq<char>, port: u16)
    ensures
        spec_step(ctx, Stage::CreateJoin { session_id, nickname, room_id, sfu_addr }, Reply::Members(Err(store_err)), host, port).action
            == ActionView::Perform(seq![Op::CloseBinding { room_id }, Op::ReleaseLock { session_id }]),
        spec_step(ctx, Stage::CreatePeer { session_id, nickname, room_id, sfu_addr }, Reply::Sfu(Err(sfu_err)), host, port).action
            == ActionView::Perform(seq![Op::RemoveMember { room_id, nickname }, Op::CloseBinding { room_id },
                Op::ReleaseLock { session_id }]),
        spec_step(ctx, Stage::JoinPeer { session_id, nickname, room_id, sfu_addr, participants }, Reply::Sfu(Err(sfu_err)), host, port).action
            == ActionView::Perform(seq![Op::RemoveMember { room_id, nickname }, Op::ReleaseLock { session_id }]),
        spec_step(ctx, Stage::JoinPeer { session_id, nickname, room_id, sfu_addr, participants }, Reply::Sfu(Err(sfu_err)), host, port).stage
            == Stage::Finishing(Err(if sfu_err is Rejected { WsHandlerError::SfuRejected } else { WsHandlerError::SfuUnavailable })),
{
    assert(seq![Op::CloseBinding { room_id }].push(Op::ReleaseLock { session_id })
        =~= seq![Op::CloseBinding { room_id }, Op::ReleaseLock { session_id }]);
    assert(seq![Op::RemoveMember { room_id, nickname }, Op::CloseBinding { room_id }].push(Op::ReleaseLock { session_id })
        =~= seq![Op::RemoveMember { room_id, nickname }, Op::CloseBinding { room_id }, Op::ReleaseLock { session_id }]);
    assert(seq![Op::RemoveMember { room_id, nickname }].push(Op::ReleaseLock { session_id })
        =~= seq![Op::RemoveMember { room_id, nickname }, Op::ReleaseLock { session_id }]);
}

/// A logout with the store up stops counting the connection in the node's load when
/// it was counted, and otherwise goes straight to releasing the nickname lease.
pub proof fn law_logout_load(ctx: ConnectionContext, session_id: String, nickname: String, host: Seq<char>, port: u16)
    ensures
        ({
            let v = spec_step(ctx, Stage::LogoutStore { session_id, nickname }, Reply::Available(true), host, port);
            if ctx.instance_load_registered {
                v.action == ActionView::Perform(seq![Op::DecrementLoad])
            } else {
                v.action == ActionView::Perform(seq![Op::ReleaseNick { nickname, session_id }])
            }
        }),
        spec_step(ctx, Stage::LogoutLoad { session_id, nickname }, Reply::Stored(Ok(())), host, port).ctx.instance_load_registered == false,
        spec_step(ctx, Stage::LogoutNick { session_id, nickname }, Reply::Stored(Ok(())), host, port).action
            == ActionView::Perform(seq![Op::DeleteSession { session_id }]),
{
}

/// How far closing a connection has got.
#[derive(Debug, PartialEq, Eq)]
pub enum CleanupStage {
    Start,
    Store { session_id: String },
    Cached { session_id: String },
    Stored { session_id: String },
    Closing,
}

/// The reply kind each closing stage waits for.
pub open spec fn cleanup_fits(stage: CleanupStage, reply: Reply) -> bool {
    match stage {
        CleanupStage::Start => reply is Start,
        CleanupStage::Store { .. } => reply is Available,
        CleanupStage::Cached { .. } | CleanupStage::Stored { .. } => reply is Session,
        CleanupStage::Closing => reply is Done,
    }
}

/// What closing takes once the session `s` is known: it leaves its room (telling the
/// room), stops counting in the node's load if it did, releases the nickname lease,
/// deletes the session and drops it from the registry; failures are only logged.
pub open spec fn close_session_ops(ctx: ConnectionContext, session_id: String, s: SessionState) -> Seq<Op> {
    let leave = match s.room_id {
        Some(room_id) => seq![Op::AnnounceLeave { room_id, nickname: s.nickname, reason: LeaveReason::SignalingDisconnected }],
        None => Seq::empty(),
    };
    let load = if ctx.instance_load_registered { seq![Op::DecrementLoad] } else { Seq::empty() };
    leave + load + seq![
        Op::ReleaseNick { nickname: s.nickname, session_id },
        Op::DeleteSession { session_id },
        Op::ForgetSession { session_id },
    ]
}

/// One step of closing a connection: the lease renewer is stopped; an unbound
/// connection is done; with the store down the session is only dropped from the
/// registry; else the session is looked up in the registry, then in the store, and
/// closed when found, or dropped from the registry when not.
pub open spec fn spec_cleanup_step(ctx: ConnectionContext, stage: CleanupStage, reply: Reply) -> (ConnectionContext, CleanupStage, ActionView) {
    match (stage, reply) {
        (CleanupStage::Start, _) => {
            let stop = if ctx.lease_renewer_running { seq![Op::StopRenewer] } else { Seq::empty() };
            let next = ConnectionContext { lease_renewer_running: false, ..ctx };
            match ctx.session_id {
                None => if stop.len() == 0 {
                    (next, CleanupStage::Closing, ActionView::Finish(Ok(())))
                } else {
                    (next, CleanupStage::Closing, ActionView::Perform(stop))
                },
                Some(session_id) => (next, CleanupStage::Store { session_id }, ActionView::Perform(stop.push(Op::CheckStore))),
            }
        },
        (CleanupStage::Store { session_id }, Reply::Available(up)) => if !up {
            (ctx, CleanupStage::Closing, ActionView::Perform(seq![Op::ForgetSession { session_id }]))
        } else {
            (ctx, CleanupStage::Cached { session_id }, ActionView::Perform(seq![Op::LookupCachedSession { session_id }]))
        },
        (CleanupStage::Cached { session_id }, Reply::Session(Ok(Some(s)))) =>
            (ctx, CleanupStage::Closing, ActionView::Perform(close_session_ops(ctx, session_id, s))),
        (CleanupStage::Cached { session_id }, _) =>
            (ctx, CleanupStage::Stored { session_id }, ActionView::Perform(seq![Op::GetSession { session_id }])),
        (CleanupStage::Stored { session_id }, Reply::Session(Ok(Some(s)))) =>
            (ctx, CleanupStage::Closing, ActionView::Perform(close_session_ops(ctx, session_id, s))),
        (CleanupStage::Stored { session_id }, _) =>
            (ctx, CleanupStage::Closing, ActionView::Perform(seq![Op::ForgetSession { session_id }])),
        (stage, _) => (ctx, stage, ActionView::Finish(Ok(()))),
    }
}

fn close_ops(ctx: &ConnectionContext, session_id: String, s: SessionState) -> (r: Vec<Op>)
    ensures
        r@ == close_session_ops(*ctx, session_id, s),
{
    let mut ops: Vec<Op> = Vec::new();
    match &s.room_id {
        Some(room_id) => ops.push(Op::AnnounceLeave {
            room_id: room_id.clone(),
            nickname: s.nickname.clone(),
            reason: LeaveReason::SignalingDisconnected,
        }),
        None => {},
    }
    if ctx.instance_load_registered {
        ops.push(Op::DecrementLoad);
    }
    ops.push(Op::ReleaseNick { nickname: s.nickname, session_id: session_id.clone() });
    ops.push(Op::DeleteSession { session_id: session_id.clone() });
    ops.push(Op::ForgetSession { session_id });
    proof {
        let leave = match s.room_id {
            Some(room_id) => seq![Op::AnnounceLeave { room_id, nickname: s.nickname, reason: LeaveReason::SignalingDisconnected }],
            None => Seq::<Op>::empty(),
        };
        let load = if ctx.instance_load_registered { seq![Op::DecrementLoad] } else { Seq::<Op>::empty() };
        assert(ops@ =~= leave + load + seq![
            Op::ReleaseNick { nickname: s.nickname, session_id },
            Op::DeleteSession { session_id },
            Op::ForgetSession { session_id },
        ]);
    }
    ops
}

/// One step of closing a connection whose socket ended: exactly `spec_cleanup_step`.
pub fn cleanup_step(ctx: ConnectionContext, stage: CleanupStage, reply: Reply) -> (r: (ConnectionContext, CleanupStage, HandlerAction))
    requires
        cleanup_fits(stage, reply),
    ensures
        r.0 == spec_cleanup_step(ctx, stage, reply).0,
        r.1 == spec_cleanup_step(ctx, stage, reply).1,
        action_view(r.2) == spec_cleanup_step(ctx, stage, reply).2,
{
    match (stage, reply) {
        (CleanupStage::Start, _) => {
            let running = ctx.lease_renewer_running;
            let bound = copy_opt(&ctx.session_id);
            let next = ConnectionContext { lease_renewer_running: false, ..ctx };
            let mut ops: Vec<Op> = Vec::new();
            if running {
                ops.push(Op::StopRenewer);
            }
            match bound {
                None => if ops.len() == 0 {
                    (next, CleanupStage::Closing, HandlerAction::Finish(Ok(())))
                } else {
                    (next, CleanupStage::Closing, HandlerAction::Perform(ops))
                },
                Some(session_id) => {
                    ops.push(Op::CheckStore);
                    (next, CleanupStage::Store { session_id }, HandlerAction::Perform(ops))
                },
            }
        },
        (CleanupStage::Store { session_id }, Reply::Available(up)) => if !up {
            (ctx, CleanupStage::Closing, HandlerAction::Perform(ops1(Op::ForgetSession { session_id })))
        } else {
            let op = Op::LookupCachedSession { session_id: session_id.clone() };
            (ctx, CleanupStage::Cached { session_id }, HandlerAction::Perform(ops1(op)))
        },
        (CleanupStage::Cached { session_id }, Reply::Session(Ok(Some(s)))) => {
            let ops = close_ops(&ctx, session_id, s);
            (ctx, CleanupStage::Closing, HandlerAction::Perform(ops))
        },
        (CleanupStage::Cached { session_id }, _) => {
            let op = Op::GetSession { session_id: session_id.clone() };
            (ctx, CleanupStage::Stored { session_id }, HandlerAction::Perform(ops1(op)))
        },
        (CleanupStage::Stored { session_id }, Reply::Session(Ok(Some(s)))) => {
            let ops = close_ops(&ctx, session_id, s);
            (ctx, CleanupStage::Closing, HandlerAction::Perform(ops))
        },
        (CleanupStage::Stored { session_id }, _) =>
            (ctx, CleanupStage::Closing, HandlerAction::Perform(ops1(Op::ForgetSession { session_id }))),
        (stage, _) => (ctx, stage, HandlerAction::Finish(Ok(()))),
    }
}


/// What the connection's read loop got.
#[derive(Debug, PartialEq, Eq)]
pub enum InboundFrame {
    /// Nothing arrived within the read timeout.
    TimedOut,
    /// The client closed the socket, or the stream ended.
    Closed,
    /// Reading failed.
    ReadError,
    /// A pong, binary or other non-text frame.
    Other,
    /// A text frame that is not a client message.
    Malformed,
    /// A client message that fails validation, with the reason.
    Invalid(String),
    /// A valid client message.
    Message(WsClientMessage),
}

/// What the connection does next.
#[derive(Debug, PartialEq, Eq)]
pub enum ConnectionAction {
    /// End the connection (and run its cleanup).
    Close,
    /// Keep reading.
    Continue,
    /// Send the client this error, then keep reading (end the connection if the send fails).
    ReplyError { code: ServerErrorCode, message: String },
    /// Handle the message with `client_message_step`.
    Handle(WsClientMessage),
}

/// The read loop's answer to a frame: a timeout, a close, an end of stream or a read
/// error end the connection; non-text frames are ignored; text that is not a client
/// message is answered `InvalidJson` / `Malformed JSON`, and an invalid message
/// `InvalidPayload` with its reason; a valid message is handled.
pub fn inbound_action(frame: InboundFrame) -> (r: ConnectionAction)
    ensures
        (frame is TimedOut || frame is Closed || frame is ReadError) ==> r == ConnectionAction::Close,
        frame is Other ==> r == ConnectionAction::Continue,
        frame is Malformed ==> (r matches ConnectionAction::ReplyError { code, message }
            && code == ServerErrorCode::InvalidJson && message@ == "Malformed JSON"@),
        frame matches InboundFrame::Invalid(reason) ==> r == (ConnectionAction::ReplyError {
            code: ServerErrorCode::InvalidPayload, message: reason,
        }),
        frame matches InboundFrame::Message(m) ==> r == ConnectionAction::Handle(m),
{
    match frame {
        InboundFrame::TimedOut | InboundFrame::Closed | InboundFrame::ReadError => ConnectionAction::Close,
        InboundFrame::Other => ConnectionAction::Continue,
        InboundFrame::Malformed => ConnectionAction::ReplyError {
            code: ServerErrorCode::InvalidJson,
            message: String::from_str("Malformed JSON"),
        },
        InboundFrame::Invalid(reason) => ConnectionAction::ReplyError { code: ServerErrorCode::InvalidPayload, message: reason },
        InboundFrame::Message(m) => ConnectionAction::Handle(m),
    }
}

/// The read loop's answer to a handled message's outcome: a failed write ends the
/// connection; another failure is reported with its code and message; success keeps
/// reading.
pub fn after_handling(result: Result<(), WsHandlerError>) -> (r: ConnectionAction)
    ensures
        result is Ok ==> r == ConnectionAction::Continue,
        result == Err::<(), WsHandlerError>(WsHandlerError::WriteFailed) ==> r == ConnectionAction::Close,
        result is Err && result->Err_0 != WsHandlerError::WriteFailed ==> (r matches ConnectionAction::ReplyError { code, message }
            && code == spec_error_code(result->Err_0) && message@ == spec_error_message(result->Err_0)),
{
    match result {
        Ok(()) => ConnectionAction::Continue,
        Err(WsHandlerError::WriteFailed) => ConnectionAction::Close,
        Err(e) => {
            let (code, message) = map_error(&e);
            ConnectionAction::ReplyError { code, message: String::from_str(message) }
        },
    }
}

/// A write to the client (a ping, a reply or a queued message) that failed ends the
/// connection, as does a closed outbound queue.
pub fn after_write(sent: bool) -> (r: ConnectionAction)
    ensures
        r == (if sent { ConnectionAction::Continue } else { ConnectionAction::Close }),
{
    if sent { ConnectionAction::Continue } else { ConnectionAction::Close }
}

/// A fresh room id for `NewRoomId`, or a fresh owner for a session lock: a random
/// version 4 UUID in its hyphenated lower-case text.
pub fn new_room_id() -> (r: String)
    ensures
        is_v4_text(r@),
{
    fresh_uuid_text()
}

/// Closing a connection with the store down only drops its session from the registry;
/// with the session found, it leaves the session's room (telling the room the member
/// disconnected) when it is in one, stops counting the connection when it was counted,
/// releases the nickname lease, deletes the session and drops it from the registry.
pub proof fn law_cleanup_closes_session(ctx: ConnectionContext, session_id: String, s: SessionState)
    ensures
        spec_cleanup_step(ctx, CleanupStage::Store { session_id }, Reply::Available(false)).2
            == ActionView::Perform(seq![Op::ForgetSession { session_id }]),
        ({
            let v = spec_cleanup_step(ctx, CleanupStage::Stored { session_id }, Reply::Session(Ok(Some(s))));
            v.2 matches ActionView::Perform(ops) && {
                let n = ops.len();
                &&& n >= 3
                &&& ops[n - 3] == Op::ReleaseNick { nickname: s.nickname, session_id }
                &&& ops[n - 2] == Op::DeleteSession { session_id }
                &&& ops[n - 1] == Op::ForgetSession { session_id }
                &&& (exists|i: int| 0 <= i < n && ops[i] == Op::DecrementLoad) <==> ctx.instance_load_registered
                &&& match s.room_id {
                    Some(room_id) => ops[0] == (Op::AnnounceLeave { room_id, nickname: s.nickname, reason: LeaveReason::SignalingDisconnected }),
                    None => forall|i: int| 0 <= i < n ==> !(ops[i] is AnnounceLeave),
                }
            }
        }),
{
    let v = spec_cleanup_step(ctx, CleanupStage::Stored { session_id }, Reply::Session(Ok(Some(s))));
    let ops = close_session_ops(ctx, session_id, s);
    if ctx.instance_load_registered {
        let k = if s.room_id is Some { 1int } else { 0int };
        assert(ops[k] == Op::DecrementLoad);
    }
}

} // verus!
