//! Joining and leaving a room's member set as state machines over the store's
//! commands: from the stage reached and the reply to the last command, the next stage
//! and action. A join needs the room's binding and a free nickname, adds the member
//! and answers the other members; a leave needs the binding and the member, and
//! deletes the member set once it is empty.

use vstd::prelude::*;
use crate::text::strings_view;
use super::redis::{join_room_check, leave_outcome, leave_room_check, other_participants, others, LeaveRoomResult, RedisRoomError};

verus! {

/// A store command on a room.
#[derive(Debug, PartialEq, Eq)]
pub enum MemberOp {
    /// Does the room's binding exist? `Flag`.
    BindingExists { room_id: String },
    /// Is the nickname a member? `Flag`.
    IsMember { room_id: String, nickname: String },
    /// Add a member. `Count` (how many were added).
    AddMember { room_id: String, nickname: String },
    /// The members. `Names`.
    Members { room_id: String },
    /// Remove a member. `Count` (how many were removed).
    RemoveMember { room_id: String, nickname: String },
    /// How many members remain. `Count`.
    CountMembers { room_id: String },
    /// Delete the member set. `Stored`.
    DeleteMembers { room_id: String },
}

/// The reply to the last command; `Start` begins.
#[derive(Debug, PartialEq, Eq)]
pub enum MemberReply {
    Start,
    Flag(Result<bool, RedisRoomError>),
    Count(Result<u64, RedisRoomError>),
    Names(Result<Vec<String>, RedisRoomError>),
    Stored(Result<(), RedisRoomError>),
}

/// How far a join has got.
#[derive(Debug, PartialEq, Eq)]
pub enum JoinStage {
    Start { room_id: String, nickname: String },
    Binding { room_id: String, nickname: String },
    Member { room_id: String, nickname: String },
    Added { room_id: String, nickname: String },
    Listed { nickname: String },
    Done,
}

/// What a join does next: a command, or its outcome (the other members).
#[derive(Debug, PartialEq, Eq)]
pub enum JoinAction {
    Perform(MemberOp),
    Finish(Result<Vec<String>, RedisRoomError>),
}

/// The reply kind each join stage waits for.
pub open spec fn join_fits(stage: JoinStage, reply: MemberReply) -> bool {
    match stage {
        JoinStage::Start { .. } => reply is Start,
        JoinStage::Binding { .. } | JoinStage::Member { .. } => reply is Flag,
        JoinStage::Added { .. } => reply is Count,
        JoinStage::Listed { .. } => reply is Names,
        JoinStage::Done => false,
    }
}

/// One step of joining `nickname` to a room: the binding must exist
/// (`RoomNotFound`), the nickname must not be a member (`NicknameTaken`); then it is
/// added and the members but itself are the outcome. A failed command ends the join
/// with its error.
pub fn join_room_step(stage: JoinStage, reply: MemberReply) -> (r: (JoinStage, JoinAction))
    requires
        join_fits(stage, reply),
    ensures
        stage matches JoinStage::Start { room_id, nickname } ==> r == (JoinStage::Binding { room_id, nickname },
            JoinAction::Perform(MemberOp::BindingExists { room_id })),
        stage matches JoinStage::Binding { room_id, nickname } ==> match reply {
            MemberReply::Flag(Err(e)) => r == (JoinStage::Done, JoinAction::Finish(Err(e))),
            MemberReply::Flag(Ok(false)) => r == (JoinStage::Done, JoinAction::Finish(Err(RedisRoomError::RoomNotFound))),
            _ => r == (JoinStage::Member { room_id, nickname }, JoinAction::Perform(MemberOp::IsMember { room_id, nickname })),
        },
        stage matches JoinStage::Member { room_id, nickname } ==> match reply {
            MemberReply::Flag(Err(e)) => r == (JoinStage::Done, JoinAction::Finish(Err(e))),
            MemberReply::Flag(Ok(true)) => r == (JoinStage::Done, JoinAction::Finish(Err(RedisRoomError::NicknameTaken))),
            _ => r == (JoinStage::Added { room_id, nickname }, JoinAction::Perform(MemberOp::AddMember { room_id, nickname })),
        },
        stage matches JoinStage::Added { room_id, nickname } ==> match reply {
            MemberReply::Count(Err(e)) => r == (JoinStage::Done, JoinAction::Finish(Err(e))),
            _ => r == (JoinStage::Listed { nickname }, JoinAction::Perform(MemberOp::Members { room_id })),
        },
        stage matches JoinStage::Listed { nickname } ==> match reply {
            MemberReply::Names(Err(e)) => r == (JoinStage::Done, JoinAction::Finish(Err(e))),
            MemberReply::Names(Ok(members)) => r.0 == JoinStage::Done && (r.1 matches JoinAction::Finish(Ok(v))
                && strings_view(v@) == others(strings_view(members@), nickname@)),
            _ => false,
        },
{
    match (stage, reply) {
        (JoinStage::Start { room_id, nickname }, _) => {
            let op = MemberOp::BindingExists { room_id: room_id.clone() };
            (JoinStage::Binding { room_id, nickname }, JoinAction::Perform(op))
        },
        (JoinStage::Binding { room_id, nickname }, MemberReply::Flag(Err(e))) => (JoinStage::Done, JoinAction::Finish(Err(e))),
        (JoinStage::Binding { room_id, nickname }, MemberReply::Flag(Ok(exists))) => match join_room_check(exists, false) {
            Err(e) => (JoinStage::Done, JoinAction::Finish(Err(e))),
            Ok(()) => {
                let op = MemberOp::IsMember { room_id: room_id.clone(), nickname: nickname.clone() };
                (JoinStage::Member { room_id, nickname }, JoinAction::Perform(op))
            },
        },
        (JoinStage::Member { room_id, nickname }, MemberReply::Flag(Err(e))) => (JoinStage::Done, JoinAction::Finish(Err(e))),
        (JoinStage::Member { room_id, nickname }, MemberReply::Flag(Ok(taken))) => match join_room_check(true, taken) {
            Err(e) => (JoinStage::Done, JoinAction::Finish(Err(e))),
            Ok(()) => {
                let op = MemberOp::AddMember { room_id: room_id.clone(), nickname: nickname.clone() };
                (JoinStage::Added { room_id, nickname }, JoinAction::Perform(op))
            },
        },
        (JoinStage::Added { room_id, nickname }, MemberReply::Count(Err(e))) => (JoinStage::Done, JoinAction::Finish(Err(e))),
        (JoinStage::Added { room_id, nickname }, _) => {
            let op = MemberOp::Members { room_id };
            (JoinStage::Listed { nickname }, JoinAction::Perform(op))
        },
        (JoinStage::Listed { nickname }, MemberReply::Names(Err(e))) => (JoinStage::Done, JoinAction::Finish(Err(e))),
        (JoinStage::Listed { nickname }, MemberReply::Names(Ok(members))) => {
            let v = other_participants(members, nickname.as_str());
            (JoinStage::Done, JoinAction::Finish(Ok(v)))
        },
        (stage, _) => (JoinStage::Done, JoinAction::Finish(Err(RedisRoomError::Timeout))),
    }
}

/// How far a leave has got.
#[derive(Debug, PartialEq, Eq)]
pub enum LeaveStage {
    Start { room_id: String, nickname: String },
    Binding { room_id: String, nickname: String },
    Removed { room_id: String },
    Counted { room_id: String },
    Deleted,
    Done,
}

/// What a leave does next: a command, or its outcome.
#[derive(Debug, PartialEq, Eq)]
pub enum LeaveAction {
    Perform(MemberOp),
    Finish(Result<LeaveRoomResult, RedisRoomError>),
}

/// The reply kind each leave stage waits for.
pub open spec fn leave_fits(stage: LeaveStage, reply: MemberReply) -> bool {
    match stage {
        LeaveStage::Start { .. } => reply is Start,
        LeaveStage::Binding { .. } => reply is Flag,
        LeaveStage::Removed { .. } | LeaveStage::Counted { .. } => reply is Count,
        LeaveStage::Deleted => reply is Stored,
        LeaveStage::Done => false,
    }
}

/// One step of removing `nickname` from a room: the binding must exist
/// (`RoomNotFound`) and the member must have been there (`ParticipantNotInRoom`);
/// when no member remains the member set is deleted and the room reported empty. A
/// failed command ends the leave with its error.
pub fn leave_room_step(stage: LeaveStage, reply: MemberReply) -> (r: (LeaveStage, LeaveAction))
    requires
        leave_fits(stage, reply),
    ensures
        stage matches LeaveStage::Start { room_id, nickname } ==> r == (LeaveStage::Binding { room_id, nickname },
            LeaveAction::Perform(MemberOp::BindingExists { room_id })),
        stage matches LeaveStage::Binding { room_id, nickname } ==> match reply {
            MemberReply::Flag(Err(e)) => r == (LeaveStage::Done, LeaveAction::Finish(Err(e))),
            MemberReply::Flag(Ok(false)) => r == (LeaveStage::Done, LeaveAction::Finish(Err(RedisRoomError::RoomNotFound))),
            _ => r == (LeaveStage::Removed { room_id }, LeaveAction::Perform(MemberOp::RemoveMember { room_id, nickname })),
        },
        stage matches LeaveStage::Removed { room_id } ==> match reply {
            MemberReply::Count(Err(e)) => r == (LeaveStage::Done, LeaveAction::Finish(Err(e))),
            MemberReply::Count(Ok(0)) => r == (LeaveStage::Done, LeaveAction::Finish(Err(RedisRoomError::ParticipantNotInRoom))),
            _ => r == (LeaveStage::Counted { room_id }, LeaveAction::Perform(MemberOp::CountMembers { room_id })),
        },
        stage matches LeaveStage::Counted { room_id } ==> match reply {
            MemberReply::Count(Err(e)) => r == (LeaveStage::Done, LeaveAction::Finish(Err(e))),
            MemberReply::Count(Ok(0)) => r == (LeaveStage::Deleted, LeaveAction::Perform(MemberOp::DeleteMembers { room_id })),
            _ => r == (LeaveStage::Done, LeaveAction::Finish(Ok(LeaveRoomResult { room_empty: false }))),
        },
        stage is Deleted ==> match reply {
            MemberReply::Stored(Err(e)) => r == (LeaveStage::Done, LeaveAction::Finish(Err(e))),
            _ => r == (LeaveStage::Done, LeaveAction::Finish(Ok(LeaveRoomResult { room_empty: true }))),
        },
{
    match (stage, reply) {
        (LeaveStage::Start { room_id, nickname }, _) => {
            let op = MemberOp::BindingExists { room_id: room_id.clone() };
            (LeaveStage::Binding { room_id, nickname }, LeaveAction::Perform(op))
        },
        (LeaveStage::Binding { room_id, nickname }, MemberReply::Flag(Err(e))) => (LeaveStage::Done, LeaveAction::Finish(Err(e))),
        (LeaveStage::Binding { room_id, nickname }, MemberReply::Flag(Ok(exists))) => match leave_room_check(exists) {
            Err(e) => (LeaveStage::Done, LeaveAction::Finish(Err(e))),
            Ok(()) => {
                let op = MemberOp::RemoveMember { room_id: room_id.clone(), nickname };
                (LeaveStage::Removed { room_id }, LeaveAction::Perform(op))
            },
        },
        (LeaveStage::Removed { room_id }, MemberReply::Count(Err(e))) => (LeaveStage::Done, LeaveAction::Finish(Err(e))),
        (LeaveStage::Removed { room_id }, MemberReply::Count(Ok(removed))) => match leave_outcome(removed, 1) {
            Err(e) => (LeaveStage::Done, LeaveAction::Finish(Err(e))),
            Ok(_) => {
                let op = MemberOp::CountMembers { room_id: room_id.clone() };
                (LeaveStage::Counted { room_id }, LeaveAction::Perform(op))
            },
        },
        (LeaveStage::Counted { room_id }, MemberReply::Count(Err(e))) => (LeaveStage::Done, LeaveAction::Finish(Err(e))),
        (LeaveStage::Counted { room_id }, MemberReply::Count(Ok(remaining))) => match leave_outcome(1, remaining) {
            Ok(o) => if o.room_empty {
                (LeaveStage::Deleted, LeaveAction::Perform(MemberOp::DeleteMembers { room_id }))
            } else {
                (LeaveStage::Done, LeaveAction::Finish(Ok(o)))
            },
            Err(e) => (LeaveStage::Done, LeaveAction::Finish(Err(e))),
        },
        (LeaveStage::Deleted, MemberReply::Stored(Err(e))) => (LeaveStage::Done, LeaveAction::Finish(Err(e))),
        (LeaveStage::Deleted, _) => (LeaveStage::Done, LeaveAction::Finish(Ok(LeaveRoomResult { room_empty: true }))),
        (stage, _) => (LeaveStage::Done, LeaveAction::Finish(Err(RedisRoomError::Timeout))),
    }
}

} // verus!
