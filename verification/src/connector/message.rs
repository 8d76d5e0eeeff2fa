//! Request and response bodies of the connector API, and request validation.

use vstd::prelude::*;
use crate::text::{is_alnum, trim, trimmed, chars_of, char_is_alnum};
use crate::uuid_text::{is_uuid_text, uuid_parse_str};

verus! {

#[derive(Debug, Clone, PartialEq, Eq)]
pub struct AuthRequest {
    pub nickname: String,
}

#[derive(Debug, Clone, PartialEq, Eq)]
pub struct AuthResponse {
    pub nickname: String,
    pub session_id: String,
}

#[derive(Debug, Clone, PartialEq, Eq)]
pub struct CreateRequest {
    pub session_id: String,
}

#[derive(Debug, Clone, PartialEq, Eq)]
pub struct JoinRequest {
    pub session_id: String,
    pub room_id: String,
}

#[derive(Debug, Clone, PartialEq, Eq)]
pub struct LogoutRequest {
    pub session_id: String,
}

#[derive(Debug, Clone, PartialEq, Eq)]
pub struct SessionRenewRequest {
    pub session_id: String,
}

#[derive(Debug, Clone, PartialEq, Eq)]
pub struct SignalingReadyResponse {
    pub signaling_url: String,
    pub session_id: String,
    pub token: String,
}

#[derive(Debug, Clone, PartialEq, Eq)]
pub struct ErrorResponse {
    pub code: ServerErrorCode,
    pub message: String,
}

/// Error codes of the connector API.
#[derive(Debug, Clone, Copy, PartialEq, Eq)]
pub enum ServerErrorCode {
    InvalidPayload,
    Unauthorized,
    NicknameTaken,
    RoomNotFound,
    StorageUnavailable,
    NoHealthySignaling,
    UnknownSignalingRoute,
    TokenIssueFailed,
}

impl ServerErrorCode {
    /// The code's wire name.
    pub fn as_str(&self) -> (r: &'static str)
        ensures
            r@ == match *self {
                ServerErrorCode::InvalidPayload => "invalid_payload"@,
                ServerErrorCode::Unauthorized => "unauthorized"@,
                ServerErrorCode::NicknameTaken => "nickname_taken"@,
                ServerErrorCode::RoomNotFound => "room_not_found"@,
                ServerErrorCode::StorageUnavailable => "storage_unavailable"@,
                ServerErrorCode::NoHealthySignaling => "no_healthy_signaling"@,
                ServerErrorCode::UnknownSignalingRoute => "unknown_signaling_route"@,
                ServerErrorCode::TokenIssueFailed => "token_issue_failed"@,
            },
    {
        match self {
            ServerErrorCode::InvalidPayload => "invalid_payload",
            ServerErrorCode::Unauthorized => "unauthorized",
            ServerErrorCode::NicknameTaken => "nickname_taken",
            ServerErrorCode::RoomNotFound => "room_not_found",
            ServerErrorCode::StorageUnavailable => "storage_unavailable",
            ServerErrorCode::NoHealthySignaling => "no_healthy_signaling",
            ServerErrorCode::UnknownSignalingRoute => "unknown_signaling_route",
            ServerErrorCode::TokenIssueFailed => "token_issue_failed",
        }
    }
}

/// A request that fails validation.
#[derive(Debug, Clone, Copy, PartialEq, Eq)]
pub enum ValidationError {
    InvalidNickname,
    InvalidSessionId,
    InvalidRoomId,
}

impl ValidationError {
    /// The message of the error.
    pub fn message(&self) -> (r: &'static str)
        ensures
            r@ == match *self {
                ValidationError::InvalidNickname => "nickname must be 3..32 characters and contain only letters, digits, '_' or '-'"@,
                ValidationError::InvalidSessionId => "session_id must be a valid UUID"@,
                ValidationError::InvalidRoomId => "room_id must be a valid UUID"@,
            },
    {
        match self {
            ValidationError::InvalidNickname => "nickname must be 3..32 characters and contain only letters, digits, '_' or '-'",
            ValidationError::InvalidSessionId => "session_id must be a valid UUID",
            ValidationError::InvalidRoomId => "room_id must be a valid UUID",
        }
    }
}

/// A character allowed in a nickname: an ASCII letter or digit, `_` or `-`.
pub open spec fn is_nickname_char(c: char) -> bool {
    is_alnum(c) || c == '_' || c == '-'
}

/// A nickname the connector accepts: once trimmed, 3 to 32 characters, each an ASCII
/// letter or digit, `_` or `-`.
pub open spec fn nickname_ok(nickname: Seq<char>) -> bool {
    let t = trim(nickname);
    &&& 3 <= t.len() <= 32
    &&& forall|i: int| 0 <= i < t.len() ==> #[trigger] is_nickname_char(t[i])
}

pub fn validate_nickname(nickname: &str) -> (r: Result<(), ValidationError>)
    ensures
        r is Ok <==> nickname_ok(nickname@),
        r matches Err(e) ==> e == ValidationError::InvalidNickname,
{
    let t = trimmed(nickname);
    let v = chars_of(t.as_str());
    if v.len() < 3 || v.len() > 32 {
        return Err(ValidationError::InvalidNickname);
    }
    let mut i: usize = 0;
    while i < v.len()
        invariant
            v@ == trim(nickname@),
            i <= v@.len(),
            forall|k: int| 0 <= k < i ==> #[trigger] is_nickname_char(v@[k]),
        decreases v.len() - i,
    {
        let c = v[i];
        if !(char_is_alnum(c) || c == '_' || c == '-') {
            assert(!is_nickname_char(trim(nickname@)[i as int]));
            return Err(ValidationError::InvalidNickname);
        }
        i = i + 1;
    }
    Ok(())
}

pub fn validate_room_id(room_id: &str) -> (r: Result<(), ValidationError>)
    ensures
        r is Ok <==> is_uuid_text(room_id@),
        r matches Err(e) ==> e == ValidationError::InvalidRoomId,
{
    match uuid_parse_str(room_id) {
        Ok(_) => Ok(()),
        Err(_) => Err(ValidationError::InvalidRoomId),
    }
}

pub fn validate_session_id(session_id: &str) -> (r: Result<(), ValidationError>)
    ensures
        r is Ok <==> is_uuid_text(session_id@),
        r matches Err(e) ==> e == ValidationError::InvalidSessionId,
{
    match uuid_parse_str(session_id) {
        Ok(_) => Ok(()),
        Err(_) => Err(ValidationError::InvalidSessionId),
    }
}

impl AuthRequest {
    pub fn validate(&self) -> (r: Result<(), ValidationError>)
        ensures
            r is Ok <==> nickname_ok(self.nickname@),
            r matches Err(e) ==> e == ValidationError::InvalidNickname,
    {
        validate_nickname(self.nickname.as_str())
    }
}

impl CreateRequest {
    pub fn validate(&self) -> (r: Result<(), ValidationError>)
        ensures
            r is Ok <==> is_uuid_text(self.session_id@),
            r matches Err(e) ==> e == ValidationError::InvalidSessionId,
    {
        validate_session_id(self.session_id.as_str())
    }
}

impl JoinRequest {
    pub fn validate(&self) -> (r: Result<(), ValidationError>)
        ensures
            r is Ok <==> is_uuid_text(self.session_id@) && is_uuid_text(self.room_id@),
            r matches Err(e) ==> if !is_uuid_text(self.session_id@) {
                e == ValidationError::InvalidSessionId
            } else {
                e == ValidationError::InvalidRoomId
            },
    {
        validate_session_id(self.session_id.as_str())?;
        validate_room_id(self.room_id.as_str())
    }
}

impl LogoutRequest {
    pub fn validate(&self) -> (r: Result<(), ValidationError>)
        ensures
            r is Ok <==> is_uuid_text(self.session_id@),
            r matches Err(e) ==> e == ValidationError::InvalidSessionId,
    {
        validate_session_id(self.session_id.as_str())
    }
}

impl SessionRenewRequest {
    pub fn validate(&self) -> (r: Result<(), ValidationError>)
        ensures
            r is Ok <==> is_uuid_text(self.session_id@),
            r matches Err(e) ==> e == ValidationError::InvalidSessionId,
    {
        validate_session_id(self.session_id.as_str())
    }
}

} // verus!
