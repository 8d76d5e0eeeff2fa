//! Claims of the token that admits a client to a signaling node.

use vstd::prelude::*;
use jsonwebtoken::{encode, Algorithm, EncodingKey, Header};
use serde_json::Value;

verus! {

/// What the token states: who, on which node, for what, and when it expires.
#[derive(Debug, Clone, PartialEq, Eq)]
pub struct ConnectorClaims {
    pub session_id: String,
    pub nickname: String,
    pub signaling_instance_id: String,
    pub intent: String,
    pub room_id: Option<String>,
    pub iat: u64,
    pub exp: u64,
}

/// The claims of a token issued at `iat` (seconds since the epoch) that lives
/// `ttl_secs` seconds.
pub fn token_claims(
    session_id: String,
    nickname: String,
    signaling_instance_id: String,
    intent: String,
    room_id: Option<String>,
    iat: u64,
    ttl_secs: u64,
) -> (r: ConnectorClaims)
    requires
        iat + ttl_secs <= u64::MAX,
    ensures
        r.session_id == session_id,
        r.nickname == nickname,
        r.signaling_instance_id == signaling_instance_id,
        r.intent == intent,
        r.room_id == room_id,
        r.iat == iat,
        r.exp == iat + ttl_secs,
{
    ConnectorClaims { session_id, nickname, signaling_instance_id, intent, room_id, iat, exp: iat + ttl_secs }
}

#[verifier::external_type_specification]
#[verifier::external_body]
pub struct ExJwtError(jsonwebtoken::errors::Error);

/// The HS256 JSON Web Token that `jsonwebtoken::encode` makes with `secret` over the
/// claims object `{session_id, nickname, signaling_instance_id, intent, room_id, iat,
/// exp}`, its fields in that order and an absent room as `null`.
pub uninterp spec fn hs256_token(
    secret: Seq<char>,
    session_id: Seq<char>,
    nickname: Seq<char>,
    signaling_instance_id: Seq<char>,
    intent: Seq<char>,
    room_id: Option<Seq<char>>,
    iat: u64,
    exp: u64,
) -> Seq<char>;

/// The room of a claims value, as text.
pub open spec fn room_view(room_id: Option<String>) -> Option<Seq<char>> {
    match room_id {
        Some(r) => Some(r@),
        None => None,
    }
}

/// `jsonwebtoken::encode` with an HS256 header and the key `secret`'s bytes, over the
/// claims as a JSON object in field order: it succeeds, with the token
/// `hs256_token` of the secret and the claims. Its source fails only when the key's
/// family differs from the header's algorithm (both are HMAC here) or when
/// serialising fails (a header and a JSON object of strings and integers do not), and
/// signs HS256 with HMAC, which cannot fail.
#[verifier::external_body]
fn hs256_encode(secret: &str, claims: &ConnectorClaims) -> (r: Result<String, jsonwebtoken::errors::Error>)
    ensures
        r is Ok,
        r matches Ok(t) ==> t@ == hs256_token(secret@, claims.session_id@, claims.nickname@,
            claims.signaling_instance_id@, claims.intent@, room_view(claims.room_id), claims.iat, claims.exp),
{
    let mut m = serde_json::Map::new();
    m.insert("session_id".into(), claims.session_id.clone().into());
    m.insert("nickname".into(), claims.nickname.clone().into());
    m.insert("signaling_instance_id".into(), claims.signaling_instance_id.clone().into());
    m.insert("intent".into(), claims.intent.clone().into());
    m.insert("room_id".into(), claims.room_id.clone().into());
    m.insert("iat".into(), claims.iat.into());
    m.insert("exp".into(), claims.exp.into());
    encode(&Header::new(Algorithm::HS256), &Value::Object(m), &EncodingKey::from_secret(secret.as_bytes()))
}

/// Why no token was issued.
#[derive(Debug, Clone, PartialEq, Eq)]
pub enum TokenError {
    /// The expiry `iat + ttl` does not fit in 64 bits.
    ExpiryOverflow,
}

/// Signs the claims of a token issued at `iat` that lives `ttl_secs` seconds.
pub fn sign_token(
    secret: &str,
    ttl_secs: u64,
    session_id: String,
    nickname: String,
    signaling_instance_id: String,
    intent: String,
    room_id: Option<String>,
    iat: u64,
) -> (r: String)
    requires
        iat + ttl_secs <= u64::MAX,
    ensures
        r@ == hs256_token(secret@, session_id@, nickname@, signaling_instance_id@, intent@, room_view(room_id),
            iat, (iat + ttl_secs) as u64),
{
    let claims = token_claims(session_id, nickname, signaling_instance_id, intent, room_id, iat, ttl_secs);
    match hs256_encode(secret, &claims) {
        Ok(t) => t,
        Err(_) => String::new(),
    }
}

/// The token issued at `iat` (seconds since the epoch) that lives the whole seconds of
/// `ttl_ms`: `ExpiryOverflow` exactly when the expiry does not fit in 64 bits.
pub fn token_at(
    secret: &str,
    ttl_ms: u64,
    session_id: String,
    nickname: String,
    signaling_instance_id: String,
    intent: String,
    room_id: Option<String>,
    iat: u64,
) -> (r: Result<String, TokenError>)
    ensures
        r is Err <==> iat + ttl_ms / 1000 > u64::MAX,
        r matches Err(e) ==> e == TokenError::ExpiryOverflow,
        r matches Ok(t) ==> t@ == hs256_token(secret@, session_id@, nickname@, signaling_instance_id@, intent@,
            room_view(room_id), iat, (iat + ttl_ms / 1000) as u64),
{
    let ttl_secs = ttl_ms / 1000;
    if iat > u64::MAX - ttl_secs {
        return Err(TokenError::ExpiryOverflow);
    }
    Ok(sign_token(secret, ttl_secs, session_id, nickname, signaling_instance_id, intent, room_id, iat))
}

/// Issues a token valid for the whole seconds of `ttl_ms` from now: `token_at` with
/// the clock's whole seconds since the epoch (zero when it reads before it).
pub fn issue_token(
    secret: &str,
    ttl_ms: u64,
    session_id: String,
    nickname: String,
    signaling_instance_id: String,
    intent: String,
    room_id: Option<String>,
) -> (r: Result<String, TokenError>)
    ensures
        r matches Ok(t) ==> exists|iat: u64| iat + ttl_ms / 1000 <= u64::MAX && t@ == #[trigger] hs256_token(secret@,
            session_id@, nickname@, signaling_instance_id@, intent@, room_view(room_id), iat,
            (iat + ttl_ms / 1000) as u64),
        r matches Err(e) ==> e == TokenError::ExpiryOverflow && ttl_ms / 1000 > 0,
        ttl_ms < 1000 ==> r is Ok,
{
    let now = crate::clock::system_now();
    let iat: u64 = match crate::clock::duration_since_epoch(&now) {
        Ok(d) => crate::clock::whole_seconds(&d),
        Err(_) => 0,
    };
    token_at(secret, ttl_ms, session_id, nickname, signaling_instance_id, intent, room_id, iat)
}

} // verus!
