//! Key names of the shared store.

use vstd::prelude::*;
use crate::text::concat3;

verus! {

// ── Signaling namespace ──────────────────────────────────────────────────────
pub const SIGNALING_NODES_KEY: &'static str = "signaling:nodes";
pub const SIGNALING_INSTANCE_LOAD_KEY: &'static str = "signaling:instance_load";
pub const SIGNALING_SESSION_PREFIX: &'static str = "signaling:session:";
pub const SIGNALING_NICK_PREFIX: &'static str = "signaling:nick:";
pub const SIGNALING_ROOM_PREFIX: &'static str = "signaling:room:";
pub const SIGNALING_JTI_PREFIX: &'static str = "signaling:jti:";

// ── Room / SFU routing namespace ─────────────────────────────────────────────
pub const ROOM_BINDING_PREFIX: &'static str = "room:";
pub const SFU_INSTANCES_KEY: &'static str = "sfu:instances";
pub const SFU_ROOM_LOAD_KEY: &'static str = "sfu:room_load";

// ── Supervisor namespace ─────────────────────────────────────────────────────
pub const SUPERVISOR_HEARTBEAT_KEY: &'static str = "supervisor:heartbeat";

/// Suffix of a session lock key.
pub const LOCK_SUFFIX: &'static str = ":lock";
/// Suffix of a room member-set key.
pub const MEMBERS_SUFFIX: &'static str = ":members";
/// Suffix of a room binding key.
pub const BINDING_SUFFIX: &'static str = ":binding";

pub open spec fn spec_session_key(session_id: Seq<char>) -> Seq<char> {
    SIGNALING_SESSION_PREFIX@ + session_id
}

pub open spec fn spec_session_lock_key(session_id: Seq<char>) -> Seq<char> {
    SIGNALING_SESSION_PREFIX@ + session_id + LOCK_SUFFIX@
}

pub open spec fn spec_nick_key(nickname: Seq<char>) -> Seq<char> {
    SIGNALING_NICK_PREFIX@ + nickname
}

pub open spec fn spec_room_members_key(room_id: Seq<char>) -> Seq<char> {
    SIGNALING_ROOM_PREFIX@ + room_id + MEMBERS_SUFFIX@
}

pub open spec fn spec_room_binding_key(room_id: Seq<char>) -> Seq<char> {
    ROOM_BINDING_PREFIX@ + room_id + BINDING_SUFFIX@
}

pub fn session_key(session_id: &str) -> (r: String)
    ensures
        r@ == spec_session_key(session_id@),
{
    let r = concat3(SIGNALING_SESSION_PREFIX, session_id, "");
    proof {
        reveal_strlit("");
        assert(r@ =~= spec_session_key(session_id@));
    }
    r
}

pub fn session_lock_key(session_id: &str) -> (r: String)
    ensures
        r@ == spec_session_lock_key(session_id@),
{
    concat3(SIGNALING_SESSION_PREFIX, session_id, LOCK_SUFFIX)
}

pub fn nick_key(nickname: &str) -> (r: String)
    ensures
        r@ == spec_nick_key(nickname@),
{
    let r = concat3(SIGNALING_NICK_PREFIX, nickname, "");
    proof {
        reveal_strlit("");
        assert(r@ =~= spec_nick_key(nickname@));
    }
    r
}

pub fn room_members_key(room_id: &str) -> (r: String)
    ensures
        r@ == spec_room_members_key(room_id@),
{
    concat3(SIGNALING_ROOM_PREFIX, room_id, MEMBERS_SUFFIX)
}

pub fn room_binding_key(room_id: &str) -> (r: String)
    ensures
        r@ == spec_room_binding_key(room_id@),
{
    concat3(ROOM_BINDING_PREFIX, room_id, BINDING_SUFFIX)
}

proof fn lemma_prefix_cancel(p: Seq<char>, a: Seq<char>, b: Seq<char>, s: Seq<char>)
    requires
        p + a + s == p + b + s,
    ensures
        a == b,
{
    let x = p + a + s;
    let y = p + b + s;
    assert(x.len() == y.len());
    assert forall|i: int| 0 <= i < a.len() implies a[i] == b[i] by {
        assert(x[p.len() + i] == y[p.len() + i]);
    }
    assert(a =~= b);
}

/// Distinct sessions, nicknames and rooms never share a key: every key builder is
/// injective.
pub proof fn lemma_keys_injective(a: Seq<char>, b: Seq<char>)
    ensures
        spec_session_key(a) == spec_session_key(b) ==> a == b,
        spec_session_lock_key(a) == spec_session_lock_key(b) ==> a == b,
        spec_nick_key(a) == spec_nick_key(b) ==> a == b,
        spec_room_members_key(a) == spec_room_members_key(b) ==> a == b,
        spec_room_binding_key(a) == spec_room_binding_key(b) ==> a == b,
{
    let e = Seq::<char>::empty();
    if spec_session_key(a) == spec_session_key(b) {
        assert(SIGNALING_SESSION_PREFIX@ + a + e =~= spec_session_key(a));
        assert(SIGNALING_SESSION_PREFIX@ + b + e =~= spec_session_key(b));
        lemma_prefix_cancel(SIGNALING_SESSION_PREFIX@, a, b, e);
    }
    if spec_session_lock_key(a) == spec_session_lock_key(b) {
        lemma_prefix_cancel(SIGNALING_SESSION_PREFIX@, a, b, LOCK_SUFFIX@);
    }
    if spec_nick_key(a) == spec_nick_key(b) {
        assert(SIGNALING_NICK_PREFIX@ + a + e =~= spec_nick_key(a));
        assert(SIGNALING_NICK_PREFIX@ + b + e =~= spec_nick_key(b));
        lemma_prefix_cancel(SIGNALING_NICK_PREFIX@, a, b, e);
    }
    if spec_room_members_key(a) == spec_room_members_key(b) {
        lemma_prefix_cancel(SIGNALING_ROOM_PREFIX@, a, b, MEMBERS_SUFFIX@);
    }
    if spec_room_binding_key(a) == spec_room_binding_key(b) {
        lemma_prefix_cancel(ROOM_BINDING_PREFIX@, a, b, BINDING_SUFFIX@);
    }
}

} // verus!
