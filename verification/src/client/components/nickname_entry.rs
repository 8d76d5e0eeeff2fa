//! The nickname screen: what a submit does, and its embedded logo.

use vstd::prelude::*;
use base64::Engine;
use crate::client::nickname::{live_nickname_error, nickname_error, validate_nickname, validate_nickname_live};

verus! {

/// The base64 digit of a six-bit value: `A`-`Z`, `a`-`z`, `0`-`9`, `+`, `/`.
pub open spec fn b64_digit(v: nat) -> char {
    if v < 26 {
        (('A' as nat) + v) as char
    } else if v < 52 {
        (('a' as nat) + (v - 26)) as char
    } else if v < 62 {
        (('0' as nat) + (v - 52)) as char
    } else if v == 62 {
        '+'
    } else {
        '/'
    }
}

/// Standard base64 with `=` padding (RFC 4648): each three bytes become four digits;
/// a final one or two bytes become two or three digits and padding.
pub open spec fn base64_standard(b: Seq<u8>) -> Seq<char>
    decreases b.len(),
{
    if b.len() == 0 {
        Seq::empty()
    } else if b.len() == 1 {
        seq![b64_digit(b[0] as nat / 4), b64_digit((b[0] as nat % 4) * 16), '=', '=']
    } else if b.len() == 2 {
        seq![
            b64_digit(b[0] as nat / 4),
            b64_digit((b[0] as nat % 4) * 16 + b[1] as nat / 16),
            b64_digit((b[1] as nat % 16) * 4),
            '=',
        ]
    } else {
        seq![
            b64_digit(b[0] as nat / 4),
            b64_digit((b[0] as nat % 4) * 16 + b[1] as nat / 16),
            b64_digit((b[1] as nat % 16) * 4 + b[2] as nat / 64),
            b64_digit(b[2] as nat % 64),
        ] + base64_standard(b.skip(3))
    }
}

/// The length of the padded encoding of `n` bytes fits in `usize`.
pub open spec fn encodable_len(n: nat) -> bool {
    (n / 3) * 4 + (if n % 3 == 0 { 0nat } else { 4nat }) <= usize::MAX
}

/// `base64::engine::general_purpose::STANDARD.encode`: standard alphabet, padded.
/// It panics when the encoded length overflows `usize`, which `requires` rules out.
#[verifier::external_body]
fn base64_encode(bytes: &[u8]) -> (r: String)
    requires
        encodable_len(bytes@.len()),
    ensures
        r@ == base64_standard(bytes@),
{
    base64::engine::general_purpose::STANDARD.encode(bytes)
}

/// The `data:` URL under which the screen shows its PNG logo.
pub fn logo_data_url(png: &[u8]) -> (r: String)
    requires
        encodable_len(png@.len()),
    ensures
        r@ == "data:image/png;base64,"@ + base64_standard(png@),
{
    String::from_str("data:image/png;base64,").concat(base64_encode(png).as_str())
}

/// What submitting the nickname form does.
#[derive(Clone, Debug, PartialEq, Eq)]
pub enum NicknameSubmit {
    /// A submit is already running.
    Ignore,
    /// The nickname is refused with this message.
    Invalid(&'static str),
    /// Send the nickname to the connector.
    Submit,
}

/// Submitting the nickname form: ignored while a submit runs; otherwise the nickname is
/// checked and sent when it passes.
pub fn nickname_submit(is_submitting: bool, value: &str) -> (r: NicknameSubmit)
    ensures
        is_submitting ==> r == NicknameSubmit::Ignore,
        !is_submitting && nickname_error(value@) is None ==> r == NicknameSubmit::Submit,
        !is_submitting && nickname_error(value@) is Some ==> (r matches NicknameSubmit::Invalid(m)
            && nickname_error(value@) == Some(m@)),
{
    if is_submitting {
        return NicknameSubmit::Ignore;
    }
    match validate_nickname(value) {
        Ok(()) => NicknameSubmit::Submit,
        Err(m) => NicknameSubmit::Invalid(m),
    }
}

/// The text of an optional message.
pub open spec fn message_view(m: Option<String>) -> Option<Seq<char>> {
    match m {
        Some(t) => Some(t@),
        None => None,
    }
}

/// The nickname form: what is typed, the message shown, whether a submit was tried,
/// and whether one is running.
#[derive(Clone, Debug, PartialEq, Eq)]
pub struct NicknameForm {
    pub nickname: String,
    pub validation_error: Option<String>,
    pub attempted_submit: bool,
    pub is_submitting: bool,
}

impl NicknameForm {
    /// The empty form.
    pub fn new() -> (r: Self)
        ensures
            r.nickname@ == Seq::<char>::empty(),
            r.validation_error is None,
            !r.attempted_submit && !r.is_submitting,
    {
        NicknameForm { nickname: String::new(), validation_error: None, attempted_submit: false, is_submitting: false }
    }

    /// Typing `value`: it becomes the nickname, and the message is the live check's.
    pub fn on_input(&mut self, value: String)
        ensures
            final(self).nickname == value,
            message_view(final(self).validation_error) == live_nickname_error(value@, old(self).attempted_submit),
            final(self).attempted_submit == old(self).attempted_submit,
            final(self).is_submitting == old(self).is_submitting,
    {
        let validation = match validate_nickname_live(value.as_str(), self.attempted_submit) {
            Ok(()) => None,
            Err(m) => Some(String::from_str(m)),
        };
        self.nickname = value;
        self.validation_error = validation;
    }

    /// Submitting the form. While a submit runs nothing changes; otherwise the submit
    /// counts as tried, and a refused nickname shows its message, while one that passes
    /// clears the message, marks the form busy and is returned for the connector.
    pub fn on_submit(&mut self) -> (r: Option<String>)
        ensures
            old(self).is_submitting ==> r is None && *final(self) == *old(self),
            !old(self).is_submitting ==> {
                &&& final(self).attempted_submit
                &&& final(self).nickname == old(self).nickname
                &&& match nickname_error(old(self).nickname@) {
                    Some(m) => r is None && message_view(final(self).validation_error) == Some(m)
                        && !final(self).is_submitting,
                    None => r == Some(old(self).nickname) && final(self).validation_error is None
                        && final(self).is_submitting,
                }
            },
    {
        if self.is_submitting {
            return None;
        }
        self.attempted_submit = true;
        match validate_nickname(self.nickname.as_str()) {
            Ok(()) => {
                self.validation_error = None;
                self.is_submitting = true;
                Some(self.nickname.clone())
            },
            Err(m) => {
                self.validation_error = Some(String::from_str(m));
                None
            },
        }
    }

    /// The connector's answer to a submit: the form is no longer busy; a session id is
    /// returned to be passed on, and a failure's message is shown.
    pub fn on_auth_result(&mut self, result: Result<String, String>) -> (r: Option<String>)
        ensures
            !final(self).is_submitting,
            final(self).nickname == old(self).nickname,
            final(self).attempted_submit == old(self).attempted_submit,
            match result {
                Ok(session_id) => r == Some(session_id) && final(self).validation_error == old(self).validation_error,
                Err(message) => r is None && final(self).validation_error == Some(message),
            },
    {
        self.is_submitting = false;
        match result {
            Ok(session_id) => Some(session_id),
            Err(message) => {
                self.validation_error = Some(message);
                None
            },
        }
    }
}

} // verus!
