//! Session tokens: how they are minted and under which key they are cached.

use vstd::prelude::*;
use vstd::string::StringExecFns;
use rand::distributions::{Alphanumeric, DistString};

verus! {

/// Number of characters in a session token.
pub const SESSION_TOKEN_LENGTH: usize = 128;

/// Seconds for which a stored session stays valid: three hours.
pub const SESSION_TTL_SECONDS: u64 = 10800;

/// An ASCII letter or digit.
pub open spec fn is_alphanumeric(c: char) -> bool {
    let n = c as u32;
    (0x30 <= n <= 0x39) || (0x41 <= n <= 0x5a) || (0x61 <= n <= 0x7a)
}

/// The shape of every session token: 128 ASCII letters and digits.
pub open spec fn is_session_token(token: Seq<char>) -> bool {
    &&& token.len() == SESSION_TOKEN_LENGTH
    &&& forall|i: int| 0 <= i < token.len() ==> is_alphanumeric(#[trigger] token[i])
}

/// The cache key of a token.
pub open spec fn session_key_of(token: Seq<char>) -> Seq<char> {
    "sessions/"@ + token
}

/// Calls `Alphanumeric.sample_string` on `rand::thread_rng()`. Which string
/// comes back is chance; the claim is what holds of each: it has `len`
/// characters, all of them ASCII letters or digits.
#[verifier::external_body]
fn random_alphanumeric(len: usize) -> (text: String)
    ensures
        text@.len() == len,
        forall|i: int| 0 <= i < text@.len() ==> is_alphanumeric(#[trigger] text@[i]),
{
    Alphanumeric.sample_string(&mut rand::thread_rng(), len)
}

/// Draws a new session token.
pub fn mint_session_token() -> (token: String)
    ensures
        is_session_token(token@),
{
    random_alphanumeric(SESSION_TOKEN_LENGTH)
}

/// The key under which the session of `token` is cached.
pub fn session_key(token: &str) -> (key: String)
    ensures
        key@ == session_key_of(token@),
{
    String::from_str("sessions/").concat(token)
}

} // verus!
