//! The login protocol: from credentials to a stored session and its token.
//!
//! The caller looks the user up by name, hands the answer to `authenticate`,
//! writes the granted session to the cache and hands that answer to
//! `conclude_login`. A token reaches the caller only after the cache has
//! confirmed the write.

use vstd::prelude::*;
use crate::hasher::{password_matches, verify_password};
use crate::models::{User, UserView};
use crate::rejection::{status_of, Operation, Rejection};
use crate::replies::{StoreReply, UserReply, UserReplyView};
use crate::token::{
    is_session_token, mint_session_token, session_key, session_key_of, SESSION_TTL_SECONDS,
};

verus! {

/// What a caller presents to log in. The password is plaintext and lives
/// only as long as the login call.
#[derive(PartialEq, Eq)]
pub struct Credentials {
    pub username: String,
    pub password: String,
}

/// A session that was granted but is not stored yet.
#[derive(Debug, PartialEq, Eq)]
pub struct SessionGrant {
    pub token: String,
    pub user_id: i32,
}

/// The write that makes a granted session valid.
#[derive(Debug, PartialEq, Eq)]
pub struct SessionWrite {
    pub key: String,
    pub user_id: i32,
    pub ttl_seconds: u64,
}

/// The answer to a login request.
#[derive(Debug, PartialEq, Eq)]
pub enum LoginResponse {
    /// Status 200 with the bearer token.
    Token { token: String },
    /// A refusal: its status and a message that names no cause.
    Failure { status: u16, message: &'static str },
}

/// A `LoginResponse` as contracts see it.
pub enum LoginResponseView {
    Token { token: Seq<char> },
    Failure { status: u16, message: Seq<char> },
}

impl View for LoginResponse {
    type V = LoginResponseView;

    open spec fn view(&self) -> LoginResponseView {
        match self {
            LoginResponse::Token { token } => LoginResponseView::Token { token: token@ },
            LoginResponse::Failure { status, message } => LoginResponseView::Failure {
                status: *status,
                message: message@,
            },
        }
    }
}

/// The decision on the directory's answer, given whether the hasher accepted
/// the password for the user it found. An unknown name and a wrong password
/// are refused alike.
pub open spec fn credential_verdict(reply: UserReplyView, accepted: bool) -> Result<
    i32,
    Rejection,
> {
    match reply {
        UserReplyView::Found(user) => if accepted {
            Ok(user.id)
        } else {
            Err(Rejection::NotAuthenticated)
        },
        UserReplyView::NotFound => Err(Rejection::NotAuthenticated),
        UserReplyView::Unavailable => Err(
            Rejection::Infrastructure(Operation::FindUserByUsername),
        ),
    }
}

/// Whether the directory found a user whose stored hash accepts `password`.
pub open spec fn password_accepted(reply: UserReplyView, password: Seq<char>) -> bool {
    reply matches UserReplyView::Found(user) && password_matches(password, user.password)
}

/// The outcome of a login once the cache has answered the write: the token
/// if it was stored, a server-side failure if not.
pub open spec fn login_conclusion(token: Seq<char>, reply: StoreReply) -> Result<
    Seq<char>,
    Rejection,
> {
    match reply {
        StoreReply::Stored => Ok(token),
        StoreReply::Unavailable => Err(Rejection::Infrastructure(Operation::SessionPut)),
    }
}

/// The response that reports a login's outcome.
pub open spec fn login_response_of(outcome: Result<Seq<char>, Rejection>) -> LoginResponseView {
    match outcome {
        Ok(token) => LoginResponseView::Token { token },
        Err(reason) => LoginResponseView::Failure {
            status: status_of(reason),
            message: if reason is Infrastructure {
                "Something went wrong"@
            } else {
                "Wrong credentials"@
            },
        },
    }
}

/// Decides on the directory's answer, given the hasher's verdict.
pub fn verdict_on(reply: &UserReply, accepted: bool) -> (verdict: Result<i32, Rejection>)
    ensures
        verdict == credential_verdict(reply@, accepted),
{
    match reply {
        UserReply::Found(user) => if accepted {
            Ok(user.id)
        } else {
            Err(Rejection::NotAuthenticated)
        },
        UserReply::NotFound => Err(Rejection::NotAuthenticated),
        UserReply::Unavailable => Err(Rejection::Infrastructure(Operation::FindUserByUsername)),
    }
}

/// Checks the password of `credentials` against the stored hash of `user`
/// and, if it is accepted, mints a session token for the user.
pub fn authorize_user(user: &User, credentials: &Credentials) -> (token: Result<String, Rejection>)
    ensures
        token is Ok <==> password_matches(credentials.password@, user.password@),
        token matches Ok(t) ==> is_session_token(t@),
        token matches Err(reason) ==> reason == Rejection::NotAuthenticated,
{
    if verify_password(credentials.password.as_str(), user.password.as_str()) {
        Ok(mint_session_token())
    } else {
        Err(Rejection::NotAuthenticated)
    }
}

/// First half of a login: decides on the directory's answer to the lookup of
/// `credentials.username` and grants a session to the user it found if the
/// password is accepted.
pub fn authenticate(reply: &UserReply, credentials: &Credentials) -> (grant: Result<
    SessionGrant,
    Rejection,
>)
    ensures
        match credential_verdict(reply@, password_accepted(reply@, credentials.password@)) {
            Ok(user_id) => grant matches Ok(g) && g.user_id == user_id && is_session_token(
                g.token@,
            ),
            Err(reason) => grant matches Err(r) && r == reason,
        },
{
    let accepted = match reply {
        UserReply::Found(user) => verify_password(
            credentials.password.as_str(),
            user.password.as_str(),
        ),
        _ => false,
    };
    match verdict_on(reply, accepted) {
        Ok(user_id) => Ok(SessionGrant { token: mint_session_token(), user_id }),
        Err(reason) => Err(reason),
    }
}

impl SessionGrant {
    /// The cache write that makes this grant valid: the token's key, the
    /// user's id and the fixed time to live.
    pub fn write(&self) -> (write: SessionWrite)
        ensures
            write.key@ == session_key_of(self.token@),
            write.user_id == self.user_id,
            write.ttl_seconds == SESSION_TTL_SECONDS,
    {
        SessionWrite {
            key: session_key(self.token.as_str()),
            user_id: self.user_id,
            ttl_seconds: SESSION_TTL_SECONDS,
        }
    }
}

/// Second half of a login: hands the token out if the cache stored the
/// session. If the write failed the token is dropped and the login fails.
pub fn conclude_login(grant: SessionGrant, reply: StoreReply) -> (outcome: Result<
    String,
    Rejection,
>)
    ensures
        match login_conclusion(grant.token@, reply) {
            Ok(token) => outcome matches Ok(t) && t@ == token,
            Err(reason) => outcome matches Err(r) && r == reason,
        },
{
    match reply {
        StoreReply::Stored => Ok(grant.token),
        StoreReply::Unavailable => Err(Rejection::Infrastructure(Operation::SessionPut)),
    }
}

/// The response that reports a login's outcome.
pub fn login_response(outcome: Result<String, Rejection>) -> (response: LoginResponse)
    ensures
        response@ == login_response_of(
            match outcome {
                Ok(token) => Ok(token@),
                Err(reason) => Err(reason),
            },
        ),
{
    match outcome {
        Ok(token) => LoginResponse::Token { token },
        Err(reason) => {
            let message = match reason {
                Rejection::Infrastructure(_) => "Something went wrong",
                _ => "Wrong credentials",
            };
            LoginResponse::Failure { status: reason.status(), message }
        },
    }
}

impl LoginResponse {
    /// The HTTP status of this response.
    pub fn status(&self) -> (status: u16)
        ensures
            status == match self@ {
                LoginResponseView::Token { .. } => crate::rejection::STATUS_OK,
                LoginResponseView::Failure { status, .. } => status,
            },
    {
        match self {
            LoginResponse::Token { .. } => crate::rejection::STATUS_OK,
            LoginResponse::Failure { status, .. } => *status,
        }
    }
}

/// A known name with a refused password and an unknown name get the same
/// verdict, whatever the hasher would have said of the unknown name, and the
/// response to that verdict carries status 401 and a message that names no
/// cause.
pub proof fn lemma_login_failures_look_alike(user: UserView, accepted: bool)
    ensures
        credential_verdict(UserReplyView::Found(user), false) == credential_verdict(
            UserReplyView::NotFound,
            accepted,
        ),
        login_response_of(Err(Rejection::NotAuthenticated)) == (LoginResponseView::Failure {
            status: crate::rejection::STATUS_UNAUTHORIZED,
            message: "Wrong credentials"@,
        }),
{
}

} // verus!
