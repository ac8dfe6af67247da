//! The per-request state machine: from the `Authorization` header to an
//! identity and, where the route asks for one, to an access decision.
//!
//! ```text
//! Unauthenticated -> TokenChecked -> SessionFound -> UserResolved -> Authorized
//! ```
//!
//! The caller performs what `pending` asks for and reports the answer with
//! `advance`. Every failed step ends in `Rejected`, which nothing leaves.
//! The identity is resolved once: a role check starts from `UserResolved`
//! and asks the cache and the directory for nothing it already has.

use vstd::prelude::*;
use crate::bearer::{bearer_token, bearer_token_of};
use crate::guard::has_access;
use crate::models::{User, UserView};
use crate::rejection::{status_of, Operation, Rejection};
use crate::replies::{
    RolesReply, RolesReplyView, SessionReply, UserReply, UserReplyView,
};
use crate::roles::{grants, Capability};
use crate::token::{session_key, session_key_of};

verus! {

/// Where a request stands.
#[derive(Debug, PartialEq, Eq)]
pub enum RequestState {
    /// Nothing is known of the caller yet.
    Unauthenticated,
    /// The header is well formed and presents this token.
    TokenChecked { token: String },
    /// The token's session is live and belongs to this user id.
    SessionFound { user_id: i32 },
    /// The directory holds the user: the caller is authenticated.
    UserResolved { user: User },
    /// The user holds a role that meets `capability`.
    Authorized { user: User, capability: Capability },
    /// The request is refused.
    Rejected { reason: Rejection },
}

/// A `RequestState` as contracts see it.
pub enum RequestStateView {
    Unauthenticated,
    TokenChecked { token: Seq<char> },
    SessionFound { user_id: i32 },
    UserResolved { user: UserView },
    Authorized { user: UserView, capability: Capability },
    Rejected { reason: Rejection },
}

impl View for RequestState {
    type V = RequestStateView;

    open spec fn view(&self) -> RequestStateView {
        match self {
            RequestState::Unauthenticated => RequestStateView::Unauthenticated,
            RequestState::TokenChecked { token } => RequestStateView::TokenChecked {
                token: token@,
            },
            RequestState::SessionFound { user_id } => RequestStateView::SessionFound {
                user_id: *user_id,
            },
            RequestState::UserResolved { user } => RequestStateView::UserResolved { user: user@ },
            RequestState::Authorized { user, capability } => RequestStateView::Authorized {
                user: user@,
                capability: *capability,
            },
            RequestState::Rejected { reason } => RequestStateView::Rejected { reason: *reason },
        }
    }
}

/// What the caller reports to the machine.
#[derive(Debug, PartialEq, Eq)]
pub enum RequestEvent {
    /// The raw value of the `Authorization` header, if the request has one.
    Header(Option<String>),
    /// The cache's answer to the read of the token's key.
    Session(SessionReply),
    /// The directory's answer to the lookup of the session's user.
    User(UserReply),
    /// The directory's answer to the lookup of the user's roles.
    Roles(RolesReply),
}

/// A `RequestEvent` as contracts see it.
pub enum RequestEventView {
    Header(Option<Seq<char>>),
    Session(SessionReply),
    User(UserReplyView),
    Roles(RolesReplyView),
}

impl View for RequestEvent {
    type V = RequestEventView;

    open spec fn view(&self) -> RequestEventView {
        match self {
            RequestEvent::Header(header) => RequestEventView::Header(
                match header {
                    Some(value) => Some(value@),
                    None => None,
                },
            ),
            RequestEvent::Session(reply) => RequestEventView::Session(*reply),
            RequestEvent::User(reply) => RequestEventView::User(reply@),
            RequestEvent::Roles(reply) => RequestEventView::Roles(reply@),
        }
    }
}

/// What the caller has to do next.
#[derive(Debug, PartialEq, Eq)]
pub enum RequestAction {
    /// Report the `Authorization` header.
    ReadHeader,
    /// Read this key from the session cache.
    GetSession { key: String },
    /// Look this user up in the directory.
    FindUser { id: i32 },
    /// Look up the roles of this user in the directory.
    FetchRoles { user_id: i32 },
    /// Let the request through.
    Serve,
    /// Answer the request with this status.
    Refuse { status: u16 },
}

/// A `RequestAction` as contracts see it.
pub enum RequestActionView {
    ReadHeader,
    GetSession { key: Seq<char> },
    FindUser { id: i32 },
    FetchRoles { user_id: i32 },
    Serve,
    Refuse { status: u16 },
}

impl View for RequestAction {
    type V = RequestActionView;

    open spec fn view(&self) -> RequestActionView {
        match self {
            RequestAction::ReadHeader => RequestActionView::ReadHeader,
            RequestAction::GetSession { key } => RequestActionView::GetSession { key: key@ },
            RequestAction::FindUser { id } => RequestActionView::FindUser { id: *id },
            RequestAction::FetchRoles { user_id } => RequestActionView::FetchRoles {
                user_id: *user_id,
            },
            RequestAction::Serve => RequestActionView::Serve,
            RequestAction::Refuse { status } => RequestActionView::Refuse { status: *status },
        }
    }
}

/// The state after `event`, for a route that requires `required`.
///
/// Each state takes the one event that answers its pending action; any
/// other event leaves it as it is.
pub open spec fn next_state(
    state: RequestStateView,
    event: RequestEventView,
    required: Option<Capability>,
) -> RequestStateView {
    match (state, event) {
        (RequestStateView::Unauthenticated, RequestEventView::Header(header)) => match header {
            None => RequestStateView::Rejected { reason: Rejection::NotAuthenticated },
            Some(value) => match bearer_token_of(value) {
                Some(token) => RequestStateView::TokenChecked { token },
                None => RequestStateView::Rejected { reason: Rejection::Validation },
            },
        },
        (RequestStateView::TokenChecked { .. }, RequestEventView::Session(reply)) => match reply {
            SessionReply::Hit(user_id) => RequestStateView::SessionFound { user_id },
            SessionReply::Miss => RequestStateView::Rejected {
                reason: Rejection::NotAuthenticated,
            },
            SessionReply::Unavailable => RequestStateView::Rejected {
                reason: Rejection::Infrastructure(Operation::SessionGet),
            },
        },
        (RequestStateView::SessionFound { .. }, RequestEventView::User(reply)) => match reply {
            UserReplyView::Found(user) => RequestStateView::UserResolved { user },
            UserReplyView::NotFound => RequestStateView::Rejected {
                reason: Rejection::NotAuthenticated,
            },
            UserReplyView::Unavailable => RequestStateView::Rejected {
                reason: Rejection::Infrastructure(Operation::FindUserById),
            },
        },
        (RequestStateView::UserResolved { user }, RequestEventView::Roles(reply)) => match required {
            Some(capability) => if reply matches RolesReplyView::Found(held) && grants(
                capability,
                held,
            ) {
                RequestStateView::Authorized { user, capability }
            } else {
                RequestStateView::Rejected { reason: Rejection::NotAuthorized }
            },
            None => state,
        },
        _ => state,
    }
}

/// What is to be done in `state`, for a route that requires `required`.
pub open spec fn pending_action(
    state: RequestStateView,
    required: Option<Capability>,
) -> RequestActionView {
    match state {
        RequestStateView::Unauthenticated => RequestActionView::ReadHeader,
        RequestStateView::TokenChecked { token } => RequestActionView::GetSession {
            key: session_key_of(token),
        },
        RequestStateView::SessionFound { user_id } => RequestActionView::FindUser { id: user_id },
        RequestStateView::UserResolved { user } => if required is Some {
            RequestActionView::FetchRoles { user_id: user.id }
        } else {
            RequestActionView::Serve
        },
        RequestStateView::Authorized { .. } => RequestActionView::Serve,
        RequestStateView::Rejected { reason } => RequestActionView::Refuse {
            status: status_of(reason),
        },
    }
}

/// The identity that a state has established, if it has.
pub open spec fn identity_of(state: RequestStateView) -> Option<UserView> {
    match state {
        RequestStateView::UserResolved { user } => Some(user),
        RequestStateView::Authorized { user, .. } => Some(user),
        _ => None,
    }
}

impl RequestState {
    /// The state of a request of which nothing is known yet.
    pub fn new() -> (state: RequestState)
        ensures
            state@ == RequestStateView::Unauthenticated,
    {
        RequestState::Unauthenticated
    }

    /// Takes one step on the caller's report.
    pub fn advance(self, event: RequestEvent, required: Option<Capability>) -> (next: RequestState)
        ensures
            next@ == next_state(self@, event@, required),
    {
        match (self, event) {
            (RequestState::Unauthenticated, RequestEvent::Header(header)) => match header {
                None => RequestState::Rejected { reason: Rejection::NotAuthenticated },
                Some(value) => match bearer_token(value.as_str()) {
                    Some(token) => RequestState::TokenChecked { token },
                    None => RequestState::Rejected { reason: Rejection::Validation },
                },
            },
            (RequestState::TokenChecked { .. }, RequestEvent::Session(reply)) => match reply {
                SessionReply::Hit(user_id) => RequestState::SessionFound { user_id },
                SessionReply::Miss => RequestState::Rejected {
                    reason: Rejection::NotAuthenticated,
                },
                SessionReply::Unavailable => RequestState::Rejected {
                    reason: Rejection::Infrastructure(Operation::SessionGet),
                },
            },
            (RequestState::SessionFound { .. }, RequestEvent::User(reply)) => match reply {
                UserReply::Found(user) => RequestState::UserResolved { user },
                UserReply::NotFound => RequestState::Rejected {
                    reason: Rejection::NotAuthenticated,
                },
                UserReply::Unavailable => RequestState::Rejected {
                    reason: Rejection::Infrastructure(Operation::FindUserById),
                },
            },
            (RequestState::UserResolved { user }, RequestEvent::Roles(reply)) => match required {
                Some(capability) => {
                    let granted = match &reply {
                        RolesReply::Found(roles) => has_access(roles, &capability),
                        RolesReply::Unavailable => false,
                    };
                    if granted {
                        RequestState::Authorized { user, capability }
                    } else {
                        RequestState::Rejected { reason: Rejection::NotAuthorized }
                    }
                },
                None => RequestState::UserResolved { user },
            },
            (state, _) => state,
        }
    }

    /// What the caller has to do next.
    pub fn pending(&self, required: Option<Capability>) -> (action: RequestAction)
        ensures
            action@ == pending_action(self@, required),
    {
        match self {
            RequestState::Unauthenticated => RequestAction::ReadHeader,
            RequestState::TokenChecked { token } => RequestAction::GetSession {
                key: session_key(token.as_str()),
            },
            RequestState::SessionFound { user_id } => RequestAction::FindUser { id: *user_id },
            RequestState::UserResolved { user } => match required {
                Some(_) => RequestAction::FetchRoles { user_id: user.id },
                None => RequestAction::Serve,
            },
            RequestState::Authorized { .. } => RequestAction::Serve,
            RequestState::Rejected { reason } => RequestAction::Refuse { status: reason.status() },
        }
    }

    /// Hands out the identity that the request has established, if it has.
    pub fn into_user(self) -> (user: Option<User>)
        ensures
            match user {
                Some(u) => identity_of(self@) == Some(u@),
                None => identity_of(self@) is None,
            },
    {
        match self {
            RequestState::UserResolved { user } => Some(user),
            RequestState::Authorized { user, .. } => Some(user),
            _ => None,
        }
    }
}

} // verus!
