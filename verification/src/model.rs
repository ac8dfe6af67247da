//! A model of the directory and the session cache, and what the protocol
//! guarantees when the two behave as the model says.
//!
//! The model exists in proofs only. It fixes what is expected of the outside
//! services: the directory returns the user stored under an id or a name,
//! the cache returns an entry until its time to live has passed and forgets
//! it afterwards. The laws below are proved of the decisions of `login` and
//! `request` taken on the model's answers.

use vstd::prelude::*;
use crate::bearer::{bearer_token_of, lemma_bearer_header_presents_token};
use crate::login::{
    credential_verdict, login_conclusion, login_response_of, password_accepted,
    LoginResponseView,
};
use crate::models::UserView;
use crate::rejection::{Rejection, STATUS_UNAUTHORIZED};
use crate::replies::{RolesReplyView, SessionReply, StoreReply, UserReplyView};
use crate::request::{
    identity_of, next_state, pending_action, RequestActionView, RequestEventView,
    RequestStateView,
};
use crate::roles::{grants, lemma_editor_or_above, Capability, RoleCode};
use crate::text::{is_solid, is_whitespace};
use crate::token::{is_alphanumeric, is_session_token, session_key_of, SESSION_TTL_SECONDS};

verus! {

/// One entry of the session cache: whose session it is and the moment from
/// which the cache no longer returns it.
pub struct SessionEntry {
    pub user_id: i32,
    pub expires_at: int,
}

/// The directory and the session cache at one moment.
pub struct World {
    /// The users of the directory, by id.
    pub users: Map<i32, UserView>,
    /// The role codes assigned to each user id.
    pub roles: Map<i32, Seq<RoleCode>>,
    /// The entries of the session cache, by key.
    pub sessions: Map<Seq<char>, SessionEntry>,
    /// The cache's clock, in seconds.
    pub now: int,
}

impl World {
    /// Ids and user names are unique: each user is stored under its own id
    /// and no two users share a name.
    pub open spec fn well_formed(self) -> bool {
        &&& forall|id: i32| self.users.contains_key(id) ==> (#[trigger] self.users[id]).id == id
        &&& forall|a: i32, b: i32|
            self.users.contains_key(a) && self.users.contains_key(b) && (
            #[trigger] self.users[a]).username == (#[trigger] self.users[b]).username ==> a == b
    }

    /// The cache's answer to a read of `key`.
    pub open spec fn session_reply(self, key: Seq<char>) -> SessionReply {
        if self.sessions.contains_key(key) && self.now < self.sessions[key].expires_at {
            SessionReply::Hit(self.sessions[key].user_id)
        } else {
            SessionReply::Miss
        }
    }

    /// The directory's answer to a lookup by id.
    pub open spec fn user_by_id(self, id: i32) -> UserReplyView {
        if self.users.contains_key(id) {
            UserReplyView::Found(self.users[id])
        } else {
            UserReplyView::NotFound
        }
    }

    /// Whether the directory holds a user of this name.
    pub open spec fn knows(self, username: Seq<char>) -> bool {
        exists|id: i32| self.users.contains_key(id) && (#[trigger] self.users[id]).username
            == username
    }

    /// The directory's answer to a lookup by name.
    pub open spec fn user_by_name(self, username: Seq<char>) -> UserReplyView {
        if self.knows(username) {
            UserReplyView::Found(
                self.users[choose|id: i32|
                    self.users.contains_key(id) && (#[trigger] self.users[id]).username
                        == username],
            )
        } else {
            UserReplyView::NotFound
        }
    }

    /// The directory's answer to a lookup of a user's roles.
    pub open spec fn roles_reply(self, user_id: i32) -> RolesReplyView {
        RolesReplyView::Found(
            if self.roles.contains_key(user_id) {
                self.roles[user_id]
            } else {
                Seq::empty()
            },
        )
    }

    /// The world after the cache stored `key` for `user_id` with a time to
    /// live of `ttl_seconds`.
    pub open spec fn store_session(self, key: Seq<char>, user_id: i32, ttl_seconds: int) -> World {
        World {
            sessions: self.sessions.insert(
                key,
                SessionEntry { user_id, expires_at: self.now + ttl_seconds },
            ),
            ..self
        }
    }

    /// The world after the cache dropped `key`.
    pub open spec fn evict(self, key: Seq<char>) -> World {
        World { sessions: self.sessions.remove(key), ..self }
    }

    /// The world after the directory deleted a user and its role
    /// assignments. The cache is not touched: sessions are not revoked.
    pub open spec fn delete_user(self, id: i32) -> World {
        World { users: self.users.remove(id), roles: self.roles.remove(id), ..self }
    }

    /// The world after the directory stored a new user with its roles.
    pub open spec fn add_user(self, user: UserView, codes: Seq<RoleCode>) -> World {
        World {
            users: self.users.insert(user.id, user),
            roles: self.roles.insert(user.id, codes),
            ..self
        }
    }

    /// The world `seconds` later.
    pub open spec fn later(self, seconds: int) -> World {
        World { now: self.now + seconds, ..self }
    }

    /// The report with which a faithful caller answers `action`; none for
    /// the two actions that end a request.
    pub open spec fn answer(self, action: RequestActionView, header: Option<Seq<char>>) -> Option<
        RequestEventView,
    > {
        match action {
            RequestActionView::ReadHeader => Some(RequestEventView::Header(header)),
            RequestActionView::GetSession { key } => Some(
                RequestEventView::Session(self.session_reply(key)),
            ),
            RequestActionView::FindUser { id } => Some(RequestEventView::User(self.user_by_id(id))),
            RequestActionView::FetchRoles { user_id } => Some(
                RequestEventView::Roles(self.roles_reply(user_id)),
            ),
            RequestActionView::Serve => None,
            RequestActionView::Refuse { .. } => None,
        }
    }

    /// One round of the caller's loop: do what is pending, report the answer.
    pub open spec fn step(
        self,
        state: RequestStateView,
        header: Option<Seq<char>>,
        required: Option<Capability>,
    ) -> RequestStateView {
        match self.answer(pending_action(state, required), header) {
            Some(event) => next_state(state, event, required),
            None => state,
        }
    }

    /// The state in which a request with this header ends on a route that
    /// requires `required`. Four rounds cover the longest path: header,
    /// session, user, roles.
    pub open spec fn serve(
        self,
        header: Option<Seq<char>>,
        required: Option<Capability>,
    ) -> RequestStateView {
        let s1 = self.step(RequestStateView::Unauthenticated, header, required);
        let s2 = self.step(s1, header, required);
        let s3 = self.step(s2, header, required);
        self.step(s3, header, required)
    }

    /// The outcome of a login with these credentials, where `token` is the
    /// token that is minted if the password is accepted.
    pub open spec fn login_outcome(
        self,
        username: Seq<char>,
        password: Seq<char>,
        token: Seq<char>,
    ) -> Result<Seq<char>, Rejection> {
        let reply = self.user_by_name(username);
        match credential_verdict(reply, password_accepted(reply, password)) {
            Ok(_) => login_conclusion(token, StoreReply::Stored),
            Err(reason) => Err(reason),
        }
    }

    /// The world after that login: a granted session is stored for three
    /// hours, a refused login changes nothing.
    pub open spec fn after_login(
        self,
        username: Seq<char>,
        password: Seq<char>,
        token: Seq<char>,
    ) -> World {
        let reply = self.user_by_name(username);
        match credential_verdict(reply, password_accepted(reply, password)) {
            Ok(user_id) => self.store_session(
                session_key_of(token),
                user_id,
                SESSION_TTL_SECONDS as int,
            ),
            Err(_) => self,
        }
    }
}

/// The header with which a client presents `token`.
pub open spec fn bearer_header(token: Seq<char>) -> Seq<char> {
    "Bearer "@ + token
}

/// A session token is not empty and holds no white space.
pub proof fn lemma_session_token_is_solid(token: Seq<char>)
    requires
        is_session_token(token),
    ensures
        token.len() > 0,
        is_solid(token),
{
    assert forall|i: int| 0 <= i < token.len() implies !is_whitespace(#[trigger] token[i]) by {
        assert(is_alphanumeric(token[i]));
    }
}

/// A login by a user of the directory, with a password that the stored hash
/// accepts, returns the minted token.
pub proof fn lemma_login_succeeds(
    world: World,
    user: UserView,
    password: Seq<char>,
    token: Seq<char>,
)
    requires
        world.well_formed(),
        world.users.contains_key(user.id),
        world.users[user.id] == user,
        crate::hasher::password_matches(password, user.password),
    ensures
        world.user_by_name(user.username) == UserReplyView::Found(user),
        world.login_outcome(user.username, password, token) == Ok::<Seq<char>, Rejection>(token),
        login_response_of(world.login_outcome(user.username, password, token)) == (
        LoginResponseView::Token { token }),
{
    assert(world.knows(user.username));
}

/// A user that was just stored, under a fresh id and a fresh name and with
/// a hash that accepts its password, can log in with that password and
/// holds the roles it was created with.
pub proof fn lemma_new_user_can_log_in(
    world: World,
    user: UserView,
    codes: Seq<RoleCode>,
    password: Seq<char>,
    token: Seq<char>,
)
    requires
        world.well_formed(),
        !world.users.contains_key(user.id),
        !world.knows(user.username),
        crate::hasher::password_matches(password, user.password),
    ensures
        world.add_user(user, codes).well_formed(),
        world.add_user(user, codes).login_outcome(user.username, password, token) == Ok::<
            Seq<char>,
            Rejection,
        >(token),
        world.add_user(user, codes).roles_reply(user.id) == RolesReplyView::Found(codes),
{
    let grown = world.add_user(user, codes);
    assert forall|a: i32, b: i32|
        grown.users.contains_key(a) && grown.users.contains_key(b) && (
        #[trigger] grown.users[a]).username == (#[trigger] grown.users[b]).username implies a
        == b by {
        if a != b {
            if a == user.id {
                assert(world.users.contains_key(b) && world.users[b].username == user.username);
            } else if b == user.id {
                assert(world.users.contains_key(a) && world.users[a].username == user.username);
            }
        }
    }
    lemma_login_succeeds(grown, user, password, token);
}

/// A login with a name that the directory does not know and a login with a
/// known name and a password that its hash does not accept get the same
/// response, status 401 and the same message, and neither changes the world.
pub proof fn lemma_failed_logins_are_indistinguishable(
    world: World,
    unknown: Seq<char>,
    known: Seq<char>,
    password: Seq<char>,
    wrong_password: Seq<char>,
    token: Seq<char>,
)
    requires
        !world.knows(unknown),
        world.knows(known),
        !password_accepted(world.user_by_name(known), wrong_password),
    ensures
        login_response_of(world.login_outcome(unknown, password, token)) == login_response_of(
            world.login_outcome(known, wrong_password, token),
        ),
        login_response_of(world.login_outcome(unknown, password, token)) == (
        LoginResponseView::Failure {
            status: STATUS_UNAUTHORIZED,
            message: "Wrong credentials"@,
        }),
        world.after_login(unknown, password, token) == world,
        world.after_login(known, wrong_password, token) == world,
{
}

/// After a successful login, the returned token, presented as a bearer
/// token at any moment before the time to live has passed, resolves to the
/// user that logged in, as long as the directory still holds that user.
pub proof fn lemma_token_resolves_to_its_user(
    world: World,
    username: Seq<char>,
    password: Seq<char>,
    token: Seq<char>,
    elapsed: int,
)
    requires
        world.well_formed(),
        is_session_token(token),
        world.login_outcome(username, password, token) is Ok,
        0 <= elapsed < SESSION_TTL_SECONDS,
    ensures
        world.user_by_name(username) matches UserReplyView::Found(user) && user.username
            == username && world.after_login(username, password, token).later(elapsed).serve(
            Some(bearer_header(token)),
            None,
        ) == (RequestStateView::UserResolved { user }),
{
    lemma_session_token_is_solid(token);
    lemma_bearer_header_presents_token(token);
    let user = world.user_by_name(username)->Found_0;
    let then = world.after_login(username, password, token).later(elapsed);
    let header = Some(bearer_header(token));
    let s1 = then.step(RequestStateView::Unauthenticated, header, None);
    assert(s1 == RequestStateView::TokenChecked { token });
    assert(then.sessions.contains_key(session_key_of(token)));
    let s2 = then.step(s1, header, None);
    assert(s2 == RequestStateView::SessionFound { user_id: user.id });
    let s3 = then.step(s2, header, None);
    assert(s3 == RequestStateView::UserResolved { user });
}

/// Once the time to live has passed, or once the cache has dropped the
/// entry, the same token establishes no identity: the request is refused as
/// not authenticated, whoever the session belonged to.
pub proof fn lemma_expired_token_is_unauthenticated(
    world: World,
    username: Seq<char>,
    password: Seq<char>,
    token: Seq<char>,
    elapsed: int,
    required: Option<Capability>,
)
    requires
        is_session_token(token),
        world.login_outcome(username, password, token) is Ok,
        0 <= elapsed,
    ensures
        elapsed >= SESSION_TTL_SECONDS ==> world.after_login(username, password, token).later(
            elapsed,
        ).serve(Some(bearer_header(token)), required) == (RequestStateView::Rejected {
            reason: Rejection::NotAuthenticated,
        }),
        world.after_login(username, password, token).later(elapsed).evict(
            session_key_of(token),
        ).serve(Some(bearer_header(token)), required) == (RequestStateView::Rejected {
            reason: Rejection::NotAuthenticated,
        }),
{
    lemma_session_token_is_solid(token);
    lemma_bearer_header_presents_token(token);
    let header = Some(bearer_header(token));
    let logged_in = world.after_login(username, password, token);
    assert(logged_in.sessions.contains_key(session_key_of(token)));
    if elapsed >= SESSION_TTL_SECONDS {
        let then = logged_in.later(elapsed);
        let s1 = then.step(RequestStateView::Unauthenticated, header, required);
        assert(s1 == RequestStateView::TokenChecked { token });
        let s2 = then.step(s1, header, required);
        assert(s2 == RequestStateView::Rejected { reason: Rejection::NotAuthenticated });
    }
    let dropped = logged_in.later(elapsed).evict(session_key_of(token));
    let d1 = dropped.step(RequestStateView::Unauthenticated, header, required);
    assert(d1 == RequestStateView::TokenChecked { token });
    let d2 = dropped.step(d1, header, required);
    assert(d2 == RequestStateView::Rejected { reason: Rejection::NotAuthenticated });
}

/// Deleting a user invalidates the tokens issued to it: a token that is
/// still live no longer establishes an identity once the directory has
/// dropped its user.
pub proof fn lemma_deleted_user_is_unauthenticated(
    world: World,
    username: Seq<char>,
    password: Seq<char>,
    token: Seq<char>,
    elapsed: int,
    required: Option<Capability>,
)
    requires
        world.well_formed(),
        is_session_token(token),
        world.login_outcome(username, password, token) is Ok,
        0 <= elapsed < SESSION_TTL_SECONDS,
    ensures
        world.user_by_name(username) matches UserReplyView::Found(user) && world.after_login(
            username,
            password,
            token,
        ).later(elapsed).delete_user(user.id).serve(Some(bearer_header(token)), required) == (
        RequestStateView::Rejected { reason: Rejection::NotAuthenticated }),
{
    lemma_session_token_is_solid(token);
    lemma_bearer_header_presents_token(token);
    let user = world.user_by_name(username)->Found_0;
    let then = world.after_login(username, password, token).later(elapsed).delete_user(user.id);
    let header = Some(bearer_header(token));
    let s1 = then.step(RequestStateView::Unauthenticated, header, required);
    assert(s1 == RequestStateView::TokenChecked { token });
    assert(then.sessions.contains_key(session_key_of(token)));
    let s2 = then.step(s1, header, required);
    assert(s2 == RequestStateView::SessionFound { user_id: user.id });
    let s3 = then.step(s2, header, required);
    assert(s3 == RequestStateView::Rejected { reason: Rejection::NotAuthenticated });
}

/// On a route that requires "editor or above", an authenticated caller who
/// holds only Viewer roles, or none, is refused as not authorized, and one
/// who holds an Editor or an Admin role is let through, with the same
/// identity as on a route that requires nothing.
pub proof fn lemma_editor_route(world: World, header: Option<Seq<char>>, user: UserView)
    requires
        world.serve(header, None) == (RequestStateView::UserResolved { user }),
    ensures
        ({
            let editor = Capability { minimum: RoleCode::Editor };
            let held = world.roles_reply(user.id)->Found_0;
            let end = world.serve(header, Some(editor));
            &&& (forall|i: int| 0 <= i < held.len() ==> held[i] == RoleCode::Viewer) ==> end == (
            RequestStateView::Rejected { reason: Rejection::NotAuthorized })
            &&& held.contains(RoleCode::Editor) || held.contains(RoleCode::Admin) ==> end == (
            RequestStateView::Authorized { user, capability: editor })
        }),
{
    let editor = Capability { minimum: RoleCode::Editor };
    let held = world.roles_reply(user.id)->Found_0;
    lemma_editor_or_above(held);
    let required = Some(editor);
    let a1 = world.step(RequestStateView::Unauthenticated, header, None);
    let a2 = world.step(a1, header, None);
    let a3 = world.step(a2, header, None);
    let a4 = world.step(a3, header, None);
    let b1 = world.step(RequestStateView::Unauthenticated, header, required);
    let b2 = world.step(b1, header, required);
    let b3 = world.step(b2, header, required);
    assert(a1 == b1);
    assert(a2 == b2);
    assert(a3 == b3);
    assert(a4 == a3);
}

/// A refused request stays refused, whatever is reported afterwards.
pub proof fn lemma_rejection_is_final(
    reason: Rejection,
    event: RequestEventView,
    required: Option<Capability>,
)
    ensures
        next_state(RequestStateView::Rejected { reason }, event, required) == (
        RequestStateView::Rejected { reason }),
{
}

/// The machine fails closed. A step establishes an identity only on the
/// directory's word that the session's user exists, and it authorizes only
/// an established identity whose reported roles meet the requirement.
pub proof fn lemma_steps_fail_closed(
    state: RequestStateView,
    event: RequestEventView,
    required: Option<Capability>,
)
    ensures
        identity_of(next_state(state, event, required)) is Some && identity_of(state) is None ==> {
            &&& state is SessionFound
            &&& event matches RequestEventView::User(UserReplyView::Found(user))
            &&& identity_of(next_state(state, event, required)) == Some(user)
        },
        next_state(state, event, required) is Authorized && !(state is Authorized) ==> {
            &&& state matches RequestStateView::UserResolved { user }
            &&& event matches RequestEventView::Roles(RolesReplyView::Found(held))
            &&& required matches Some(capability)
            &&& grants(capability, held)
            &&& next_state(state, event, required) == (RequestStateView::Authorized {
                user,
                capability,
            })
        },
        identity_of(state) matches Some(user) ==> identity_of(next_state(state, event, required))
            is None || identity_of(next_state(state, event, required)) == Some(user),
{
}

/// An outage is reported as a server error and never as a decision about
/// the caller: when the cache or the directory cannot answer for the session
/// or its user, the request ends with status 500.
pub proof fn lemma_outage_is_a_server_error(token: Seq<char>, user_id: i32, required: Option<Capability>)
    ensures
        pending_action(
            next_state(
                RequestStateView::TokenChecked { token },
                RequestEventView::Session(SessionReply::Unavailable),
                required,
            ),
            required,
        ) == (RequestActionView::Refuse { status: crate::rejection::STATUS_SERVER_ERROR }),
        pending_action(
            next_state(
                RequestStateView::SessionFound { user_id },
                RequestEventView::User(UserReplyView::Unavailable),
                required,
            ),
            required,
        ) == (RequestActionView::Refuse { status: crate::rejection::STATUS_SERVER_ERROR }),
{
}

/// A header that is absent or is not `Bearer <token>` ends the request at
/// once: the first action after it is the refusal, with status 401, and no
/// lookup is asked for.
pub proof fn lemma_bad_header_asks_for_no_lookup(
    header: Option<Seq<char>>,
    required: Option<Capability>,
)
    requires
        header matches Some(value) ==> bearer_token_of(value) is None,
    ensures
        pending_action(
            next_state(
                RequestStateView::Unauthenticated,
                RequestEventView::Header(header),
                required,
            ),
            required,
        ) == (RequestActionView::Refuse { status: STATUS_UNAUTHORIZED }),
{
}

} // verus!
