use chrono::NaiveDateTime;
use cr8s::guard::has_access;
use cr8s::models::{Role, User};
use cr8s::rejection::{Operation, Rejection};
use cr8s::replies::{RolesReply, SessionReply, UserReply};
use cr8s::request::{RequestAction, RequestEvent, RequestState};
use cr8s::roles::{Capability, RoleCode};

fn alice() -> User {
    User {
        id: 5,
        username: "alice".to_string(),
        password: "$hash".to_string(),
        created_at: NaiveDateTime::default(),
    }
}

fn role(id: i32, code: RoleCode) -> Role {
    Role { id, code, name: code.as_str().to_string(), created_at: NaiveDateTime::default() }
}

fn editor() -> Option<Capability> {
    Some(Capability::editor_or_above())
}

fn all_events() -> Vec<RequestEvent> {
    vec![
        RequestEvent::Header(None),
        RequestEvent::Header(Some("Bearer tok".to_string())),
        RequestEvent::Session(SessionReply::Hit(5)),
        RequestEvent::Session(SessionReply::Miss),
        RequestEvent::Session(SessionReply::Unavailable),
        RequestEvent::User(UserReply::Found(alice())),
        RequestEvent::User(UserReply::NotFound),
        RequestEvent::User(UserReply::Unavailable),
        RequestEvent::Roles(RolesReply::Found(vec![role(1, RoleCode::Admin)])),
        RequestEvent::Roles(RolesReply::Unavailable),
    ]
}

#[test]
fn a_request_starts_unauthenticated() {
    assert_eq!(RequestState::new(), RequestState::Unauthenticated);
    assert_eq!(RequestState::new().pending(None), RequestAction::ReadHeader);
    assert_eq!(RequestState::new().pending(editor()), RequestAction::ReadHeader);
    assert_eq!(RequestState::new().into_user(), None);
}

#[test]
fn header_step() {
    let start = || RequestState::Unauthenticated;
    assert_eq!(
        start().advance(RequestEvent::Header(Some("Bearer tok".to_string())), None),
        RequestState::TokenChecked { token: "tok".to_string() }
    );
    assert_eq!(
        start().advance(RequestEvent::Header(None), None),
        RequestState::Rejected { reason: Rejection::NotAuthenticated }
    );
    for bad in ["", "tok", "Bearer", "bearer tok", "Bearer a b", "Token tok"] {
        assert_eq!(
            start().advance(RequestEvent::Header(Some(bad.to_string())), None),
            RequestState::Rejected { reason: Rejection::Validation }
        );
    }
}

#[test]
fn session_step() {
    let checked = || RequestState::TokenChecked { token: "tok".to_string() };
    assert_eq!(
        checked().pending(None),
        RequestAction::GetSession { key: "sessions/tok".to_string() }
    );
    assert_eq!(
        checked().advance(RequestEvent::Session(SessionReply::Hit(5)), None),
        RequestState::SessionFound { user_id: 5 }
    );
    assert_eq!(
        checked().advance(RequestEvent::Session(SessionReply::Miss), None),
        RequestState::Rejected { reason: Rejection::NotAuthenticated }
    );
    assert_eq!(
        checked().advance(RequestEvent::Session(SessionReply::Unavailable), None),
        RequestState::Rejected { reason: Rejection::Infrastructure(Operation::SessionGet) }
    );
}

#[test]
fn user_step() {
    let found = || RequestState::SessionFound { user_id: 5 };
    assert_eq!(found().pending(editor()), RequestAction::FindUser { id: 5 });
    assert_eq!(
        found().advance(RequestEvent::User(UserReply::Found(alice())), None),
        RequestState::UserResolved { user: alice() }
    );
    assert_eq!(
        found().advance(RequestEvent::User(UserReply::NotFound), None),
        RequestState::Rejected { reason: Rejection::NotAuthenticated }
    );
    assert_eq!(
        found().advance(RequestEvent::User(UserReply::Unavailable), None),
        RequestState::Rejected { reason: Rejection::Infrastructure(Operation::FindUserById) }
    );
}

#[test]
fn roles_step() {
    let resolved = || RequestState::UserResolved { user: alice() };
    assert_eq!(resolved().pending(editor()), RequestAction::FetchRoles { user_id: 5 });
    assert_eq!(resolved().pending(None), RequestAction::Serve);

    let granted = RequestState::Authorized { user: alice(), capability: Capability::editor_or_above() };
    for roles in [
        vec![role(1, RoleCode::Admin)],
        vec![role(2, RoleCode::Editor)],
        vec![role(3, RoleCode::Viewer), role(2, RoleCode::Editor)],
        vec![role(3, RoleCode::Viewer), role(3, RoleCode::Viewer), role(1, RoleCode::Admin)],
    ] {
        assert_eq!(
            resolved().advance(RequestEvent::Roles(RolesReply::Found(roles)), editor()),
            granted
        );
    }
    let refused = RequestState::Rejected { reason: Rejection::NotAuthorized };
    for reply in [
        RolesReply::Found(vec![]),
        RolesReply::Found(vec![role(3, RoleCode::Viewer)]),
        RolesReply::Found(vec![role(3, RoleCode::Viewer), role(4, RoleCode::Viewer)]),
        RolesReply::Unavailable,
    ] {
        assert_eq!(resolved().advance(RequestEvent::Roles(reply), editor()), refused);
    }
    assert_eq!(granted.pending(editor()), RequestAction::Serve);
    assert_eq!(refused.pending(editor()), RequestAction::Refuse { status: 401 });
}

#[test]
fn roles_do_not_matter_on_a_route_without_requirement() {
    let resolved = || RequestState::UserResolved { user: alice() };
    assert_eq!(
        resolved().advance(RequestEvent::Roles(RolesReply::Found(vec![])), None),
        resolved()
    );
    assert_eq!(resolved().advance(RequestEvent::Roles(RolesReply::Unavailable), None), resolved());
}

#[test]
fn admin_only_route() {
    let admin_only = Some(Capability { minimum: RoleCode::Admin });
    let resolved = || RequestState::UserResolved { user: alice() };
    assert_eq!(
        resolved().advance(
            RequestEvent::Roles(RolesReply::Found(vec![role(2, RoleCode::Editor)])),
            admin_only
        ),
        RequestState::Rejected { reason: Rejection::NotAuthorized }
    );
    assert_eq!(
        resolved().advance(
            RequestEvent::Roles(RolesReply::Found(vec![role(1, RoleCode::Admin)])),
            admin_only
        ),
        RequestState::Authorized { user: alice(), capability: Capability { minimum: RoleCode::Admin } }
    );
}

#[test]
fn a_refusal_is_final() {
    for reason in [
        Rejection::Validation,
        Rejection::NotAuthenticated,
        Rejection::NotAuthorized,
        Rejection::Infrastructure(Operation::SessionGet),
    ] {
        for event in all_events() {
            for required in [None, editor()] {
                assert_eq!(
                    RequestState::Rejected { reason }.advance(event.clone_event(), required),
                    RequestState::Rejected { reason }
                );
            }
        }
    }
}

#[test]
fn an_event_that_answers_nothing_pending_changes_nothing() {
    let states = || {
        vec![
            RequestState::Unauthenticated,
            RequestState::TokenChecked { token: "tok".to_string() },
            RequestState::SessionFound { user_id: 5 },
            RequestState::UserResolved { user: alice() },
            RequestState::Authorized { user: alice(), capability: Capability::editor_or_above() },
        ]
    };
    for (s, state) in states().into_iter().enumerate() {
        for event in all_events() {
            let answers = match (&state, &event) {
                (RequestState::Unauthenticated, RequestEvent::Header(_)) => true,
                (RequestState::TokenChecked { .. }, RequestEvent::Session(_)) => true,
                (RequestState::SessionFound { .. }, RequestEvent::User(_)) => true,
                (RequestState::UserResolved { .. }, RequestEvent::Roles(_)) => true,
                _ => false,
            };
            if !answers {
                let before = states().remove(s);
                assert_eq!(states().remove(s).advance(event, editor()), before);
            }
        }
    }
}

#[test]
fn identity_is_handed_out_once_resolved() {
    assert_eq!(RequestState::UserResolved { user: alice() }.into_user(), Some(alice()));
    assert_eq!(
        RequestState::Authorized { user: alice(), capability: Capability::editor_or_above() }
            .into_user(),
        Some(alice())
    );
    assert_eq!(RequestState::TokenChecked { token: "tok".to_string() }.into_user(), None);
    assert_eq!(RequestState::SessionFound { user_id: 5 }.into_user(), None);
    assert_eq!(RequestState::Rejected { reason: Rejection::NotAuthorized }.into_user(), None);
}

#[test]
fn access_needs_one_role_that_meets_the_requirement() {
    let cap = Capability::editor_or_above();
    assert!(!has_access(&vec![], &cap));
    assert!(!has_access(&vec![role(3, RoleCode::Viewer)], &cap));
    assert!(has_access(&vec![role(3, RoleCode::Viewer), role(2, RoleCode::Editor)], &cap));
    assert!(has_access(&vec![role(1, RoleCode::Admin)], &cap));
    let any = Capability { minimum: RoleCode::Viewer };
    assert!(!has_access(&vec![], &any));
    assert!(has_access(&vec![role(3, RoleCode::Viewer)], &any));
}

trait CloneEvent {
    fn clone_event(&self) -> RequestEvent;
}

impl CloneEvent for RequestEvent {
    fn clone_event(&self) -> RequestEvent {
        match self {
            RequestEvent::Header(h) => RequestEvent::Header(h.clone()),
            RequestEvent::Session(r) => RequestEvent::Session(*r),
            RequestEvent::User(UserReply::Found(u)) => RequestEvent::User(UserReply::Found(u.clone())),
            RequestEvent::User(UserReply::NotFound) => RequestEvent::User(UserReply::NotFound),
            RequestEvent::User(UserReply::Unavailable) => RequestEvent::User(UserReply::Unavailable),
            RequestEvent::Roles(RolesReply::Found(r)) => RequestEvent::Roles(RolesReply::Found(r.clone())),
            RequestEvent::Roles(RolesReply::Unavailable) => RequestEvent::Roles(RolesReply::Unavailable),
        }
    }
}
