use chrono::NaiveDateTime;
use cr8s::models::{role_ids, NewRole, NewUserRole, Role, User, UserRole};
use cr8s::rejection::{Dependency, Operation, Rejection};
use cr8s::roles::RoleCode;

#[test]
fn role_ids_of_assignments() {
    assert_eq!(role_ids(&vec![]), Vec::<i32>::new());
    let assignments = vec![
        UserRole { id: 1, user_id: 7, role_id: 30 },
        UserRole { id: 2, user_id: 7, role_id: 10 },
        UserRole { id: 3, user_id: 7, role_id: 30 },
        UserRole { id: 4, user_id: 7, role_id: -1 },
    ];
    assert_eq!(role_ids(&assignments), vec![30, 10, 30, -1]);
}

#[test]
fn new_role_is_named_after_its_code() {
    for code in [RoleCode::Admin, RoleCode::Editor, RoleCode::Viewer] {
        assert_eq!(NewRole::for_code(code), NewRole { code, name: code.as_str().to_string() });
    }
}

#[test]
fn link_joins_user_and_role() {
    let user = User {
        id: 3,
        username: "alice".to_string(),
        password: "$hash".to_string(),
        created_at: NaiveDateTime::default(),
    };
    let role = Role {
        id: 12,
        code: RoleCode::Editor,
        name: "editor".to_string(),
        created_at: NaiveDateTime::default(),
    };
    assert_eq!(NewUserRole::link(&user, &role), NewUserRole { user_id: 3, role_id: 12 });
}

#[test]
fn clones_are_equal() {
    let user = User {
        id: 3,
        username: "alice".to_string(),
        password: "$hash".to_string(),
        created_at: NaiveDateTime::default(),
    };
    assert_eq!(user.clone(), user);
    let role = Role {
        id: 12,
        code: RoleCode::Editor,
        name: "editor".to_string(),
        created_at: NaiveDateTime::default(),
    };
    assert_eq!(role.clone(), role);
}

#[test]
fn refusals_that_concern_the_caller_share_one_status() {
    assert_eq!(Rejection::Validation.status(), 401);
    assert_eq!(Rejection::NotAuthenticated.status(), 401);
    assert_eq!(Rejection::NotAuthorized.status(), 401);
}

#[test]
fn outages_are_server_errors() {
    let operations = [
        (Operation::FindUserByUsername, Dependency::Directory),
        (Operation::FindUserById, Dependency::Directory),
        (Operation::SessionGet, Dependency::SessionStore),
        (Operation::SessionPut, Dependency::SessionStore),
    ];
    for (operation, dependency) in operations {
        assert_eq!(Rejection::Infrastructure(operation).status(), 500);
        assert_eq!(operation.dependency(), dependency);
    }
}

#[test]
fn status_constants() {
    assert_eq!(cr8s::rejection::STATUS_OK, 200);
    assert_eq!(cr8s::rejection::STATUS_UNAUTHORIZED, 401);
    assert_eq!(cr8s::rejection::STATUS_SERVER_ERROR, 500);
}
