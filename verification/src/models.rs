//! The records of the user directory, as plain values, and their views.

use vstd::prelude::*;
use chrono::NaiveDateTime;
use crate::roles::{role_code_text, RoleCode};

verus! {

/// `chrono::NaiveDateTime`, a date and time without a zone. The library only
/// carries such a value from the directory to the caller and never reads it.
#[verifier::external_type_specification]
#[verifier::external_body]
pub struct ExNaiveDateTime(chrono::NaiveDateTime);

/// An identity record of the directory. `password` is the stored hash, never
/// the plaintext.
#[derive(Debug, PartialEq, Eq)]
pub struct User {
    pub id: i32,
    pub username: String,
    pub password: String,
    pub created_at: NaiveDateTime,
}

/// A user as contracts see it: texts by their characters.
pub struct UserView {
    pub id: i32,
    pub username: Seq<char>,
    pub password: Seq<char>,
    pub created_at: NaiveDateTime,
}

impl View for User {
    type V = UserView;

    open spec fn view(&self) -> UserView {
        UserView {
            id: self.id,
            username: self.username@,
            password: self.password@,
            created_at: self.created_at,
        }
    }
}

/// A user that the directory has not stored yet.
#[derive(Debug, PartialEq, Eq)]
pub struct NewUser {
    pub username: String,
    pub password: String,
}

/// A role of the catalogue as the directory stores it.
#[derive(Debug, PartialEq, Eq)]
pub struct Role {
    pub id: i32,
    pub code: RoleCode,
    pub name: String,
    pub created_at: NaiveDateTime,
}

/// A role that the directory has not stored yet.
#[derive(Debug, PartialEq, Eq)]
pub struct NewRole {
    pub code: RoleCode,
    pub name: String,
}

/// One assignment of a role to a user.
#[derive(Debug, Clone, Copy, PartialEq, Eq, Structural)]
pub struct UserRole {
    pub id: i32,
    pub user_id: i32,
    pub role_id: i32,
}

/// An assignment that the directory has not stored yet.
#[derive(Debug, Clone, Copy, PartialEq, Eq, Structural)]
pub struct NewUserRole {
    pub user_id: i32,
    pub role_id: i32,
}

/// The codes of a list of roles, in the same order.
pub open spec fn held_codes(roles: Seq<Role>) -> Seq<RoleCode> {
    Seq::new(roles.len(), |i: int| roles[i].code)
}

/// The role ids of a list of assignments, in the same order.
pub open spec fn assigned_role_ids(assignments: Seq<UserRole>) -> Seq<i32> {
    Seq::new(assignments.len(), |i: int| assignments[i].role_id)
}

/// The ids of the roles that a user's assignments name: what is then looked
/// up in the catalogue to get the user's roles.
pub fn role_ids(assignments: &Vec<UserRole>) -> (ids: Vec<i32>)
    ensures
        ids@ == assigned_role_ids(assignments@),
{
    let mut ids: Vec<i32> = Vec::new();
    let mut i: usize = 0;
    while i < assignments.len()
        invariant
            i <= assignments@.len(),
            ids@ == assigned_role_ids(assignments@.subrange(0, i as int)),
        decreases assignments@.len() - i,
    {
        ids.push(assignments[i].role_id);
        i += 1;
        assert(ids@ =~= assigned_role_ids(assignments@.subrange(0, i as int)));
    }
    assert(assignments@.subrange(0, i as int) =~= assignments@);
    ids
}

impl Clone for User {
    fn clone(&self) -> (copy: User)
        ensures
            copy == *self,
    {
        User {
            id: self.id,
            username: self.username.clone(),
            password: self.password.clone(),
            created_at: self.created_at,
        }
    }
}

impl Clone for Role {
    fn clone(&self) -> (copy: Role)
        ensures
            copy == *self,
    {
        Role {
            id: self.id,
            code: self.code,
            name: self.name.clone(),
            created_at: self.created_at,
        }
    }
}

impl NewRole {
    /// The catalogue entry created on first use of a code: its display name
    /// is the code's text.
    pub fn for_code(code: RoleCode) -> (role: NewRole)
        ensures
            role.code == code,
            role.name@ == role_code_text(code),
    {
        NewRole { code, name: code.as_str().to_owned() }
    }
}

impl NewUserRole {
    /// The assignment of `role` to `user`.
    pub fn link(user: &User, role: &Role) -> (assignment: NewUserRole)
        ensures
            assignment == (NewUserRole { user_id: user.id, role_id: role.id }),
    {
        NewUserRole { user_id: user.id, role_id: role.id }
    }
}

} // verus!
