//! Creating a user: what is decided before and while the directory is
//! written. The password is hashed, the role codes are read from their text,
//! and each code is linked to its role, which is created on first use.

use vstd::prelude::*;
use crate::hasher::{
    argon2_phc, hash_password, password_matches, verifiable, HashFailure,
};
use crate::models::{NewRole, NewUser, NewUserRole, Role, User};
use crate::roles::{parse_role_code, role_code_text, InvalidRoleCode, RoleCode};

verus! {

/// Why an account could not be prepared.
#[derive(Debug, Clone, Copy, PartialEq, Eq, Structural)]
pub enum AccountError {
    /// The password could not be hashed.
    Hash,
    /// One of the role codes is not in the catalogue.
    InvalidRole,
}

/// A user ready to be stored, with the codes of the roles it is to hold.
#[derive(Debug, PartialEq, Eq)]
pub struct NewAccount {
    pub user: NewUser,
    pub role_codes: Vec<RoleCode>,
}

/// What the directory has to write for one role code of a new user.
#[derive(Debug, PartialEq, Eq)]
pub enum RoleStep {
    /// The role exists: store this assignment.
    Link(NewUserRole),
    /// The role does not exist yet: store it, then assign it.
    Create(NewRole),
}

/// Whether every text of a list names a role code.
pub open spec fn all_role_codes(texts: Seq<String>) -> bool {
    forall|i: int| 0 <= i < texts.len() ==> parse_role_code((#[trigger] texts[i])@) is Ok
}

/// Whether `codes` are the codes that `texts` name, one for one.
pub open spec fn codes_of(texts: Seq<String>, codes: Seq<RoleCode>) -> bool {
    &&& codes.len() == texts.len()
    &&& forall|i: int|
        0 <= i < texts.len() ==> parse_role_code((#[trigger] texts[i])@) == Ok::<
            RoleCode,
            InvalidRoleCode,
        >(codes[i])
}

/// Reads a list of role codes from their texts. One text outside the
/// catalogue fails the whole list.
pub fn parse_role_codes(texts: &Vec<String>) -> (codes: Result<Vec<RoleCode>, InvalidRoleCode>)
    ensures
        codes is Ok <==> all_role_codes(texts@),
        codes matches Ok(list) ==> codes_of(texts@, list@),
{
    let mut list: Vec<RoleCode> = Vec::new();
    let mut i: usize = 0;
    while i < texts.len()
        invariant
            i <= texts@.len(),
            list@.len() == i,
            forall|k: int|
                0 <= k < i ==> parse_role_code((#[trigger] texts@[k])@) == Ok::<
                    RoleCode,
                    InvalidRoleCode,
                >(list@[k]),
        decreases texts@.len() - i,
    {
        match RoleCode::from_string(texts[i].clone()) {
            Ok(code) => list.push(code),
            Err(invalid) => {
                assert(parse_role_code(texts@[i as int]@) is Err);
                return Err(invalid);
            },
        }
        i += 1;
    }
    Ok(list)
}

/// Puts an account together from the user name, the outcome of hashing the
/// password and the texts of the role codes. A failed hash is reported
/// before an invalid role code.
pub fn assemble_account(
    username: String,
    hash: Result<String, HashFailure>,
    role_codes: &Vec<String>,
) -> (account: Result<NewAccount, AccountError>)
    ensures
        match hash {
            Err(_) => account matches Err(e) && e == AccountError::Hash,
            Ok(h) => if all_role_codes(role_codes@) {
                &&& account matches Ok(a)
                &&& a.user.username == username
                &&& a.user.password == h
                &&& codes_of(role_codes@, a.role_codes@)
            } else {
                account matches Err(e) && e == AccountError::InvalidRole
            },
        },
{
    match hash {
        Err(_) => Err(AccountError::Hash),
        Ok(password) => match parse_role_codes(role_codes) {
            Ok(codes) => Ok(NewAccount { user: NewUser { username, password }, role_codes: codes }),
            Err(_) => Err(AccountError::InvalidRole),
        },
    }
}

/// Prepares a new account: hashes the password under a salt drawn for this
/// call and reads the role codes. The account fails with `Hash` exactly when
/// no hash is handed out for that salt; otherwise it holds that hash as its
/// stored password, which matches `password`, unless a role code is outside
/// the catalogue.
pub fn prepare_account(username: String, password: String, role_codes: &Vec<String>) -> (account:
    Result<NewAccount, AccountError>)
    ensures
        exists|salt: Seq<char>|
            match verifiable(#[trigger] argon2_phc(password@, salt)) {
                None => account matches Err(e) && e == AccountError::Hash,
                Some(h) => if all_role_codes(role_codes@) {
                    &&& account matches Ok(a)
                    &&& a.user.username == username
                    &&& a.user.password@ == h
                    &&& codes_of(role_codes@, a.role_codes@)
                } else {
                    account matches Err(e) && e == AccountError::InvalidRole
                },
            },
        account matches Ok(a) ==> password_matches(password@, a.user.password@),
{
    let hash = hash_password(password);
    assemble_account(username, hash, role_codes)
}

/// Decides what to write for one role code of `user`, given the role that
/// the directory found under that code, if it found one. A missing role is
/// created under the code's own text as its name.
pub fn plan_role(user: &User, code: RoleCode, found: Option<&Role>) -> (step: RoleStep)
    ensures
        match found {
            Some(role) => step matches RoleStep::Link(link) && link == (NewUserRole {
                user_id: user.id,
                role_id: role.id,
            }),
            None => step matches RoleStep::Create(role) && role.code == code && role.name@
                == role_code_text(code),
        },
{
    match found {
        Some(role) => RoleStep::Link(NewUserRole::link(user, role)),
        None => RoleStep::Create(NewRole::for_code(code)),
    }
}

} // verus!
