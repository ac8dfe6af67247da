//! Why a login or a request is turned away, and how that is reported.

use vstd::prelude::*;

verus! {

/// A call to one of the two outside services.
#[derive(Debug, Clone, Copy, PartialEq, Eq, Structural)]
pub enum Operation {
    /// Directory: look a user up by name.
    FindUserByUsername,
    /// Directory: look a user up by id.
    FindUserById,
    /// Session cache: read the entry of a key.
    SessionGet,
    /// Session cache: write an entry with its expiry.
    SessionPut,
}

/// One of the two outside services.
#[derive(Debug, Clone, Copy, PartialEq, Eq, Structural)]
pub enum Dependency {
    Directory,
    SessionStore,
}

/// The four kinds of refusal. They are kept apart so that an outage is never
/// mistaken for a decision about the caller.
#[derive(Debug, Clone, Copy, PartialEq, Eq, Structural)]
pub enum Rejection {
    /// The input is malformed; nothing was looked up.
    Validation,
    /// No identity was established: no or unknown token, unknown user name
    /// or wrong password.
    NotAuthenticated,
    /// An identity was established but it lacks the required role.
    NotAuthorized,
    /// A service failed during the named operation.
    Infrastructure(Operation),
}

/// HTTP status of a granted request or login.
pub const STATUS_OK: u16 = 200;

/// HTTP status of every refusal that concerns the caller. One status for all
/// of them: the response does not tell which check failed.
pub const STATUS_UNAUTHORIZED: u16 = 401;

/// HTTP status of a failure on the server's side.
pub const STATUS_SERVER_ERROR: u16 = 500;

/// The service that an operation is asked of.
pub open spec fn dependency_of(operation: Operation) -> Dependency {
    match operation {
        Operation::FindUserByUsername => Dependency::Directory,
        Operation::FindUserById => Dependency::Directory,
        Operation::SessionGet => Dependency::SessionStore,
        Operation::SessionPut => Dependency::SessionStore,
    }
}

/// The HTTP status with which a refusal is answered.
pub open spec fn status_of(reason: Rejection) -> u16 {
    match reason {
        Rejection::Infrastructure(_) => STATUS_SERVER_ERROR,
        _ => STATUS_UNAUTHORIZED,
    }
}

impl Operation {
    /// The service that this operation is asked of.
    pub fn dependency(&self) -> (dependency: Dependency)
        ensures
            dependency == dependency_of(*self),
    {
        match self {
            Operation::FindUserByUsername => Dependency::Directory,
            Operation::FindUserById => Dependency::Directory,
            Operation::SessionGet => Dependency::SessionStore,
            Operation::SessionPut => Dependency::SessionStore,
        }
    }
}

impl Rejection {
    /// The HTTP status with which this refusal is answered.
    pub fn status(&self) -> (status: u16)
        ensures
            status == status_of(*self),
    {
        match self {
            Rejection::Infrastructure(_) => STATUS_SERVER_ERROR,
            _ => STATUS_UNAUTHORIZED,
        }
    }
}

/// No refusal is ever answered with the status of success, and only a
/// failing service is answered with a server error.
pub proof fn lemma_refusals_are_never_success(reason: Rejection)
    ensures
        status_of(reason) != STATUS_OK,
        status_of(reason) == STATUS_SERVER_ERROR <==> reason is Infrastructure,
        !(reason is Infrastructure) ==> status_of(reason) == STATUS_UNAUTHORIZED,
{
}

} // verus!
