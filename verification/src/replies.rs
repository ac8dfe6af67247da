//! What the two outside services answer, as plain values. The caller makes
//! the call and reports the answer in one of these types.

use vstd::prelude::*;
use crate::models::{held_codes, Role, User, UserView};
use crate::roles::RoleCode;

verus! {

/// Answer of the directory to a lookup of one user.
#[derive(Debug, PartialEq, Eq)]
pub enum UserReply {
    Found(User),
    NotFound,
    /// The directory could not be reached or returned an error.
    Unavailable,
}

/// A `UserReply` as contracts see it.
pub enum UserReplyView {
    Found(UserView),
    NotFound,
    Unavailable,
}

impl View for UserReply {
    type V = UserReplyView;

    open spec fn view(&self) -> UserReplyView {
        match self {
            UserReply::Found(user) => UserReplyView::Found(user@),
            UserReply::NotFound => UserReplyView::NotFound,
            UserReply::Unavailable => UserReplyView::Unavailable,
        }
    }
}

/// Answer of the directory to a lookup of a user's roles.
#[derive(Debug, PartialEq, Eq)]
pub enum RolesReply {
    Found(Vec<Role>),
    /// The directory could not be reached or returned an error.
    Unavailable,
}

/// A `RolesReply` as contracts see it: of each role only its code.
pub enum RolesReplyView {
    Found(Seq<RoleCode>),
    Unavailable,
}

impl View for RolesReply {
    type V = RolesReplyView;

    open spec fn view(&self) -> RolesReplyView {
        match self {
            RolesReply::Found(roles) => RolesReplyView::Found(held_codes(roles@)),
            RolesReply::Unavailable => RolesReplyView::Unavailable,
        }
    }
}

/// Answer of the session cache to a read. An entry that has expired is a
/// miss: the cache enforces expiry, not this library.
#[derive(Debug, Clone, Copy, PartialEq, Eq, Structural)]
pub enum SessionReply {
    /// The key is live and maps to this user id.
    Hit(i32),
    Miss,
    /// The cache could not be reached or returned an error.
    Unavailable,
}

/// Answer of the session cache to a write.
#[derive(Debug, Clone, Copy, PartialEq, Eq, Structural)]
pub enum StoreReply {
    Stored,
    /// The cache could not be reached or returned an error.
    Unavailable,
}

} // verus!
