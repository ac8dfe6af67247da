//! Authentication and authorization core of a small role-gated REST backend:
//! credential checks, session tokens, bearer-header parsing and the
//! per-request state machine that ends in an access decision.
//!
//! Nothing in this crate performs I/O. The directory of users and the session
//! cache are reached by the caller, who reports their answers back as plain
//! values; every decision taken on those answers is made, and verified, here.

pub mod accounts;
pub mod bearer;
pub mod guard;
pub mod hasher;
pub mod login;
pub mod model;
pub mod models;
pub mod phc;
pub mod rejection;
pub mod replies;
pub mod request;
pub mod roles;
pub mod text;
pub mod token;
