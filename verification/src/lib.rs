//! The authorization core of a service that keeps lessons and teachers for
//! accounts.
//!
//! An account proves who it is with a token: a claim, written as a compact
//! JSON object and signed with HMAC-SHA256 under a secret that the process
//! is started with. [`token`] issues and authenticates tokens and decides
//! whether a refresh token was revoked; [`model::permission`] resolves the
//! grant of an account for a lesson or a teacher; [`middleware`] puts the
//! two together into the stages that a request passes before its handler
//! runs. [`error`] holds the errors that reach a caller.
//!
//! Nothing here reads a socket, a store or a file. Where a decision needs
//! an answer of a store, the library says what to ask and takes the answer
//! as a value.

use vstd::prelude::*;

pub mod encoding;
pub mod error;
pub mod middleware;
pub mod model;
pub mod payload;
pub mod response;
pub mod routes;
pub mod token;
pub mod types;

verus! {

} // verus!
