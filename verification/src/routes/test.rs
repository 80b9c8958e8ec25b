//! What the trial registration is asked with.

use vstd::prelude::*;

verus! {

/// What an account is registered with.
#[derive(Debug, Clone)]
pub struct RegistrationInfo {
    pub first_name: String,
    pub last_name: Option<String>,
    pub login: String,
    pub password: String,
}

} // verus!
