//! What the routes take and give, and what they decide.

use vstd::prelude::*;

pub mod auth;
pub mod permission;
pub mod teacher;
pub mod test;

verus! {

} // verus!
