//! The stages that a request passes before its handler runs. Each stage
//! takes the context of the request as far as it has been filled and gives
//! it back with more in it, or ends the request with an error.

use vstd::prelude::*;

pub mod authentication;
pub mod context;
pub mod lesson_permission;
pub mod permission;
pub mod teacher_permission;

verus! {

} // verus!
