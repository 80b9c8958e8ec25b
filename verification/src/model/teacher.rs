//! Teachers and their identifiers.

use vstd::prelude::*;

verus! {

/// The identifier of a teacher.
#[derive(Debug, Clone, Copy, PartialEq, Eq, Structural, Hash)]
pub struct TeacherID(pub u128);

} // verus!
