//! Lessons and their identifiers.

use vstd::prelude::*;

verus! {

/// The identifier of a lesson.
#[derive(Debug, Clone, Copy, PartialEq, Eq, Structural, Hash)]
pub struct LessonID(pub u128);

} // verus!
