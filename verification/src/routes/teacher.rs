//! What the routes for teachers are asked with.

use vstd::prelude::*;

verus! {

/// What a new teacher is made of.
#[derive(Debug, Clone)]
pub struct TeacherCreateRequest {
    pub first_name: String,
    pub last_name: Option<String>,
}

/// What is to be changed of a teacher: nothing where both are missing.
#[derive(Debug, Clone)]
pub struct TeacherUpdateRequest {
    /// The new first name, if it is to be changed.
    pub first_name: Option<String>,
    /// The new last name, if it is to be changed; no text takes the last
    /// name away.
    pub last_name: Option<Option<String>>,
}

impl Default for TeacherUpdateRequest {
    fn default() -> (request: TeacherUpdateRequest)
        ensures
            request.first_name is None,
            request.last_name is None,
    {
        TeacherUpdateRequest { first_name: None, last_name: None }
    }
}

} // verus!
