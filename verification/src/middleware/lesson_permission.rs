//! The stage that checks the grant of the account for the lesson of a
//! request.

use vstd::prelude::*;
use crate::error::APIError;
use crate::middleware::permission::{authorize, authorized, resolved_view};
use crate::model::permission::{LessonPermission, PermissionError, PermissionType};

verus! {

/// The stage that checks the grant of the account for a lesson.
#[derive(Debug, Clone, Copy)]
pub struct CheckLessonPermission {
    permission_type: Option<PermissionType>,
}

impl CheckLessonPermission {
    /// The level that the route asks for, if it asks for one.
    pub closed spec fn required(&self) -> Option<PermissionType> {
        self.permission_type
    }

    /// The stage of a route that asks for the given level.
    pub fn new(permission_type: PermissionType) -> (stage: CheckLessonPermission)
        ensures
            stage.required() == Some(permission_type),
    {
        CheckLessonPermission { permission_type: Some(permission_type) }
    }

    /// What the route makes of a grant that was resolved.
    pub fn check(&self, resolved: Result<LessonPermission, PermissionError>) -> (res: Result<
        LessonPermission,
        APIError,
    >)
        ensures
            match authorized(self.required(), resolved_view(resolved)) {
                Ok(p) => res matches Ok(found) && found == p,
                Err(e) => res matches Err(f) && f@ == e,
            },
    {
        authorize(self.permission_type, resolved)
    }
}

impl Default for CheckLessonPermission {
    /// The stage of a route that asks for no level.
    fn default() -> (stage: CheckLessonPermission)
        ensures
            stage.required() is None,
    {
        CheckLessonPermission { permission_type: None }
    }
}

} // verus!
