//! The stage that checks the grant of the account for the teacher of a
//! request.

use vstd::prelude::*;
use crate::error::APIError;
use crate::middleware::permission::{authorize, authorized, resolved_view};
use crate::model::permission::{TeacherPermission, PermissionError, PermissionType};

verus! {

/// The stage that checks the grant of the account for a teacher.
#[derive(Debug, Clone, Copy)]
pub struct CheckTeacherPermission {
    permission_type: Option<PermissionType>,
}

impl CheckTeacherPermission {
    /// The level that the route asks for, if it asks for one.
    pub closed spec fn required(&self) -> Option<PermissionType> {
        self.permission_type
    }

    /// The stage of a route that asks for the given level.
    pub fn new(permission_type: PermissionType) -> (stage: CheckTeacherPermission)
        ensures
            stage.required() == Some(permission_type),
    {
        CheckTeacherPermission { permission_type: Some(permission_type) }
    }

    /// What the route makes of a grant that was resolved.
    pub fn check(&self, resolved: Result<TeacherPermission, PermissionError>) -> (res: Result<
        TeacherPermission,
        APIError,
    >)
        ensures
            match authorized(self.required(), resolved_view(resolved)) {
                Ok(p) => res matches Ok(found) && found == p,
                Err(e) => res matches Err(f) && f@ == e,
            },
    {
        authorize(self.permission_type, resolved)
    }
}

impl Default for CheckTeacherPermission {
    /// The stage of a route that asks for no level.
    fn default() -> (stage: CheckTeacherPermission)
        ensures
            stage.required() is None,
    {
        CheckTeacherPermission { permission_type: None }
    }
}

} // verus!
