//! The stage that checks the grant of the account for the lesson or teacher
//! of a request.

use vstd::prelude::*;
use core::marker::PhantomData;
use crate::error::{APIError, APIErrorView};
use crate::middleware::authentication::stage_view;
use crate::middleware::context::{missing, RequestContext, RequestContextView, NO_PARAMETER};
use crate::model::account::AccountID;
use crate::model::permission::{
    EntityPermission, PermissionError, PermissionErrorView, PermissionType,
};

verus! {

/// What a route makes of a grant that was resolved. No grant is the error
/// of the resolution, as a caller sees it. A grant to read where the route
/// asks for writing is `NoWriteAccess`. Any other grant passes.
pub open spec fn authorized<T: EntityPermission>(
    required: Option<PermissionType>,
    resolved: Result<T, PermissionErrorView>,
) -> Result<T, APIErrorView> {
    match resolved {
        Ok(permission) => if required == Some(PermissionType::ReadWrite) && permission.level()
            == PermissionType::Read {
            Err(APIErrorView::NoWriteAccess)
        } else {
            Ok(permission)
        },
        Err(e) => Err(e.api_error()),
    }
}

/// The result of a resolution as a value.
pub open spec fn resolved_view<T>(resolved: Result<T, PermissionError>) -> Result<
    T,
    PermissionErrorView,
> {
    match resolved {
        Ok(p) => Ok(p),
        Err(e) => Err(e@),
    }
}

/// What a route makes of a grant that was resolved.
pub fn authorize<T: EntityPermission>(
    required: Option<PermissionType>,
    resolved: Result<T, PermissionError>,
) -> (res: Result<T, APIError>)
    ensures
        match authorized(required, resolved_view(resolved)) {
            Ok(p) => res matches Ok(found) && found == p,
            Err(e) => res matches Err(f) && f@ == e,
        },
{
    match resolved {
        Ok(permission) => {
            let downgraded = match (required, permission.permission()) {
                (Some(PermissionType::ReadWrite), PermissionType::Read) => true,
                _ => false,
            };
            if downgraded {
                Err(APIError::NoWriteAccess)
            } else {
                Ok(permission)
            }
        },
        Err(e) => Err(APIError::from_permission_error(e)),
    }
}

/// A grant to read does not pass where writing is asked for, and passes
/// where reading is; a grant to write passes either way, and so does any
/// grant where nothing is asked for.
pub proof fn lemma_authorized<T: EntityPermission>(required: Option<PermissionType>, permission: T)
    ensures
        permission.level() == PermissionType::Read && required == Some(PermissionType::ReadWrite)
            ==> authorized(required, Ok::<T, PermissionErrorView>(permission)) == Err::<
            T,
            APIErrorView,
        >(APIErrorView::NoWriteAccess),
        permission.level() == PermissionType::Read && required == Some(PermissionType::Read)
            ==> authorized(required, Ok::<T, PermissionErrorView>(permission)) == Ok::<
            T,
            APIErrorView,
        >(permission),
        permission.level() == PermissionType::ReadWrite || required is None ==> authorized(
            required,
            Ok::<T, PermissionErrorView>(permission),
        ) == Ok::<T, APIErrorView>(permission),
        authorized(required, Err::<T, PermissionErrorView>(PermissionErrorView::PermissionNotPresent))
            == Err::<T, APIErrorView>(APIErrorView::NoReadAccess),
        authorized(required, Err::<T, PermissionErrorView>(PermissionErrorView::EntityNotPresent))
            == Err::<T, APIErrorView>(APIErrorView::LessonDosNotExist),
{
}

/// The stage that checks the grant of the account, for grants of the kind
/// `T`. A route may ask for a level; where it asks for none, any grant
/// passes.
#[derive(Debug)]
pub struct CheckPermission<T> {
    permission_type: Option<PermissionType>,
    marker: PhantomData<T>,
}

/// What the stage asks the store to resolve: the grant of this account for
/// this lesson or teacher.
pub open spec fn resolution_subject<T: EntityPermission>(ctx: RequestContextView<T>) -> Result<
    (AccountID, T::EntityID),
    APIErrorView,
> {
    match ctx.account_id() {
        Err(e) => Err(e),
        Ok(account_id) => match ctx.entity_id {
            None => Err(missing(NO_PARAMETER@)),
            Some(entity_id) => Ok((account_id, entity_id)),
        },
    }
}

/// What the stage makes of a context once the level of the grant was
/// resolved: the context with the grant in it, or an error, and then
/// nothing of the context goes on.
pub open spec fn permission_outcome<T: EntityPermission>(
    required: Option<PermissionType>,
    ctx: RequestContextView<T>,
    resolved: Result<PermissionType, PermissionErrorView>,
) -> Result<RequestContextView<T>, APIErrorView> {
    match resolution_subject(ctx) {
        Err(e) => Err(e),
        Ok((account_id, entity_id)) => {
            let grant = match resolved {
                Ok(level) => Ok(T::granted(level, entity_id, account_id)),
                Err(e) => Err(e),
            };
            match authorized(required, grant) {
                Ok(permission) => Ok(RequestContextView { permission: Some(permission), ..ctx }),
                Err(e) => Err(e),
            }
        },
    }
}

impl<T: EntityPermission> CheckPermission<T> {
    /// The level that the route asks for, if it asks for one.
    pub closed spec fn required(&self) -> Option<PermissionType> {
        self.permission_type
    }

    /// The stage of a route that asks for the given level.
    pub fn new(permission_type: PermissionType) -> (stage: CheckPermission<T>)
        ensures
            stage.required() == Some(permission_type),
    {
        CheckPermission { permission_type: Some(permission_type), marker: PhantomData }
    }

    /// The level that the route asks for, if it asks for one.
    pub fn permission_type(&self) -> (level: Option<PermissionType>)
        ensures
            level == self.required(),
    {
        self.permission_type
    }

    /// What the stage asks the store to resolve: an internal error where an
    /// earlier stage has not put the account or the identifier into the
    /// context.
    pub fn subject(&self, ctx: &RequestContext<T>) -> (res: Result<
        (AccountID, T::EntityID),
        APIError,
    >)
        ensures
            match resolution_subject(ctx@) {
                Ok(subject) => res matches Ok(found) && found == subject,
                Err(e) => res matches Err(f) && f@ == e,
            },
    {
        let account_id = match ctx.account_id() {
            Ok(id) => id,
            Err(e) => {
                return Err(e);
            },
        };
        match ctx.entity_id() {
            Ok(entity_id) => Ok((account_id, entity_id)),
            Err(e) => Err(e),
        }
    }

    /// Runs the stage, once the level of the grant was resolved.
    pub fn call(
        &self,
        ctx: RequestContext<T>,
        resolved: Result<PermissionType, PermissionError>,
    ) -> (res: Result<RequestContext<T>, APIError>)
        ensures
            stage_view(res) == permission_outcome(
                self.required(),
                ctx@,
                resolved_view(resolved),
            ),
    {
        let (account_id, entity_id) = match self.subject(&ctx) {
            Ok(subject) => subject,
            Err(e) => {
                return Err(e);
            },
        };
        let grant = T::of_entity(account_id, entity_id, resolved);
        match authorize(self.permission_type, grant) {
            Ok(permission) => Ok(ctx.with_permission(permission)),
            Err(e) => Err(e),
        }
    }
}

impl<T: EntityPermission> Default for CheckPermission<T> {
    /// The stage of a route that asks for no level.
    fn default() -> (stage: CheckPermission<T>)
        ensures
            stage.required() is None,
    {
        CheckPermission { permission_type: None, marker: PhantomData }
    }
}

} // verus!
