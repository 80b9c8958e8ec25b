//! What the stages have found out about a request so far.

use vstd::prelude::*;
use crate::error::{APIError, APIErrorView};
use crate::model::account::AccountID;
use crate::model::permission::EntityPermission;
use crate::token::{AccessTokenInfo, ApplicationClaim, ApplicationClaimView};

verus! {

/// The text of the error for a handler that asks for the account of a
/// request that was not authenticated.
pub const NO_ACCOUNT: &'static str = "Error encountered while processing authentication request";

/// The text of the error for a handler that asks for a parameter that no
/// stage has put into the context.
pub const NO_PARAMETER: &'static str = "Error encountered while extracting parameters";

/// The text of the error for a handler that asks for the grant of a request
/// whose grant was not checked.
pub const NO_PERMISSION: &'static str = "Error encountered while processing permission checks";

/// The context of a request on a route for lessons or teachers. `T` is the
/// kind of grant that the route asks for.
pub struct RequestContext<T: EntityPermission> {
    /// The claim of the access token, once the request is authenticated.
    pub claim: Option<ApplicationClaim<AccessTokenInfo>>,
    /// The identifier in the path, once it is read.
    pub entity_id: Option<T::EntityID>,
    /// The grant of the account, once it is checked.
    pub permission: Option<T>,
}

/// A `RequestContext` as a value.
pub struct RequestContextView<T: EntityPermission> {
    pub claim: Option<ApplicationClaimView<AccessTokenInfo>>,
    pub entity_id: Option<T::EntityID>,
    pub permission: Option<T>,
}

impl<T: EntityPermission> View for RequestContext<T> {
    type V = RequestContextView<T>;

    open spec fn view(&self) -> RequestContextView<T> {
        RequestContextView {
            claim: match self.claim {
                Some(claim) => Some(claim@),
                None => None,
            },
            entity_id: self.entity_id,
            permission: self.permission,
        }
    }
}

/// An internal error with the given text.
pub open spec fn missing(text: Seq<char>) -> APIErrorView {
    APIErrorView::InternalError { message: text }
}

impl<T: EntityPermission> RequestContextView<T> {
    /// The context of a request that no stage has seen.
    pub open spec fn empty() -> RequestContextView<T> {
        RequestContextView { claim: None, entity_id: None, permission: None }
    }

    /// The account of the request, if it is authenticated.
    pub open spec fn account_id(self) -> Result<AccountID, APIErrorView> {
        match self.claim {
            Some(claim) => Ok(claim.inner.account_id),
            None => Err(missing(NO_ACCOUNT@)),
        }
    }
}

impl<T: EntityPermission> RequestContext<T> {
    /// The context of a request that no stage has seen.
    pub fn new() -> (ctx: RequestContext<T>)
        ensures
            ctx@ == RequestContextView::<T>::empty(),
    {
        RequestContext { claim: None, entity_id: None, permission: None }
    }

    /// The context with the claim of the request in it.
    pub fn with_claim(self, claim: ApplicationClaim<AccessTokenInfo>) -> (ctx: RequestContext<T>)
        ensures
            ctx@ == (RequestContextView { claim: Some(claim@), ..self@ }),
    {
        RequestContext { claim: Some(claim), entity_id: self.entity_id, permission: self.permission }
    }

    /// The context with the identifier from the path in it.
    pub fn with_entity(self, entity_id: T::EntityID) -> (ctx: RequestContext<T>)
        ensures
            ctx@ == (RequestContextView { entity_id: Some(entity_id), ..self@ }),
    {
        RequestContext { claim: self.claim, entity_id: Some(entity_id), permission: self.permission }
    }

    /// The context with the grant of the account in it.
    pub fn with_permission(self, permission: T) -> (ctx: RequestContext<T>)
        ensures
            ctx@ == (RequestContextView { permission: Some(permission), ..self@ }),
    {
        RequestContext { claim: self.claim, entity_id: self.entity_id, permission: Some(permission) }
    }

    /// The claim of the request: an internal error where the request was
    /// not authenticated.
    pub fn claim(&self) -> (res: Result<&ApplicationClaim<AccessTokenInfo>, APIError>)
        ensures
            match self@.claim {
                Some(claim) => res matches Ok(c) && c@ == claim,
                None => res matches Err(e) && e@ == missing(NO_PARAMETER@),
            },
    {
        match &self.claim {
            Some(claim) => Ok(claim),
            None => Err(APIError::InternalError { message: NO_PARAMETER.to_owned() }),
        }
    }

    /// The account of the request: an internal error where the request was
    /// not authenticated.
    pub fn account_id(&self) -> (res: Result<AccountID, APIError>)
        ensures
            match self@.account_id() {
                Ok(id) => res matches Ok(found) && found == id,
                Err(e) => res matches Err(f) && f@ == e,
            },
    {
        match &self.claim {
            Some(claim) => Ok(claim.inner.account_id),
            None => Err(APIError::InternalError { message: NO_ACCOUNT.to_owned() }),
        }
    }

    /// The identifier from the path: an internal error where none was read.
    pub fn entity_id(&self) -> (res: Result<T::EntityID, APIError>)
        ensures
            match self@.entity_id {
                Some(id) => res matches Ok(found) && found == id,
                None => res matches Err(e) && e@ == missing(NO_PARAMETER@),
            },
    {
        match self.entity_id {
            Some(id) => Ok(id),
            None => Err(APIError::InternalError { message: NO_PARAMETER.to_owned() }),
        }
    }

    /// The grant of the account: an internal error where none was checked.
    pub fn permission(&self) -> (res: Result<T, APIError>)
        ensures
            match self@.permission {
                Some(p) => res matches Ok(found) && found == p,
                None => res matches Err(e) && e@ == missing(NO_PERMISSION@),
            },
    {
        match self.permission {
            Some(p) => Ok(p),
            None => Err(APIError::InternalError { message: NO_PERMISSION.to_owned() }),
        }
    }
}

} // verus!
