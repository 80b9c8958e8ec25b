//! The stage that authenticates a request by its access token.

use vstd::prelude::*;
use crate::error::{APIError, APIErrorView};
use crate::middleware::context::{RequestContext, RequestContextView};
use crate::model::permission::EntityPermission;
use crate::token::bearer::{
    authenticate_claim_from_headers_at, header_authenticated, AuthorizationHeader,
    AuthorizationHeaderView,
};
use crate::token::{current_timestamp, is_clock_moment};
use crate::types::SecondsSinceEpoch;

verus! {

/// The stage that authenticates a request.
#[derive(Debug, Clone, Copy)]
pub struct Authentication;

/// What the stage makes of a context at `now`: the context with the claim
/// of the access token in it, or the error of authenticating the header,
/// and then nothing of the context goes on.
pub open spec fn authentication_outcome<T: EntityPermission>(
    ctx: RequestContextView<T>,
    header: AuthorizationHeaderView,
    secret: Seq<char>,
    now: SecondsSinceEpoch,
) -> Result<RequestContextView<T>, APIErrorView> {
    match header_authenticated(header, secret, now) {
        Ok(claim) => Ok(RequestContextView { claim: Some(claim), ..ctx }),
        Err(e) => Err(e),
    }
}

/// The result of a stage as a value.
pub open spec fn stage_view<T: EntityPermission>(res: Result<RequestContext<T>, APIError>) -> Result<
    RequestContextView<T>,
    APIErrorView,
> {
    match res {
        Ok(ctx) => Ok(ctx@),
        Err(e) => Err(e@),
    }
}

impl Authentication {
    /// Runs the stage at `now`.
    pub fn call_at<T: EntityPermission>(
        &self,
        ctx: RequestContext<T>,
        header: &AuthorizationHeader,
        secret: &str,
        now: SecondsSinceEpoch,
    ) -> (res: Result<RequestContext<T>, APIError>)
        ensures
            stage_view(res) == authentication_outcome(ctx@, header@, secret@, now),
    {
        match authenticate_claim_from_headers_at(header, secret, now) {
            Ok(claim) => Ok(ctx.with_claim(claim)),
            Err(e) => Err(e),
        }
    }

    /// Runs the stage at the present moment: what the stage makes of the
    /// context at some moment that the clock can give.
    pub fn call<T: EntityPermission>(
        &self,
        ctx: RequestContext<T>,
        header: &AuthorizationHeader,
        secret: &str,
    ) -> (res: Result<RequestContext<T>, APIError>)
        ensures
            exists|now: SecondsSinceEpoch|
                is_clock_moment(now) && stage_view(res) == #[trigger] authentication_outcome(
                    ctx@,
                    header@,
                    secret@,
                    now,
                ),
    {
        let now = current_timestamp();
        self.call_at(ctx, header, secret, now)
    }
}

} // verus!
