//! An answer that holds either what a route gives or an error, never both
//! and never neither.

use vstd::prelude::*;
use crate::error::{APIError, APIErrorView};
use crate::payload::Payload;

verus! {

/// An answer: what a route gives, or an error.
pub struct APIResponse<Response> {
    ok: bool,
    payload: Option<Payload<Response>>,
    error: Option<APIError>,
}

impl<T> APIResponse<T> {
    /// What the answer holds.
    pub closed spec fn outcome(&self) -> Result<T, APIErrorView> {
        match (self.payload, self.error) {
            (Some(p), _) => Ok(p.payload),
            (None, Some(e)) => Err(e@),
            (None, None) => Err(APIErrorView::InvalidToken),
        }
    }

    /// Whether the answer holds one of the two, and says which.
    #[verifier::type_invariant]
    spec fn well_formed(&self) -> bool {
        (self.ok && self.payload is Some && self.error is None) || (!self.ok && self.payload is None
            && self.error is Some)
    }

    /// The answer that holds an error.
    pub fn from_error(error: APIError) -> (response: APIResponse<T>)
        ensures
            response.outcome() == Err::<T, APIErrorView>(error@),
    {
        APIResponse { ok: false, payload: None, error: Some(error) }
    }

    /// The answer that holds what a route gives.
    pub fn from_ok(value: T) -> (response: APIResponse<T>)
        ensures
            response.outcome() == Ok::<T, APIErrorView>(value),
    {
        APIResponse { ok: true, payload: Some(Payload::new(value)), error: None }
    }

    /// The answer that holds what a route gives.
    pub fn payload(of: T) -> (response: APIResponse<T>)
        ensures
            response.outcome() == Ok::<T, APIErrorView>(of),
    {
        APIResponse::from_ok(of)
    }

    /// The answer for a result.
    pub fn from_result(result: Result<Payload<T>, APIError>) -> (response: APIResponse<T>)
        ensures
            match result {
                Ok(p) => response.outcome() == Ok::<T, APIErrorView>(p.payload),
                Err(e) => response.outcome() == Err::<T, APIErrorView>(e@),
            },
    {
        match result {
            Ok(p) => APIResponse { ok: true, payload: Some(p), error: None },
            Err(e) => APIResponse { ok: false, payload: None, error: Some(e) },
        }
    }

    /// Whether the answer holds what a route gives.
    pub fn is_ok(&self) -> (ok: bool)
        ensures
            ok == self.outcome() is Ok,
    {
        proof {
            use_type_invariant(self);
        }
        self.ok
    }

    /// What the answer holds, as a result.
    pub fn into_result(self) -> (res: Result<T, APIError>)
        ensures
            match self.outcome() {
                Ok(value) => res == Ok::<T, APIError>(value),
                Err(e) => res matches Err(f) && f@ == e,
            },
    {
        proof {
            use_type_invariant(&self);
        }
        match (self.payload, self.error) {
            (Some(p), _) => Ok(p.payload),
            (None, Some(e)) => Err(e),
            (None, None) => {
                proof {
                    assert(false);
                }
                Err(APIError::InvalidToken)
            },
        }
    }
}

} // verus!
