//! What a route answers with when all went well.

use vstd::prelude::*;

verus! {

/// The answer of a route, under the name `payload`.
#[derive(Debug, Clone, Copy, PartialEq, Eq, Structural)]
pub struct Payload<T> {
    pub payload: T,
}

impl<T> Payload<T> {
    /// The answer that holds `payload`.
    pub fn new(payload: T) -> (p: Payload<T>)
        ensures
            p.payload == payload,
    {
        Payload { payload }
    }
}

} // verus!
