use vstd::prelude::*;

verus! {

/// Seconds elapsed since the Unix epoch; negative values lie before it.
pub type SecondsSinceEpoch = i64;

} // verus!
