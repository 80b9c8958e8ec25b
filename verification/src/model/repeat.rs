//! How lessons repeat.

use vstd::prelude::*;

pub mod weekly;

verus! {

} // verus!
