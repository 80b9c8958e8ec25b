//! Texts that the library writes itself: decimal digits, and the canonical
//! text of identifiers.

use vstd::prelude::*;

pub mod bytes;
pub mod decimal;
pub mod hex;
pub mod identifier;

verus! {

} // verus!
