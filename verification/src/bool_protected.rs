//! A second name for the protected boolean.

use vstd::prelude::*;

verus! {

/// A fault-resistant boolean: see [`Bool`](crate::fault_hardened::bool::Bool).
pub type BoolProtected = crate::fault_hardened::bool::Bool;

} // verus!
