//! Crate-private seal for the closed trait hierarchies.
//!
//! This module is not exported, so no type outside the crate can name
//! [`Sealed`], and therefore none can implement the traits that require it as
//! a supertrait. Both the set of access-capability tags and the set of owner
//! argument shapes are closed this way: admitting an outside implementation
//! would let a handler bypass the capability discipline.

use vstd::prelude::*;

verus! {

/// Supertrait of the closed trait hierarchies; implementable only inside the
/// crate, since this module is private.
pub trait Sealed {

}

} // verus!
