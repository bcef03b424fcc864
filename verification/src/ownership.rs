//! Access-capability tags.
//!
//! A tag records, at the moment a reference to a foreign object was produced,
//! who else may concurrently hold a reference to the same object identity.
//! Tags carry no data: a tag value is a unit whose whole meaning is its type,
//! the parameter of a typed foreign reference. A tag is never upgraded (for
//! example from [`Shared`] to [`Unique`]) once attached; a stronger tag can
//! only come from the producer issuing a fresh reference.

use crate::sealed::Sealed;
use vstd::prelude::*;

verus! {

/// Capability tag: no other live reference to the same object identity
/// exists anywhere in the process.
pub struct Unique;

/// Capability tag: other references to the same object identity may exist,
/// and mutation must go through whatever synchronization the foreign runtime
/// provides.
pub struct Shared;

/// Capability tag: the reference was handed out in a context where the
/// foreign runtime already guarantees thread safety of the underlying object
/// for the duration of the call.
pub struct ThreadLocal;

/// The closed set of access-capability tags. Sealed: a tag invented outside
/// the crate could claim guarantees the foreign runtime never established.
pub trait ThreadAccess: Sealed + Sized {

}

impl Sealed for Unique {

}

impl ThreadAccess for Unique {

}

impl Sealed for Shared {

}

impl ThreadAccess for Shared {

}

impl Sealed for ThreadLocal {

}

impl ThreadAccess for ThreadLocal {

}

} // verus!
