//! The instance container: an owning handle on a pair of foreign base object
//! and script payload.
//!
//! `attach` pairs a payload with a base object the caller owns; `emplace`
//! first constructs a fresh base object, whose identity is then distinct from
//! the identity of every object the runtime allocated before. The class
//! descriptor's zero-argument construction path builds on these; `emplace`
//! never takes that path. If the base type is manually managed, the caller is
//! responsible for eventually handing the instance to the foreign runtime or
//! releasing it; the base object leaks otherwise.

use crate::object::{ForeignObject, Instantiable, Runtime};
use crate::ownership::{ThreadAccess, Unique};
use vstd::prelude::*;

verus! {

/// A base object of type `B` with a payload of the script class `C`
/// attached, owned under the access mode `A`. Fresh construction yields
/// `Unique` ownership: no other reference to the base object exists yet.
pub struct Instance<C, B: ForeignObject, A: ThreadAccess> {
    base: B,
    payload: C,
    access: A,
}

impl<C, B: ForeignObject, A: ThreadAccess> Instance<C, B, A> {
    /// The script payload attached to the base object.
    pub closed spec fn payload(self) -> C {
        self.payload
    }

    /// The owned base object.
    pub closed spec fn base(self) -> B {
        self.base
    }

    /// The identity of the owned base object.
    pub open spec fn base_identity(self) -> u64 {
        self.base().identity()
    }

    /// Read the payload.
    pub fn payload_ref(&self) -> (r: &C)
        ensures
            r == self.payload(),
    {
        &self.payload
    }

    /// Read the identity of the owned base object.
    pub fn base_id(&self) -> (r: u64)
        ensures
            r == self.base_identity(),
    {
        self.base.id()
    }
}

impl<C, B: ForeignObject> Instance<C, B, Unique> {
    /// Attach a payload to a base object the caller owns. Claiming `Unique`
    /// ownership is the caller's assertion that no other reference to the
    /// base object is live.
    pub fn attach(base: B, payload: C) -> (inst: Self)
        ensures
            inst.base() == base,
            inst.payload() == payload,
    {
        Instance { base, payload, access: Unique }
    }
}

impl<C, B: Instantiable> Instance<C, B, Unique> {
    /// Construct a fresh base object and attach the given payload. The
    /// zero-argument construction path is never taken: the payload is stored
    /// as handed in.
    pub fn emplace(payload: C, rt: &mut Runtime) -> (inst: Self)
        requires
            old(rt).can_allocate(),
        ensures
            inst.payload() == payload,
            inst.base_identity() == old(rt).issued(),
            !old(rt).allocated().contains(inst.base_identity()),
            final(rt).issued() == old(rt).issued() + 1,
            final(rt).allocated() == old(rt).allocated().insert(inst.base_identity()),
    {
        let base = B::construct(rt);
        Instance { base, payload, access: Unique }
    }
}

} // verus!
