//! Foreign objects, their identities, and typed references to them.
//!
//! A foreign object is owned by the foreign runtime; the binding layer never
//! deallocates it and sees of it only a stable identity. The [`Runtime`] model
//! is the identity source: it issues identities that are distinct from every
//! identity issued before. A [`TRef`] is the non-owning handle the runtime
//! delivers into a call: the target object together with the access-capability
//! tag under which it was produced. It is valid only for the dynamic extent of
//! that call, which the borrow lifetime enforces.

use crate::ownership::ThreadAccess;
use vstd::prelude::*;

verus! {

/// A type standing for objects owned by the foreign runtime. Each value
/// exposes a stable identity, distinguishable from any script-side state.
pub trait ForeignObject: Sized {
    /// The stable identity of this object.
    spec fn identity(&self) -> u64;

    /// Read the stable identity.
    fn id(&self) -> (r: u64)
        ensures
            r == self.identity(),
    ;
}

/// A foreign base type that supports default instantiation: the runtime can
/// construct a fresh object of it on request.
pub trait Instantiable: ForeignObject {
    /// Construct a fresh foreign object. Its identity is distinct from the
    /// identity of every object the runtime allocated before.
    fn construct(rt: &mut Runtime) -> (obj: Self)
        requires
            old(rt).can_allocate(),
        ensures
            obj.identity() == old(rt).issued(),
            !old(rt).allocated().contains(obj.identity()),
            final(rt).issued() == old(rt).issued() + 1,
            final(rt).allocated() == old(rt).allocated().insert(obj.identity()),
    ;
}

/// The foreign runtime's allocation state, reduced to what the binding layer
/// may rely on: which object identities have been handed out. Identities are
/// issued in order and never reused.
pub struct Runtime {
    next_id: u64,
}

impl Runtime {
    /// How many identities have been issued so far.
    pub closed spec fn issued(self) -> u64 {
        self.next_id
    }

    /// The identities of all objects allocated so far.
    pub open spec fn allocated(self) -> Set<u64> {
        Set::new(|i: u64| i < self.issued())
    }

    /// Whether another identity can still be issued.
    pub open spec fn can_allocate(self) -> bool {
        self.issued() < u64::MAX
    }

    /// A runtime that has allocated nothing yet.
    pub fn new() -> (rt: Self)
        ensures
            rt.issued() == 0,
            rt.allocated() == Set::<u64>::empty(),
    {
        let rt = Runtime { next_id: 0 };
        proof {
            assert(rt.allocated() =~= Set::<u64>::empty());
        }
        rt
    }

    /// Whether another identity can still be issued; callers outside the
    /// verified world test this before taking a construction path.
    pub fn has_capacity(&self) -> (r: bool)
        ensures
            r == self.can_allocate(),
    {
        self.next_id < u64::MAX
    }

    /// Issue an identity that no earlier allocation carries.
    pub fn fresh_id(&mut self) -> (id: u64)
        requires
            old(self).can_allocate(),
        ensures
            id == old(self).issued(),
            !old(self).allocated().contains(id),
            final(self).issued() == old(self).issued() + 1,
            final(self).allocated() == old(self).allocated().insert(id),
    {
        let id = self.next_id;
        self.next_id = self.next_id + 1;
        proof {
            assert(self.allocated() =~= old(self).allocated().insert(id));
        }
        id
    }
}

/// An identity issued against a grown allocation set differs from the one the
/// set grew by: successive allocations never repeat an identity.
pub proof fn lemma_successive_identities_distinct(before: Set<u64>, first: u64, second: u64)
    requires
        !before.insert(first).contains(second),
    ensures
        first != second,
{
}

/// A typed foreign reference: a non-owning handle to a foreign object,
/// carrying the access-capability tag under which the foreign runtime
/// produced it. It is constructed fresh per call, lives no longer than the
/// borrow of its target, and never participates in the target's destruction.
pub struct TRef<'a, T: ForeignObject, A: ThreadAccess> {
    object: &'a T,
    access: A,
}

impl<'a, T: ForeignObject, A: ThreadAccess> TRef<'a, T, A> {
    /// The referenced object.
    pub closed spec fn target(self) -> &'a T {
        self.object
    }

    /// The access-capability tag attached to this reference.
    pub closed spec fn tag(self) -> A {
        self.access
    }

    /// The identity of the referenced object.
    pub open spec fn identity(self) -> u64 {
        self.target().identity()
    }

    /// Attach a capability tag to a borrowed foreign object. The caller
    /// stands for the foreign runtime here: per that runtime's documented
    /// threading rules, the tag must truthfully describe who else may
    /// concurrently hold the same object for the duration of the borrow.
    pub fn new(object: &'a T, access: A) -> (r: Self)
        ensures
            r.target() == object,
            r.tag() == access,
    {
        TRef { object, access }
    }

    /// The bare borrow of the target, with the capability tag stripped.
    pub fn as_ref(self) -> (r: &'a T)
        ensures
            r == self.target(),
    {
        self.object
    }

    /// Read the identity of the referenced object.
    pub fn id(&self) -> (r: u64)
        ensures
            r == self.identity(),
    {
        self.object.id()
    }
}

} // verus!
