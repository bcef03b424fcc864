//! The class descriptor contract and the capability-gated owner-argument
//! contract.
//!
//! [`NativeClass`] describes one script class: the foreign base type it
//! extends, its library-unique name, its zero-argument construction path, and
//! the properties it exports. [`NativeClassMethods`] enumerates its exposed
//! methods. [`OwnerArg`] is the compile-time safety core: it defines, for a
//! target object type and an access-capability tag, exactly which argument
//! shapes a handler may declare for the implicit owner parameter, and converts
//! a freshly delivered typed foreign reference into that shape. The contract
//! is sealed: only the two sanctioned shapes exist, and a third cannot be
//! added outside this crate, so a conversion that would bypass a capability
//! tag's guarantee is rejected when the handler is compiled, not when it runs.

use crate::instance::Instance;
use crate::object::{ForeignObject, Instantiable, Runtime, TRef};
use crate::ownership::{Shared, ThreadAccess, Unique};
use crate::registry::{register_all, ClassBuilder};
use crate::sealed::Sealed;
use vstd::prelude::*;
use vstd::string::StringExecFns;

verus! {

/// The message of the fatal condition raised when the zero-argument
/// construction path is taken for a class that does not provide it.
pub open spec fn missing_constructor_message(class_name: Seq<char>) -> Seq<char> {
    class_name + " does not have a zero-argument constructor"@
}

/// The message names the offending class: it begins with the class name.
pub proof fn lemma_missing_constructor_message_names_class(class_name: Seq<char>)
    ensures
        missing_constructor_message(class_name).len() >= class_name.len(),
        missing_constructor_message(class_name).subrange(0, class_name.len() as int)
            == class_name,
{
    assert(missing_constructor_message(class_name).subrange(0, class_name.len() as int)
        =~= class_name);
}

/// The one runtime failure mode of this crate: a configuration error, fatal
/// by design. Nothing here recovers from it; it is carried as a value so the
/// caller that owns the process can surface it and stop.
#[derive(Debug)]
pub struct ConfigError {
    message: String,
}

impl ConfigError {
    /// The carried message.
    pub closed spec fn message_spec(self) -> Seq<char> {
        self.message@
    }

    /// The fatal condition for a class without a zero-argument constructor,
    /// naming the class.
    pub fn missing_constructor(class_name: &str) -> (e: Self)
        ensures
            e.message_spec() == missing_constructor_message(class_name@),
    {
        let message = String::from_str(class_name).concat(
            " does not have a zero-argument constructor",
        );
        ConfigError { message }
    }

    /// Read the message.
    pub fn message(&self) -> (r: &String)
        ensures
            r@ == self.message_spec(),
    {
        &self.message
    }
}

/// Describes and initializes one script class: the data part of the class.
///
/// The name must be stable for the life of the library and unique within it;
/// it is the sole disambiguator when many classes are defined in one library.
/// All construction paths must be used only after the library is initialized.
pub trait NativeClass: Sized {
    /// The most general foreign base type objects of this class can attach
    /// to.
    type Base: ForeignObject;

    /// The declared class name.
    spec fn class_name_spec() -> Seq<char>;

    /// Whether the class provides the zero-argument construction path.
    spec fn has_zero_arg_constructor() -> bool;

    /// The payload the zero-argument constructor produces for an owner with
    /// the given identity. Meaningful only when the class provides that
    /// constructor.
    spec fn constructed(owner_identity: u64) -> Self;

    /// The property names the class registers, in registration order.
    spec fn property_names() -> Seq<Seq<char>>;

    /// The name of the class: pure, deterministic, and stable.
    fn class_name() -> (r: &'static str)
        ensures
            r@ == Self::class_name_spec(),
    ;

    /// The zero-argument construction path: produce the payload for a freshly
    /// created base object. The owner reference can be read here, to seed the
    /// payload or to set state on the owner upon creation.
    ///
    /// A class may be intentionally constructible only through an explicit
    /// payload (see `emplace`); its implementation of this path returns the
    /// fatal configuration error naming the class, by calling
    /// [`ConfigError::missing_constructor`] with its own name.
    fn init(owner: TRef<'_, Self::Base, Shared>) -> (r: Result<Self, ConfigError>)
        ensures
            Self::has_zero_arg_constructor() ==> r == Ok::<Self, ConfigError>(
                Self::constructed(owner.identity()),
            ),
            !Self::has_zero_arg_constructor() ==> (r matches Err(e) && e.message_spec()
                == missing_constructor_message(Self::class_name_spec())),
    ;

    /// Register the class's exported properties with the registration
    /// builder. Idempotent per class per library load: the registered names
    /// are fixed per class, and the builder records each name only once.
    fn register_properties(builder: &mut ClassBuilder<Self>)
        ensures
            final(builder).properties() == register_all(
                old(builder).properties(),
                Self::property_names(),
            ),
            final(builder).methods() == old(builder).methods(),
            final(builder).class_name_spec() == old(builder).class_name_spec(),
    ;

    /// Convenience: a new `Self::Base` with the script attached, as a
    /// uniquely owned instance holding a freshly initialized payload. For a
    /// class without a zero-argument constructor this is the zero-argument
    /// construction path failing: the fatal configuration error comes back,
    /// naming the class.
    ///
    /// If `Self::Base` is manually managed, the resulting instance must be
    /// passed to the foreign runtime or released explicitly; the base object
    /// is leaked otherwise. Must be called after the library is initialized.
    fn new_instance(rt: &mut Runtime) -> (r: Result<Instance<Self, Self::Base, Unique>, ConfigError>) where
        Self::Base: Instantiable,
        requires
            old(rt).can_allocate(),
        ensures
            final(rt).issued() == old(rt).issued() + 1,
            final(rt).allocated() == old(rt).allocated().insert(old(rt).issued()),
            match r {
                Ok(inst) => Self::has_zero_arg_constructor() && inst.base_identity() == old(
                    rt,
                ).issued() && !old(rt).allocated().contains(inst.base_identity())
                    && inst.payload() == Self::constructed(inst.base_identity()),
                Err(e) => !Self::has_zero_arg_constructor() && e.message_spec()
                    == missing_constructor_message(Self::class_name_spec()),
            },
    ;

    /// Convenience: a new `Self::Base` with the script attached, as a
    /// uniquely owned instance holding `self` as the payload. The
    /// zero-argument construction path is never taken here.
    ///
    /// The same ownership caveat as for `new_instance` applies, and the
    /// library must already be initialized.
    fn emplace(self, rt: &mut Runtime) -> (inst: Instance<Self, Self::Base, Unique>) where
        Self::Base: Instantiable,
        requires
            old(rt).can_allocate(),
        ensures
            inst.payload() == self,
            inst.base_identity() == old(rt).issued(),
            !old(rt).allocated().contains(inst.base_identity()),
            final(rt).issued() == old(rt).issued() + 1,
            final(rt).allocated() == old(rt).allocated().insert(inst.base_identity()),
    ;
}

/// Enumerates the exposed callables of a script class.
pub trait NativeClassMethods: NativeClass {
    /// The names of the exposed methods, in registration order.
    spec fn method_names() -> Seq<Seq<char>>;

    /// Register every exposed method, exactly once per class during library
    /// initialization. Ordering of methods within the class is preserved in
    /// registration order; ordering between classes is unspecified and must
    /// not be relied upon.
    fn register(builder: &mut ClassBuilder<Self>)
        ensures
            final(builder).methods() == old(builder).methods() + Self::method_names(),
            final(builder).properties() == old(builder).properties(),
            final(builder).class_name_spec() == old(builder).class_name_spec(),
    ;
}

/// The owner-argument contract: the argument shapes a handler may declare for
/// the implicit owner parameter. Sealed, so exactly two shapes implement it:
/// the bare borrow of the owner, and the typed foreign reference itself. A
/// third shape could bypass the capability tag's guarantee and reach the
/// owner from a concurrency domain the foreign runtime never sanctioned;
/// sealing rejects it at compile time, with no runtime branch anywhere.
pub trait OwnerArg<'a, T: ForeignObject, A: ThreadAccess>: Sealed + Sized {
    /// The identity of the owner this argument gives access to.
    spec fn owner_identity(self) -> u64;

    /// What converting a delivered reference yields in this shape.
    spec fn from_spec(owner: TRef<'a, T, A>) -> Self;

    /// Convert a freshly delivered typed foreign reference into this shape.
    /// Every sanctioned shape preserves the owner's identity.
    fn from_safe_ref(owner: TRef<'a, T, A>) -> (r: Self)
        ensures
            r == Self::from_spec(owner),
            r.owner_identity() == owner.identity(),
    ;
}

impl<'a, T: ForeignObject> Sealed for &'a T {

}

/// The bare-reference shape: the capability tag is stripped. Sound precisely
/// because producing the typed foreign reference already establishes, per the
/// foreign runtime's documented threading rules, that no unsynchronized
/// concurrent access to the owner occurs for the duration of the call.
impl<'a, T: ForeignObject, A: ThreadAccess> OwnerArg<'a, T, A> for &'a T {
    open spec fn owner_identity(self) -> u64 {
        self.identity()
    }

    open spec fn from_spec(owner: TRef<'a, T, A>) -> Self {
        owner.target()
    }

    fn from_safe_ref(owner: TRef<'a, T, A>) -> (r: Self) {
        owner.as_ref()
    }
}

impl<'a, T: ForeignObject, A: ThreadAccess> Sealed for TRef<'a, T, A> {

}

/// The typed-reference shape: the identity conversion, available under every
/// capability tag, since the result keeps the tag and lets the handler make
/// its own runtime-safety argument.
impl<'a, T: ForeignObject, A: ThreadAccess> OwnerArg<'a, T, A> for TRef<'a, T, A> {
    open spec fn owner_identity(self) -> u64 {
        self.identity()
    }

    open spec fn from_spec(owner: TRef<'a, T, A>) -> Self {
        owner
    }

    fn from_safe_ref(owner: TRef<'a, T, A>) -> (r: Self) {
        owner
    }
}

/// Converting a typed reference to the typed-reference shape is the identity:
/// the result is the input, same target, same identity, same tag, under every
/// capability tag.
pub proof fn lemma_typed_shape_identity_preserving<'a, T: ForeignObject, A: ThreadAccess>(
    owner: TRef<'a, T, A>,
)
    ensures
        <TRef<'a, T, A> as OwnerArg<'a, T, A>>::from_spec(owner) == owner,
        <TRef<'a, T, A> as OwnerArg<'a, T, A>>::from_spec(owner).identity() == owner.identity(),
        <TRef<'a, T, A> as OwnerArg<'a, T, A>>::from_spec(owner).tag() == owner.tag(),
{
}

/// Converting a typed reference to the bare-reference shape strips the tag
/// and nothing else: the result is the reference's own target, so it refers
/// to the same identity, under every capability tag.
pub proof fn lemma_bare_shape_preserves_identity<'a, T: ForeignObject, A: ThreadAccess>(
    owner: TRef<'a, T, A>,
)
    ensures
        <&'a T as OwnerArg<'a, T, A>>::from_spec(owner) == owner.target(),
        <&'a T as OwnerArg<'a, T, A>>::from_spec(owner).identity() == owner.identity(),
{
}

} // verus!
