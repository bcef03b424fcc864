//! Reference classes exercising the class descriptor contract.
//!
//! [`Widget`] is a foreign base type under the runtime's management.
//! [`Counter`] is a script class with a zero-argument constructor: its payload
//! can be built by the runtime against a fresh owner. [`Preset`] is
//! intentionally constructible only through an explicit payload: its
//! zero-argument construction path reports the fatal configuration error
//! naming the class.

use crate::class::{ConfigError, NativeClass, NativeClassMethods};
use crate::instance::Instance;
use crate::object::{ForeignObject, Instantiable, Runtime, TRef};
use crate::ownership::{Shared, Unique};
use crate::registry::{insert_unique, register_all, ClassBuilder};
use vstd::prelude::*;
use vstd::string::StringExecFns;

verus! {

/// A foreign base object: nothing of it is visible here but its identity.
pub struct Widget {
    identity: u64,
}

impl ForeignObject for Widget {
    closed spec fn identity(&self) -> u64 {
        self.identity
    }

    fn id(&self) -> (r: u64) {
        self.identity
    }
}

impl Instantiable for Widget {
    fn construct(rt: &mut Runtime) -> (obj: Self) {
        let id = rt.fresh_id();
        Widget { identity: id }
    }
}

/// A script class with a zero-argument constructor: a counter seeded with the
/// identity of the owner it is attached to.
pub struct Counter {
    pub owner_identity: u64,
    pub count: u64,
}

impl NativeClass for Counter {
    type Base = Widget;

    open spec fn class_name_spec() -> Seq<char> {
        "Counter"@
    }

    open spec fn has_zero_arg_constructor() -> bool {
        true
    }

    open spec fn constructed(owner_identity: u64) -> Self {
        Counter { owner_identity, count: 0 }
    }

    open spec fn property_names() -> Seq<Seq<char>> {
        seq!["count"@]
    }

    fn class_name() -> (r: &'static str) {
        "Counter"
    }

    fn init(owner: TRef<'_, Widget, Shared>) -> (r: Result<Self, ConfigError>) {
        Ok(Counter { owner_identity: owner.id(), count: 0 })
    }

    fn register_properties(builder: &mut ClassBuilder<Self>) {
        let ghost before = builder.properties();
        builder.add_property(String::from_str("count"));
        proof {
            let names = Self::property_names();
            assert(names.skip(1).len() == 0);
            assert(register_all(insert_unique(before, names[0]), names.skip(1))
                == insert_unique(before, names[0]));
            assert(register_all(before, names) == insert_unique(before, "count"@));
        }
    }

    fn new_instance(rt: &mut Runtime) -> (r: Result<
        Instance<Self, Widget, Unique>,
        ConfigError,
    >) {
        let base = Widget::construct(rt);
        let owner: TRef<'_, Widget, Shared> = TRef::new(&base, Shared);
        match Self::init(owner) {
            Ok(payload) => Ok(Instance::attach(base, payload)),
            Err(e) => Err(e),
        }
    }

    fn emplace(self, rt: &mut Runtime) -> (inst: Instance<Self, Widget, Unique>) {
        Instance::emplace(self, rt)
    }
}

impl NativeClassMethods for Counter {
    open spec fn method_names() -> Seq<Seq<char>> {
        seq!["increment"@, "total"@]
    }

    fn register(builder: &mut ClassBuilder<Self>) {
        let ghost before = builder.methods();
        builder.add_method(String::from_str("increment"));
        builder.add_method(String::from_str("total"));
        proof {
            assert(before.push("increment"@).push("total"@) =~= before + Self::method_names());
        }
    }
}

/// A script class without a zero-argument constructor: instances exist only
/// through an explicit payload, and the zero-argument construction path is
/// the fatal configuration error naming the class.
pub struct Preset {
    pub value: u64,
}

impl NativeClass for Preset {
    type Base = Widget;

    open spec fn class_name_spec() -> Seq<char> {
        "Preset"@
    }

    open spec fn has_zero_arg_constructor() -> bool {
        false
    }

    open spec fn constructed(owner_identity: u64) -> Self {
        Preset { value: 0 }
    }

    open spec fn property_names() -> Seq<Seq<char>> {
        Seq::empty()
    }

    fn class_name() -> (r: &'static str) {
        "Preset"
    }

    fn init(_owner: TRef<'_, Widget, Shared>) -> (r: Result<Self, ConfigError>) {
        Err(ConfigError::missing_constructor(Self::class_name()))
    }

    fn register_properties(builder: &mut ClassBuilder<Self>) {
        proof {
            assert(register_all(old(builder).properties(), Self::property_names())
                == old(builder).properties());
        }
    }

    fn new_instance(rt: &mut Runtime) -> (r: Result<
        Instance<Self, Widget, Unique>,
        ConfigError,
    >) {
        let base = Widget::construct(rt);
        let owner: TRef<'_, Widget, Shared> = TRef::new(&base, Shared);
        match Self::init(owner) {
            Ok(payload) => Ok(Instance::attach(base, payload)),
            Err(e) => Err(e),
        }
    }

    fn emplace(self, rt: &mut Runtime) -> (inst: Instance<Self, Widget, Unique>) {
        Instance::emplace(self, rt)
    }
}

} // verus!
