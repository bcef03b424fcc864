//! The registration builder: the external collaborator that records, keyed by
//! class name, the properties and methods a class exports.
//!
//! Property registration is idempotent: a property name already recorded is
//! not recorded again, so running a class's registration twice in one library
//! load leaves the entries unchanged (see
//! [`lemma_register_all_idempotent`]). Method registration preserves the
//! order in which methods are registered; ordering between classes is
//! unspecified and nothing here may rely on it.

use core::marker::PhantomData;
use vstd::prelude::*;

verus! {

/// What one property registration leaves in the recorded entries: the name is
/// appended only when it is not already present.
pub open spec fn insert_unique(entries: Seq<Seq<char>>, name: Seq<char>) -> Seq<Seq<char>> {
    if entries.contains(name) {
        entries
    } else {
        entries.push(name)
    }
}

/// What registering `names` in order leaves in the recorded entries.
pub open spec fn register_all(entries: Seq<Seq<char>>, names: Seq<Seq<char>>) -> Seq<Seq<char>>
    decreases names.len(),
{
    if names.len() == 0 {
        entries
    } else {
        register_all(insert_unique(entries, names[0]), names.skip(1))
    }
}

/// A name present before a registration is still present after it.
pub proof fn lemma_register_all_preserves(
    entries: Seq<Seq<char>>,
    names: Seq<Seq<char>>,
    name: Seq<char>,
)
    requires
        entries.contains(name),
    ensures
        register_all(entries, names).contains(name),
    decreases names.len(),
{
    if names.len() != 0 {
        if !entries.contains(names[0]) {
            assert(entries.push(names[0]).contains(name)) by {
                let i = choose|i: int| 0 <= i < entries.len() && entries[i] == name;
                assert(entries.push(names[0])[i] == name);
            }
        }
        lemma_register_all_preserves(insert_unique(entries, names[0]), names.skip(1), name);
    }
}

/// After a registration, every registered name is present.
pub proof fn lemma_register_all_contains_names(
    entries: Seq<Seq<char>>,
    names: Seq<Seq<char>>,
    i: int,
)
    requires
        0 <= i < names.len(),
    ensures
        register_all(entries, names).contains(names[i]),
    decreases names.len(),
{
    let stepped = insert_unique(entries, names[0]);
    if i == 0 {
        assert(stepped.contains(names[0])) by {
            if !entries.contains(names[0]) {
                assert(entries.push(names[0])[entries.len() as int] == names[0]);
            }
        }
        lemma_register_all_preserves(stepped, names.skip(1), names[0]);
    } else {
        lemma_register_all_contains_names(stepped, names.skip(1), i - 1);
        assert(names.skip(1)[i - 1] == names[i]);
    }
}

/// Registering names that are all present already changes nothing.
pub proof fn lemma_register_all_noop(entries: Seq<Seq<char>>, names: Seq<Seq<char>>)
    requires
        forall|i: int| 0 <= i < names.len() ==> entries.contains(#[trigger] names[i]),
    ensures
        register_all(entries, names) == entries,
    decreases names.len(),
{
    if names.len() != 0 {
        assert(entries.contains(names[0]));
        assert(forall|i: int|
            0 <= i < names.skip(1).len() ==> entries.contains(#[trigger] names.skip(1)[i]));
        lemma_register_all_noop(entries, names.skip(1));
    }
}

/// Property registration is idempotent: registering the same names a second
/// time leaves the recorded entries exactly as the first registration left
/// them.
pub proof fn lemma_register_all_idempotent(entries: Seq<Seq<char>>, names: Seq<Seq<char>>)
    ensures
        register_all(register_all(entries, names), names) == register_all(entries, names),
{
    let once = register_all(entries, names);
    assert forall|i: int| 0 <= i < names.len() implies once.contains(#[trigger] names[i]) by {
        lemma_register_all_contains_names(entries, names, i);
    }
    lemma_register_all_noop(once, names);
}

/// No entry occurs twice.
pub open spec fn no_duplicates(entries: Seq<Seq<char>>) -> bool {
    forall|i: int, j: int| 0 <= i < j < entries.len() ==> entries[i] != entries[j]
}

/// One registration never duplicates an entry: entries without duplicates
/// stay without duplicates.
pub proof fn lemma_insert_unique_no_duplicates(entries: Seq<Seq<char>>, name: Seq<char>)
    requires
        no_duplicates(entries),
    ensures
        no_duplicates(insert_unique(entries, name)),
{
    if !entries.contains(name) {
        let stepped = entries.push(name);
        assert forall|i: int, j: int|
            0 <= i < j < stepped.len() implies stepped[i] != stepped[j] by {
            if j == entries.len() {
                assert(stepped[i] == entries[i]);
                if entries[i] == name {
                    assert(entries.contains(name));
                }
            }
        }
    }
}

/// A registration never duplicates an entry: entries without duplicates stay
/// without duplicates.
pub proof fn lemma_register_all_no_duplicates(entries: Seq<Seq<char>>, names: Seq<Seq<char>>)
    requires
        no_duplicates(entries),
    ensures
        no_duplicates(register_all(entries, names)),
    decreases names.len(),
{
    if names.len() != 0 {
        let stepped = insert_unique(entries, names[0]);
        lemma_insert_unique_no_duplicates(entries, names[0]);
        lemma_register_all_no_duplicates(stepped, names.skip(1));
    }
}

/// The registration builder for one class: records the class's exported
/// properties and methods, keyed by the class name. Available only after
/// library initialization; the driver that enforces that precondition stands
/// outside this crate.
#[verifier::reject_recursive_types(C)]
pub struct ClassBuilder<C> {
    class_name: String,
    properties: Vec<String>,
    methods: Vec<String>,
    class: PhantomData<C>,
}

impl<C> ClassBuilder<C> {
    /// The name of the class this builder records entries for.
    pub closed spec fn class_name_spec(self) -> Seq<char> {
        self.class_name@
    }

    /// The recorded property names, in first-registration order.
    pub closed spec fn properties(self) -> Seq<Seq<char>> {
        self.properties@.map_values(|s: String| s@)
    }

    /// The recorded method names, in registration order.
    pub closed spec fn methods(self) -> Seq<Seq<char>> {
        self.methods@.map_values(|s: String| s@)
    }

    /// An empty builder keyed by `class_name`.
    pub fn new(class_name: String) -> (b: Self)
        ensures
            b.class_name_spec() == class_name@,
            b.properties() == Seq::<Seq<char>>::empty(),
            b.methods() == Seq::<Seq<char>>::empty(),
    {
        let b = ClassBuilder {
            class_name,
            properties: Vec::new(),
            methods: Vec::new(),
            class: PhantomData,
        };
        proof {
            assert(b.properties() =~= Seq::<Seq<char>>::empty());
            assert(b.methods() =~= Seq::<Seq<char>>::empty());
        }
        b
    }

    /// Whether `name` occurs in `list`.
    fn contains_name(list: &Vec<String>, name: &String) -> (r: bool)
        ensures
            r == list@.map_values(|s: String| s@).contains(name@),
    {
        let ghost views = list@.map_values(|s: String| s@);
        let mut i: usize = 0;
        while i < list.len()
            invariant
                i <= list@.len(),
                views == list@.map_values(|s: String| s@),
                forall|j: int| 0 <= j < i ==> views[j] != name@,
            decreases list@.len() - i,
        {
            if list[i] == *name {
                proof {
                    assert(views[i as int] == name@);
                }
                return true;
            }
            i = i + 1;
        }
        false
    }

    /// Record a property export. A name already recorded is not recorded
    /// again, so repeating a registration cannot duplicate entries.
    pub fn add_property(&mut self, name: String)
        ensures
            final(self).properties() == insert_unique(old(self).properties(), name@),
            final(self).methods() == old(self).methods(),
            final(self).class_name_spec() == old(self).class_name_spec(),
            no_duplicates(old(self).properties()) ==> no_duplicates(final(self).properties()),
    {
        proof {
            if no_duplicates(self.properties()) {
                lemma_insert_unique_no_duplicates(self.properties(), name@);
            }
        }
        let present = Self::contains_name(&self.properties, &name);
        if !present {
            let ghost before = self.properties@;
            self.properties.push(name);
            proof {
                assert(self.properties() =~= before.map_values(|s: String| s@).push(name@));
            }
        }
    }

    /// Record a method export. Methods are recorded in registration order.
    pub fn add_method(&mut self, name: String)
        ensures
            final(self).methods() == old(self).methods().push(name@),
            final(self).properties() == old(self).properties(),
            final(self).class_name_spec() == old(self).class_name_spec(),
    {
        let ghost before = self.methods@;
        self.methods.push(name);
        proof {
            assert(self.methods() =~= before.map_values(|s: String| s@).push(name@));
        }
    }

    /// How many property entries are recorded.
    pub fn property_count(&self) -> (n: usize)
        ensures
            n == self.properties().len(),
    {
        self.properties.len()
    }

    /// How many method entries are recorded.
    pub fn method_count(&self) -> (n: usize)
        ensures
            n == self.methods().len(),
    {
        self.methods.len()
    }

    /// The recorded property name at position `i`.
    pub fn property_at(&self, i: usize) -> (name: &String)
        requires
            i < self.properties().len(),
        ensures
            name@ == self.properties()[i as int],
    {
        &self.properties[i]
    }

    /// The recorded method name at position `i`.
    pub fn method_at(&self, i: usize) -> (name: &String)
        requires
            i < self.methods().len(),
        ensures
            name@ == self.methods()[i as int],
    {
        &self.methods[i]
    }

    /// The class name this builder is keyed by.
    pub fn class_name(&self) -> (r: &String)
        ensures
            r@ == self.class_name_spec(),
    {
        &self.class_name
    }
}

} // verus!
