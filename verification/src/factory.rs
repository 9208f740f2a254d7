//! A registry of card constructors, looked up by vendor or by name.

use vstd::prelude::*;
use crate::error::{MotionError, Result};
use crate::models::{CardVendor, law_registry_keys_distinct, spec_registry_key};

verus! {

/// A registry of card constructors under names; `F` is the type of a
/// constructor. Registering under a name that is taken replaces the
/// constructor.
pub struct CardFactory<F> {
    registry: Vec<(String, F)>,
    names: Ghost<Map<Seq<char>, F>>,
}

/// The message of the error for a vendor whose card nobody registered.
pub open spec fn unregistered_vendor_message(key: Seq<char>) -> Seq<char> {
    "未注册板卡 '"@ + key + "', 请检查依赖或手动注册"@
}

/// The message of the error for an unknown card name.
pub open spec fn unknown_card_message(name: Seq<char>) -> Seq<char> {
    "未知板卡: "@ + name
}

impl<F> View for CardFactory<F> {
    /// The constructor registered under each name.
    type V = Map<Seq<char>, F>;

    closed spec fn view(&self) -> Map<Seq<char>, F> {
        self.names@
    }
}

/// Looking a name up right after registering a constructor under it gives
/// that constructor; every other name keeps what it had.
pub proof fn law_lookup_after_register<F>(
    registry: Map<Seq<char>, F>,
    name: Seq<char>,
    factory_fn: F,
    other: Seq<char>,
)
    ensures
        registry.insert(name, factory_fn).contains_key(name),
        registry.insert(name, factory_fn)[name] == factory_fn,
        other != name ==> (registry.insert(name, factory_fn).contains_key(other)
            == registry.contains_key(other)),
        other != name && registry.contains_key(other) ==> registry.insert(name, factory_fn)[other]
            == registry[other],
{
}

/// Creating a vendor's card looks up the same entry as creating by the
/// vendor's registry key: registering under that key makes `create` find
/// the constructor, and registering other vendors does not disturb it.
pub proof fn law_create_uses_vendor_key<F>(
    registry: Map<Seq<char>, F>,
    vendor: CardVendor,
    factory_fn: F,
    other: CardVendor,
)
    ensures
        registry.insert(spec_registry_key(vendor), factory_fn).contains_key(
            spec_registry_key(vendor),
        ),
        registry.insert(spec_registry_key(vendor), factory_fn)[spec_registry_key(vendor)]
            == factory_fn,
        other != vendor ==> registry.insert(spec_registry_key(other), factory_fn).contains_key(
            spec_registry_key(vendor),
        ) == registry.contains_key(spec_registry_key(vendor)),
{
    if other != vendor {
        law_registry_keys_distinct(other, vendor);
    }
}

impl<F> Default for CardFactory<F> {
    fn default() -> (r: Self)
        ensures
            r@ == Map::<Seq<char>, F>::empty(),
    {
        Self::new()
    }
}

/// A list of entries is consistent with a map of names: every entry is
/// registered under its name, no name occurs twice, and every registered
/// name has an entry.
spec fn consistent<F>(registry: Seq<(String, F)>, names: Map<Seq<char>, F>) -> bool {
    &&& forall|i: int|
        0 <= i < registry.len() ==> #[trigger] names.contains_key(registry[i].0@)
            && names[registry[i].0@] == registry[i].1
    &&& forall|i: int, j: int|
        0 <= i < j < registry.len() ==> #[trigger] registry[i].0@ != #[trigger] registry[j].0@
    &&& forall|k: Seq<char>|
        #[trigger] names.contains_key(k) ==> exists|i: int|
            0 <= i < registry.len() && #[trigger] registry[i].0@ == k
}

impl<F> CardFactory<F> {
    /// The registry's inner consistency: every entry is registered under
    /// its name, no name occurs twice, and every registered name has an
    /// entry.
    #[verifier::type_invariant]
    spec fn wf(&self) -> bool {
        consistent(self.registry@, self.names@)
    }

    /// An empty registry.
    pub fn new() -> (r: Self)
        ensures
            r@ == Map::<Seq<char>, F>::empty(),
    {
        CardFactory { registry: Vec::new(), names: Ghost(Map::empty()) }
    }

    /// The position of the entry named `name`, if there is one.
    fn position(&self, name: &str) -> (r: Option<usize>)
        requires
            self.wf(),
        ensures
            match r {
                Some(i) => i < self.registry@.len() && self.registry@[i as int].0@ == name@,
                None => !self@.contains_key(name@),
            },
    {
        let key = name.to_owned();
        let mut i: usize = 0;
        while i < self.registry.len()
            invariant
                self.wf(),
                i <= self.registry@.len(),
                key@ == name@,
                forall|j: int| 0 <= j < i ==> #[trigger] self.registry@[j].0@ != name@,
            decreases self.registry@.len() - i,
        {
            if self.registry[i].0 == key {
                return Some(i);
            }
            i = i + 1;
        }
        None
    }

    /// Registers `factory_fn` under `name`, replacing any constructor
    /// registered under it before.
    pub fn register(&mut self, name: &str, factory_fn: F)
        ensures
            final(self)@ == old(self)@.insert(name@, factory_fn),
    {
        proof {
            use_type_invariant(&*self);
        }
        let position = self.position(name);
        let ghost reg_before = self.registry@;
        let ghost names_before = self.names@;
        let mut this: CardFactory<F> = CardFactory::new();
        std::mem::swap(&mut this, self);
        proof {
            use_type_invariant(&this);
        }
        let CardFactory { registry: mut registry, names } = this;
        let ghost old_registry = registry@;
        assert(old_registry == reg_before);
        assert(names@ == names_before);
        let ghost new_names = names@.insert(name@, factory_fn);
        match position {
            Some(i) => {
                registry.set(i, (name.to_owned(), factory_fn));
            },
            None => {
                registry.push((name.to_owned(), factory_fn));
            },
        }
        assert forall|k: Seq<char>| #[trigger] new_names.contains_key(k) implies exists|i: int|
            0 <= i < registry@.len() && #[trigger] registry@[i].0@ == k by {
            if k != name@ {
                let j = choose|j: int|
                    0 <= j < old_registry.len() && #[trigger] old_registry[j].0@ == k;
                assert(registry@[j].0@ == k);
            } else {
                let last = (registry@.len() - 1) as int;
                if names@.contains_key(name@) {
                    let j = choose|j: int|
                        0 <= j < old_registry.len() && #[trigger] old_registry[j].0@ == k;
                    assert(registry@[j].0@ == k);
                } else {
                    assert(registry@[last].0@ == k);
                }
            }
        }
        assert forall|i: int| 0 <= i < registry@.len() implies #[trigger] new_names.contains_key(
            registry@[i].0@,
        ) && new_names[registry@[i].0@] == registry@[i].1 by {
            if i < old_registry.len() && registry@[i] == old_registry[i] {
                assert(names@.contains_key(old_registry[i].0@));
            }
        }
        assert forall|i: int, j: int| 0 <= i < j < registry@.len() implies #[trigger] registry@[i].0@
            != #[trigger] registry@[j].0@ by {
            if j < old_registry.len() && registry@[j] == old_registry[j] && i < old_registry.len()
                && registry@[i] == old_registry[i] {
            } else if registry@[j].0@ == name@ {
                if i < old_registry.len() && registry@[i] == old_registry[i] {
                    assert(names@.contains_key(old_registry[i].0@));
                }
            } else {
                assert(registry@[i].0@ == name@);
                assert(names@.contains_key(old_registry[j].0@));
            }
        }
        assert(consistent(registry@, new_names));
        *self = CardFactory { registry, names: Ghost(new_names) };
    }

    /// The constructor registered under `name`.
    fn lookup(&self, name: &str) -> (r: Option<&F>)
        requires
            self.wf(),
        ensures
            match r {
                Some(f) => self@.contains_key(name@) && *f == self@[name@],
                None => !self@.contains_key(name@),
            },
    {
        match self.position(name) {
            Some(i) => {
                assert(self.names@.contains_key(self.registry@[i as int].0@));
                Some(&self.registry[i].1)
            },
            None => None,
        }
    }

    /// The constructor registered for `vendor`'s card, under the vendor's
    /// registry key; `UnsupportedVendor` where none is.
    pub fn create(&self, vendor: CardVendor) -> (r: Result<&F>)
        ensures
            match r {
                Ok(f) => self@.contains_key(spec_registry_key(vendor)) && *f == self@[spec_registry_key(
                    vendor,
                )],
                Err(e) => !self@.contains_key(spec_registry_key(vendor)) && (e matches MotionError::UnsupportedVendor(m)
                    && m@ == unregistered_vendor_message(spec_registry_key(vendor))),
            },
    {
        proof {
            use_type_invariant(self);
        }
        let key = vendor.registry_key();
        match self.lookup(key) {
            Some(f) => Ok(f),
            None => {
                let mut message = String::new();
                message.append("未注册板卡 '");
                message.append(key);
                message.append("', 请检查依赖或手动注册");
                assert(message@ =~= unregistered_vendor_message(key@));
                Err(MotionError::UnsupportedVendor(message))
            },
        }
    }

    /// The constructor registered under `name`; `UnsupportedVendor` where
    /// none is.
    pub fn create_by_name(&self, name: &str) -> (r: Result<&F>)
        ensures
            match r {
                Ok(f) => self@.contains_key(name@) && *f == self@[name@],
                Err(e) => !self@.contains_key(name@) && (e matches MotionError::UnsupportedVendor(m)
                    && m@ == unknown_card_message(name@)),
            },
    {
        proof {
            use_type_invariant(self);
        }
        match self.lookup(name) {
            Some(f) => Ok(f),
            None => {
                let mut message = String::new();
                message.append("未知板卡: ");
                message.append(name);
                assert(message@ =~= unknown_card_message(name@));
                Err(MotionError::UnsupportedVendor(message))
            },
        }
    }

    /// The registered names, each once.
    pub fn list_vendors(&self) -> (r: Vec<&str>)
        ensures
            forall|i: int| 0 <= i < r@.len() ==> self@.contains_key(#[trigger] r@[i]@),
            forall|k: Seq<char>| #[trigger] self@.contains_key(k) ==> exists|i: int|
                0 <= i < r@.len() && #[trigger] r@[i]@ == k,
            forall|i: int, j: int| 0 <= i < j < r@.len() ==> #[trigger] r@[i]@ != #[trigger] r@[j]@,
    {
        proof {
            use_type_invariant(self);
        }
        let mut r: Vec<&str> = Vec::new();
        let mut i: usize = 0;
        while i < self.registry.len()
            invariant
                self.wf(),
                i <= self.registry@.len(),
                r@.len() == i,
                forall|j: int| 0 <= j < i ==> #[trigger] r@[j]@ == self.registry@[j].0@,
            decreases self.registry@.len() - i,
        {
            r.push(self.registry[i].0.as_str());
            i = i + 1;
        }
        assert forall|k: Seq<char>| #[trigger] self@.contains_key(k) implies exists|i: int|
            0 <= i < r@.len() && #[trigger] r@[i]@ == k by {
            let j = choose|j: int| 0 <= j < self.registry@.len() && #[trigger] self.registry@[j].0@ == k;
            assert(r@[j]@ == k);
        }
        assert forall|i: int| 0 <= i < r@.len() implies self@.contains_key(#[trigger] r@[i]@) by {
            assert(r@[i]@ == self.registry@[i].0@);
        }
        assert forall|i: int, j: int| 0 <= i < j < r@.len() implies #[trigger] r@[i]@ != #[trigger] r@[j]@ by {
            assert(r@[i]@ == self.registry@[i].0@);
            assert(r@[j]@ == self.registry@[j].0@);
        }
        r
    }
}

} // verus!
