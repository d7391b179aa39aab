//! The entity registry: the descriptors of the registered entity types,
//! one per type, from which the CRUD routes are built.

use vstd::prelude::*;
use crate::text::str_eq;

verus! {

/// Position of the descriptor of the entity type `t`, if registered.
pub open spec fn type_index<D>(s: Seq<(String, D)>, t: Seq<char>) -> Option<int> {
    if exists|i: int| 0 <= i < s.len() && (#[trigger] s[i]).0@ == t {
        Some(choose|i: int| 0 <= i < s.len() && (#[trigger] s[i]).0@ == t)
    } else {
        None
    }
}

/// No entity type is described twice.
pub open spec fn types_distinct<D>(s: Seq<(String, D)>) -> bool {
    forall|i: int, j: int|
        0 <= i < s.len() && 0 <= j < s.len() && i != j ==> (#[trigger] s[i]).0@
            != (#[trigger] s[j]).0@
}

/// What registering the entry `d` (an entity type and its descriptor)
/// does to the entries: it replaces the entry of the same entity type, or
/// is added after the others.
pub open spec fn spec_register<D>(s: Seq<(String, D)>, d: (String, D)) -> Seq<(String, D)> {
    match type_index(s, d.0@) {
        Some(i) => s.update(i, d),
        None => s.push(d),
    }
}

/// The registered entity descriptors, keyed by entity type.
pub struct EntityRegistry<D> {
    descriptors: Vec<(String, D)>,
}

impl<D> EntityRegistry<D> {
    #[verifier::type_invariant]
    spec fn one_per_type(self) -> bool {
        types_distinct(self.descriptors@)
    }

    /// The registered entity types with their descriptors, in
    /// registration order.
    pub closed spec fn spec_descriptors(self) -> Seq<(String, D)> {
        self.descriptors@
    }

    /// An empty registry.
    pub fn new() -> (r: Self)
        ensures
            r.spec_descriptors() == Seq::<(String, D)>::empty(),
    {
        EntityRegistry { descriptors: Vec::new() }
    }

    fn position(&self, entity_type: &str) -> (r: Option<usize>)
        ensures
            match r {
                Some(i) => type_index(self.spec_descriptors(), entity_type@) == Some(i as int),
                None => type_index(self.spec_descriptors(), entity_type@) is None,
            },
    {
        proof {
            use_type_invariant(self);
        }
        let mut i: usize = 0;
        while i < self.descriptors.len()
            invariant
                i <= self.descriptors@.len(),
                types_distinct(self.descriptors@),
                forall|j: int|
                    0 <= j < i ==> (#[trigger] self.descriptors@[j]).0@ != entity_type@,
            decreases self.descriptors@.len() - i,
        {
            if str_eq(self.descriptors[i].0.as_str(), entity_type) {
                let ghost s = self.descriptors@;
                assert(s[i as int].0@ == entity_type@);
                let ghost k = choose|k: int| 0 <= k < s.len() && (#[trigger] s[k]).0@ == entity_type@;
                assert(k == i);
                return Some(i);
            }
            i = i + 1;
        }
        None
    }

    /// Register a descriptor under its entity type; a descriptor already
    /// registered for that type is replaced.
    pub fn register(&mut self, entity_type: String, descriptor: D)
        ensures
            final(self).spec_descriptors() == spec_register(
                old(self).spec_descriptors(),
                (entity_type, descriptor),
            ),
    {
        proof {
            use_type_invariant(&*self);
        }
        let pos = self.position(entity_type.as_str());
        let entry = (entity_type, descriptor);
        let mut v: Vec<(String, D)> = Vec::new();
        std::mem::swap(&mut v, &mut self.descriptors);
        let ghost s = v@;
        let ghost t = entry.0@;
        match pos {
            Some(i) => {
                assert(types_distinct(s.update(i as int, entry))) by {
                    let u = s.update(i as int, entry);
                    assert forall|a: int, b: int|
                        0 <= a < u.len() && 0 <= b < u.len() && a != b implies (#[trigger] u[a]).0@
                            != (#[trigger] u[b]).0@ by {
                        assert(s[i as int].0@ == t);
                        if a != i && b != i {
                            assert(u[a] == s[a] && u[b] == s[b]);
                        } else if a == i {
                            assert(u[b] == s[b]);
                            assert(s[b].0@ != s[i as int].0@);
                        } else {
                            assert(u[a] == s[a]);
                            assert(s[a].0@ != s[i as int].0@);
                        }
                    }
                }
                v.set(i, entry);
            },
            None => {
                assert(types_distinct(s.push(entry))) by {
                    let u = s.push(entry);
                    assert forall|a: int, b: int|
                        0 <= a < u.len() && 0 <= b < u.len() && a != b implies (#[trigger] u[a]).0@
                            != (#[trigger] u[b]).0@ by {
                        if a < s.len() && b < s.len() {
                            assert(u[a] == s[a] && u[b] == s[b]);
                        } else if a == s.len() {
                            assert(u[b] == s[b]);
                            if s[b].0@ == t {
                                assert(0 <= b < s.len() && s[b].0@ == t);
                            }
                        } else {
                            assert(u[a] == s[a]);
                            if s[a].0@ == t {
                                assert(0 <= a < s.len() && s[a].0@ == t);
                            }
                        }
                    }
                }
                v.push(entry);
            },
        }
        self.descriptors = v;
    }

    /// The registered entity types, in registration order.
    pub fn entity_types(&self) -> (r: Vec<String>)
        ensures
            r@.len() == self.spec_descriptors().len(),
            forall|i: int| 0 <= i < r@.len() ==> #[trigger] r@[i]@ == self.spec_descriptors()[i].0@,
    {
        let mut out: Vec<String> = Vec::new();
        let mut i: usize = 0;
        while i < self.descriptors.len()
            invariant
                i <= self.descriptors@.len(),
                out@.len() == i,
                forall|k: int| 0 <= k < i ==> #[trigger] out@[k]@ == self.descriptors@[k].0@,
            decreases self.descriptors@.len() - i,
        {
            out.push(self.descriptors[i].0.clone());
            i = i + 1;
        }
        out
    }

    /// The descriptor of an entity type, if registered.
    pub fn get(&self, entity_type: &str) -> (r: Option<&D>)
        ensures
            match type_index(self.spec_descriptors(), entity_type@) {
                Some(i) => r == Some(&self.spec_descriptors()[i].1),
                None => r is None,
            },
    {
        match self.position(entity_type) {
            Some(i) => Some(&self.descriptors[i].1),
            None => None,
        }
    }

    /// How many entity types are registered.
    pub fn len(&self) -> (r: usize)
        ensures
            r == self.spec_descriptors().len(),
    {
        self.descriptors.len()
    }
}

/// After registering a descriptor its entity type is found, with that
/// descriptor; registering a type already present keeps the number of
/// entity types, a new one adds one; the other types keep their
/// descriptors.
pub proof fn law_register_then_get<D>(s: Seq<(String, D)>, d: (String, D))
    requires
        types_distinct(s),
    ensures
        type_index(spec_register(s, d), d.0@) matches Some(i) && spec_register(s, d)[i] == d,
        spec_register(s, d).len() == (if type_index(s, d.0@) is Some {
            s.len()
        } else {
            s.len() + 1
        }),
        forall|t: Seq<char>|
            t != d.0@ ==> match #[trigger] type_index(s, t) {
                Some(i) => type_index(spec_register(s, d), t) matches Some(j) && spec_register(s, d)[j]
                    == s[i],
                None => type_index(spec_register(s, d), t) is None,
            },
{
    let t0 = d.0@;
    let u = spec_register(s, d);
    match type_index(s, t0) {
        Some(i) => {
            assert(u[i] == d);
            assert(0 <= i < u.len() && u[i].0@ == t0);
        },
        None => {
            assert(u[s.len() as int] == d);
            assert(0 <= s.len() < u.len() && u[s.len() as int].0@ == t0);
        },
    }
    let k0 = choose|k: int| 0 <= k < u.len() && (#[trigger] u[k]).0@ == t0;
    assert(u[k0] == d) by {
        match type_index(s, t0) {
            Some(i) => {
                if k0 != i {
                    assert(u[k0] == s[k0]);
                    assert(s[k0].0@ == t0);
                    assert(s[i].0@ == t0);
                }
            },
            None => {
                if k0 < s.len() {
                    assert(u[k0] == s[k0]);
                    assert(0 <= k0 < s.len() && s[k0].0@ == t0);
                }
            },
        }
    }
    assert forall|t: Seq<char>| t != t0 implies match #[trigger] type_index(s, t) {
        Some(i) => type_index(u, t) matches Some(j) && u[j] == s[i],
        None => type_index(u, t) is None,
    } by {
        match type_index(s, t) {
            Some(i) => {
                assert(s[i].0@ == t);
                assert(u[i] == s[i]) by {
                    match type_index(s, t0) {
                        Some(m) => {
                            assert(s[m].0@ == t0);
                        },
                        None => {},
                    }
                }
                assert(0 <= i < u.len() && u[i].0@ == t);
                let j = choose|k: int| 0 <= k < u.len() && (#[trigger] u[k]).0@ == t;
                if j != i {
                    if j < s.len() {
                        assert(u[j] == s[j] || u[j] == d);
                        if u[j] == d {
                            assert(d.0@ == t);
                        } else {
                            assert(s[j].0@ == t);
                        }
                    } else {
                        assert(u[j] == d);
                    }
                }
            },
            None => {
                if exists|k: int| 0 <= k < u.len() && (#[trigger] u[k]).0@ == t {
                    let k = choose|k: int| 0 <= k < u.len() && (#[trigger] u[k]).0@ == t;
                    if k < s.len() {
                        assert(u[k] == s[k] || u[k] == d);
                        if u[k] == s[k] {
                            assert(0 <= k < s.len() && s[k].0@ == t);
                        }
                    } else {
                        assert(u[k] == d);
                    }
                }
            },
        }
    }
}

} // verus!
