//! Minimal entity-component storage: a registry of entity identifiers and
//! arena-indexed dense component stores. Iteration over "entities having
//! components {A, B, C}" is written as a scan of identifiers checked for
//! presence in each required store.

use vstd::prelude::*;

verus! {

/// A stable entity identifier. Identifiers are allocated in increasing
/// order and never reused, which subsumes a generation counter: a handle
/// to a destroyed entity can never alias a later instance.
#[derive(Clone, Copy, Debug, PartialEq, Eq, Structural, Hash)]
pub struct Entity {
    pub idx: usize,
}

/// The entity registry: which identifiers have been allocated and which of
/// them are still alive. The view is the sequence of liveness flags,
/// indexed by entity identifier.
pub struct Entities {
    alive: Vec<bool>,
}

impl View for Entities {
    type V = Seq<bool>;

    closed spec fn view(&self) -> Seq<bool> {
        self.alive@
    }
}

impl Entities {
    /// Whether identifier `e` has been allocated and is still alive.
    pub open spec fn spec_is_alive(self, e: int) -> bool {
        0 <= e < self@.len() && self@[e]
    }

    /// An empty registry: no identifier allocated yet.
    pub fn new() -> (r: Entities)
        ensures
            r@ == Seq::<bool>::empty(),
    {
        Entities { alive: Vec::new() }
    }

    /// The number of identifiers allocated so far (alive or dead).
    pub fn len(&self) -> (r: usize)
        ensures
            r == self@.len(),
    {
        self.alive.len()
    }

    /// Whether `e` is a live entity.
    pub fn is_alive(&self, e: Entity) -> (r: bool)
        ensures
            r == self.spec_is_alive(e.idx as int),
    {
        e.idx < self.alive.len() && self.alive[e.idx]
    }

    /// Allocate a fresh entity. The new identifier is the next unused one.
    pub fn create(&mut self) -> (r: Entity)
        ensures
            final(self)@ == old(self)@.push(true),
            r.idx == old(self)@.len(),
    {
        let idx = self.alive.len();
        self.alive.push(true);
        Entity { idx }
    }

    /// Mark `e` dead. An identifier outside the allocated range is ignored.
    pub fn kill(&mut self, e: Entity)
        ensures
            final(self)@ == if e.idx < old(self)@.len() {
                old(self)@.update(e.idx as int, false)
            } else {
                old(self)@
            },
    {
        if e.idx < self.alive.len() {
            self.alive[e.idx] = false;
        }
    }
}

/// A dense component store for one component type, indexed by entity
/// identifier. The view is the partial map from identifier to component.
pub struct Store<T> {
    slots: Vec<Option<T>>,
}

impl<T> View for Store<T> {
    type V = Map<int, T>;

    closed spec fn view(&self) -> Map<int, T> {
        Map::new(
            |i: int| 0 <= i < self.slots@.len() && self.slots@[i] is Some,
            |i: int| self.slots@[i]->0,
        )
    }
}

impl<T> Store<T> {
    /// An empty store.
    pub fn new() -> (r: Store<T>)
        ensures
            r@ == Map::<int, T>::empty(),
    {
        let r = Store { slots: Vec::new() };
        proof {
            assert(r@ =~= Map::<int, T>::empty());
        }
        r
    }

    /// Whether entity `e` has this component.
    pub fn contains(&self, e: Entity) -> (r: bool)
        ensures
            r == self@.dom().contains(e.idx as int),
    {
        e.idx < self.slots.len() && self.slots[e.idx].is_some()
    }

    /// The component of entity `e`, if present.
    pub fn get(&self, e: Entity) -> (r: Option<&T>)
        ensures
            match r {
                Some(v) => self@.dom().contains(e.idx as int) && *v == self@[e.idx as int],
                None => !self@.dom().contains(e.idx as int),
            },
    {
        if e.idx < self.slots.len() {
            match &self.slots[e.idx] {
                Some(v) => Some(v),
                None => None,
            }
        } else {
            None
        }
    }

    /// Insert (or replace) the component of entity `e`.
    pub fn insert(&mut self, e: Entity, v: T)
        ensures
            final(self)@ == old(self)@.insert(e.idx as int, v),
    {
        while self.slots.len() <= e.idx
            invariant
                old(self).slots@.len() <= self.slots@.len(),
                forall|i: int|
                    0 <= i < old(self).slots@.len() ==> self.slots@[i] == old(self).slots@[i],
                forall|i: int|
                    old(self).slots@.len() <= i < self.slots@.len() ==> self.slots@[i] is None,
            decreases e.idx - self.slots@.len() + 1,
        {
            self.slots.push(None);
        }
        self.slots[e.idx] = Some(v);
        proof {
            assert(final(self)@ =~= old(self)@.insert(e.idx as int, v));
        }
    }

    /// Remove the component of entity `e`, if present.
    pub fn remove(&mut self, e: Entity)
        ensures
            final(self)@ == old(self)@.remove(e.idx as int),
    {
        if e.idx < self.slots.len() {
            self.slots[e.idx] = None;
        }
        proof {
            assert(final(self)@ =~= old(self)@.remove(e.idx as int));
        }
    }
}

} // verus!
