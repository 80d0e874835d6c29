//! Which entity each body of the physics stands for, and the other way
//! round.

use std::collections::HashMap;
use vstd::prelude::*;
use vstd::std_specs::hash::*;

verus! {

/// Whether no two handles stand for one entity.
pub open spec fn one_handle_each(table: Map<u128, u64>) -> bool {
    forall|a: u128, b: u128|
        table.contains_key(a) && table.contains_key(b) && table[a] == table[b] ==> a == b
}

/// The table without the handles that stand for `entity`.
pub open spec fn without_entity(table: Map<u128, u64>, entity: u64) -> Map<u128, u64> {
    Map::new(|handle: u128| table.contains_key(handle) && table[handle] != entity, |handle: u128|
        table[handle])
}

/// The table in which `handle` stands for `entity`, and nothing else does,
/// nor `handle` for anything else.
pub open spec fn bound(table: Map<u128, u64>, handle: u128, entity: u64) -> Map<u128, u64> {
    without_entity(table, entity).insert(handle, entity)
}

/// The handles of the bodies of the physics and the entities that they
/// stand for. A handle stands for one entity and an entity has one handle.
pub struct Registry {
    by_handle: HashMap<u128, u64>,
    by_entity: HashMap<u64, u128>,
}

impl View for Registry {
    type V = Map<u128, u64>;

    /// The entity of each handle.
    closed spec fn view(&self) -> Map<u128, u64> {
        self.by_handle@
    }
}

impl Registry {
    #[verifier::type_invariant]
    spec fn mirrored(self) -> bool {
        &&& forall|handle: u128| #[trigger]
            self.by_handle@.contains_key(handle) ==> self.by_entity@.contains_key(
                self.by_handle@[handle],
            ) && self.by_entity@[self.by_handle@[handle]] == handle
        &&& forall|entity: u64| #[trigger]
            self.by_entity@.contains_key(entity) ==> self.by_handle@.contains_key(
                self.by_entity@[entity],
            ) && self.by_handle@[self.by_entity@[entity]] == entity
    }

    /// An empty table.
    pub fn new() -> (registry: Registry)
        ensures
            registry@ == Map::<u128, u64>::empty(),
    {
        Registry { by_handle: HashMap::new(), by_entity: HashMap::new() }
    }

    /// The entity that `handle` stands for, if it stands for one. A handle
    /// that is no longer known stands for none.
    pub fn entity_of(&self, handle: u128) -> (entity: Option<u64>)
        ensures
            entity == if self@.contains_key(handle) {
                Some(self@[handle])
            } else {
                None
            },
            one_handle_each(self@),
    {
        broadcast use group_hash_axioms;

        proof {
            use_type_invariant(self);
        }
        match self.by_handle.get(&handle) {
            Some(entity) => Some(*entity),
            None => None,
        }
    }

    /// The handle that stands for `entity`, if one does.
    pub fn handle_of(&self, entity: u64) -> (handle: Option<u128>)
        ensures
            match handle {
                Some(found) => self@.contains_key(found) && self@[found] == entity,
                None => forall|other: u128| self@.contains_key(other) ==> self@[other] != entity,
            },
    {
        broadcast use group_hash_axioms;

        proof {
            use_type_invariant(self);
        }
        match self.by_entity.get(&entity) {
            Some(handle) => Some(*handle),
            None => None,
        }
    }

    /// Lets `handle` stand for `entity`. What `handle` stood for before, and
    /// what stood for `entity` before, is forgotten.
    pub fn bind(&mut self, handle: u128, entity: u64)
        ensures
            final(self)@ == bound(old(self)@, handle, entity),
            one_handle_each(final(self)@),
    {
        broadcast use group_hash_axioms;

        let mut taken = Registry::new();
        core::mem::swap(self, &mut taken);
        proof {
            use_type_invariant(&taken);
        }
        let mut by_handle = taken.by_handle;
        let mut by_entity = taken.by_entity;
        let former = match by_entity.get(&entity) {
            Some(former) => Some(*former),
            None => None,
        };
        match former {
            Some(former) => {
                by_handle.remove(&former);
            },
            None => {},
        }
        let displaced = match by_handle.get(&handle) {
            Some(displaced) => Some(*displaced),
            None => None,
        };
        match displaced {
            Some(displaced) => {
                by_entity.remove(&displaced);
            },
            None => {},
        }
        by_handle.insert(handle, entity);
        by_entity.insert(entity, handle);
        *self = Registry { by_handle, by_entity };
    }

    /// Forgets `entity` and the handle that stood for it.
    pub fn release(&mut self, entity: u64)
        ensures
            final(self)@ == without_entity(old(self)@, entity),
            one_handle_each(final(self)@),
    {
        broadcast use group_hash_axioms;

        let mut taken = Registry::new();
        core::mem::swap(self, &mut taken);
        proof {
            use_type_invariant(&taken);
        }
        let mut by_handle = taken.by_handle;
        let mut by_entity = taken.by_entity;
        let former = match by_entity.get(&entity) {
            Some(former) => Some(*former),
            None => None,
        };
        match former {
            Some(former) => {
                by_handle.remove(&former);
                by_entity.remove(&entity);
            },
            None => {},
        }
        *self = Registry { by_handle, by_entity };
    }

    /// The number of bodies known.
    pub fn len(&self) -> (n: usize)
        ensures
            n == self@.dom().len(),
    {
        broadcast use group_hash_axioms;

        self.by_handle.len()
    }
}

/// A handle that was bound stands for its entity, nothing else stands for
/// that entity, and every other binding is as it was unless it was to the
/// same entity. A released entity has no handle left, and the others keep
/// theirs.
pub proof fn lemma_bindings(table: Map<u128, u64>, handle: u128, entity: u64, other: u128)
    requires
        other != handle,
    ensures
        bound(table, handle, entity).contains_key(handle),
        bound(table, handle, entity)[handle] == entity,
        bound(table, handle, entity).contains_key(other) <==> table.contains_key(other)
            && table[other] != entity,
        bound(table, handle, entity).contains_key(other) ==> bound(table, handle, entity)[other]
            == table[other],
        without_entity(table, entity).contains_key(other) <==> table.contains_key(other)
            && table[other] != entity,
        !without_entity(table, entity).contains_key(other) || without_entity(
            table,
            entity,
        )[other] == table[other],
{
}

} // verus!
