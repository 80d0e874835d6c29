//! Finding a thing in a list by the name of its entity.

use vstd::prelude::*;

verus! {

/// Something in play, known by the `u64` that names its entity.
pub trait Named {
    /// The name of the entity.
    spec fn name(&self) -> u64;

    /// The name of the entity.
    fn entity(&self) -> (entity: u64)
        ensures
            entity == self.name(),
    ;
}

/// A bare name names itself.
impl Named for u64 {
    open spec fn name(&self) -> u64 {
        *self
    }

    fn entity(&self) -> (entity: u64) {
        *self
    }
}

/// Whether `i` is the place of the first of `items` named `entity`.
pub open spec fn first_at<T: Named>(items: Seq<T>, entity: u64, i: int) -> bool {
    &&& 0 <= i < items.len()
    &&& items[i].name() == entity
    &&& forall|j: int| 0 <= j < i ==> (#[trigger] items[j]).name() != entity
}

/// The place of the first of `items` named `entity`, if there is one.
pub open spec fn position<T: Named>(items: Seq<T>, entity: u64) -> Option<int> {
    if exists|i: int| first_at(items, entity, i) {
        Some(choose|i: int| first_at(items, entity, i))
    } else {
        None
    }
}

/// There is one first place at most, and none exactly where nothing has the
/// name.
pub proof fn lemma_position<T: Named>(items: Seq<T>, entity: u64)
    ensures
        forall|i: int| first_at(items, entity, i) <==> position(items, entity) == Some(i),
        position(items, entity) is None <==> forall|j: int|
            0 <= j < items.len() ==> (#[trigger] items[j]).name() != entity,
{
    if exists|j: int| 0 <= j < items.len() && (#[trigger] items[j]).name() == entity {
        let j = choose|j: int| 0 <= j < items.len() && (#[trigger] items[j]).name() == entity;
        lemma_first_exists(items, entity, j);
    }
}

proof fn lemma_first_exists<T: Named>(items: Seq<T>, entity: u64, j: int)
    requires
        0 <= j < items.len(),
        items[j].name() == entity,
    ensures
        exists|i: int| first_at(items, entity, i),
    decreases j,
{
    if exists|k: int| 0 <= k < j && (#[trigger] items[k]).name() == entity {
        let k = choose|k: int| 0 <= k < j && (#[trigger] items[k]).name() == entity;
        lemma_first_exists(items, entity, k);
    } else {
        assert(first_at(items, entity, j));
    }
}

/// Finds the first of `items` named `entity`.
pub fn find<T: Named>(items: &Vec<T>, entity: u64) -> (found: Option<usize>)
    ensures
        match found {
            Some(i) => position(items@, entity) == Some(i as int) && i < items.len(),
            None => position(items@, entity) is None,
        },
{
    let mut i: usize = 0;
    while i < items.len()
        invariant
            i <= items.len(),
            forall|j: int| 0 <= j < i ==> (#[trigger] items@[j]).name() != entity,
        decreases items.len() - i,
    {
        if items[i].entity() == entity {
            proof {
                assert(first_at(items@, entity, i as int));
            }
            return Some(i);
        }
        i += 1;
    }
    None
}

/// Whether `entity` is one of `entities`.
pub fn is_among(entities: &Vec<u64>, entity: u64) -> (found: bool)
    ensures
        found == entities@.contains(entity),
{
    let mut i: usize = 0;
    while i < entities.len()
        invariant
            i <= entities.len(),
            forall|j: int| 0 <= j < i ==> entities@[j] != entity,
        decreases entities.len() - i,
    {
        if entities[i] == entity {
            return true;
        }
        i += 1;
    }
    false
}

} // verus!
