use wotm::registry::Registry;

#[test]
fn a_new_registry_knows_nothing() {
    let registry = Registry::new();
    assert_eq!(registry.len(), 0);
    assert_eq!(registry.entity_of(1), None);
    assert_eq!(registry.handle_of(1), None);
}

#[test]
fn a_bound_handle_stands_for_its_entity() {
    let mut registry = Registry::new();
    registry.bind(100, 1);
    registry.bind(200, 2);
    assert_eq!(registry.entity_of(100), Some(1));
    assert_eq!(registry.entity_of(200), Some(2));
    assert_eq!(registry.handle_of(1), Some(100));
    assert_eq!(registry.handle_of(2), Some(200));
    assert_eq!(registry.entity_of(300), None);
    assert_eq!(registry.handle_of(3), None);
    assert_eq!(registry.len(), 2);
}

#[test]
fn binding_again_forgets_what_was_bound_before() {
    let mut registry = Registry::new();
    registry.bind(100, 1);
    registry.bind(200, 2);
    registry.bind(100, 3);
    assert_eq!(registry.entity_of(100), Some(3));
    assert_eq!(registry.handle_of(1), None);
    assert_eq!(registry.handle_of(3), Some(100));
    assert_eq!(registry.len(), 2);
    registry.bind(300, 2);
    assert_eq!(registry.entity_of(200), None);
    assert_eq!(registry.entity_of(300), Some(2));
    assert_eq!(registry.handle_of(2), Some(300));
    assert_eq!(registry.len(), 2);
    registry.bind(100, 2);
    assert_eq!(registry.entity_of(100), Some(2));
    assert_eq!(registry.entity_of(300), None);
    assert_eq!(registry.handle_of(3), None);
    assert_eq!(registry.len(), 1);
}

#[test]
fn binding_the_same_pair_twice_changes_nothing() {
    let mut registry = Registry::new();
    registry.bind(100, 1);
    registry.bind(100, 1);
    assert_eq!(registry.entity_of(100), Some(1));
    assert_eq!(registry.handle_of(1), Some(100));
    assert_eq!(registry.len(), 1);
}

#[test]
fn a_released_entity_leaves_its_handle_stale() {
    let mut registry = Registry::new();
    registry.bind(100, 1);
    registry.bind(200, 2);
    registry.release(1);
    assert_eq!(registry.entity_of(100), None);
    assert_eq!(registry.handle_of(1), None);
    assert_eq!(registry.entity_of(200), Some(2));
    assert_eq!(registry.len(), 1);
    registry.release(1);
    registry.release(7);
    assert_eq!(registry.len(), 1);
}

#[test]
fn handles_and_entities_stay_paired() {
    let mut registry = Registry::new();
    for step in 0..200u64 {
        let handle = (step * 7 % 13) as u128 | ((step % 3) as u128) << 64;
        let entity = step * 5 % 11;
        if step % 4 == 3 {
            registry.release(entity);
        } else {
            registry.bind(handle, entity);
        }
        let mut known = 0;
        for entity in 0..11u64 {
            if let Some(handle) = registry.handle_of(entity) {
                assert_eq!(registry.entity_of(handle), Some(entity));
                known += 1;
            }
        }
        assert_eq!(registry.len(), known);
    }
}
