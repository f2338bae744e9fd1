use jumpy_core::components::Item;
use jumpy_core::ecs::{Entities, Entity, Store};

#[test]
fn entities_allocate_increasing_ids() {
    let mut entities = Entities::new();
    let a = entities.create();
    let b = entities.create();
    assert_eq!(a.idx, 0);
    assert_eq!(b.idx, 1);
    assert_eq!(entities.len(), 2);
    assert!(entities.is_alive(a));
    assert!(entities.is_alive(b));
}

#[test]
fn killed_entities_stay_dead_and_ids_are_not_reused() {
    let mut entities = Entities::new();
    let a = entities.create();
    entities.kill(a);
    assert!(!entities.is_alive(a));
    let b = entities.create();
    assert_ne!(a.idx, b.idx);
    assert!(!entities.is_alive(a));
    assert!(entities.is_alive(b));
}

#[test]
fn store_insert_get_remove() {
    let mut store: Store<Item> = Store::new();
    let e = Entity { idx: 5 };
    assert!(!store.contains(e));
    assert!(store.get(e).is_none());
    store.insert(e, Item);
    assert!(store.contains(e));
    assert!(store.get(e).is_some());
    // entities below the inserted id are still absent
    assert!(!store.contains(Entity { idx: 4 }));
    store.remove(e);
    assert!(!store.contains(e));
}
