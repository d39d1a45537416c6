//! The observable cell and the handle map beneath it.

use sycamore_query::handle_map::HandleMap;
use sycamore_query::listenable::Listenable;

#[test]
fn handle_map_issues_fresh_handles() {
    let mut m: HandleMap<u32> = HandleMap::new();
    assert_eq!(m.len(), 0);
    let h1 = m.insert(10);
    let h2 = m.insert(20);
    assert_ne!(h1, h2);
    assert_eq!(m.len(), 2);
    assert_eq!(*m.get(h1).unwrap(), 10);
    assert_eq!(*m.get(h2).unwrap(), 20);

    assert_eq!(m.remove(h1), Some(10));
    assert_eq!(m.len(), 1);
    assert!(m.get(h1).is_none());
    // removing again is harmless
    assert_eq!(m.remove(h1), None);
    assert_eq!(m.len(), 1);

    // a handle issued after a removal is still fresh
    let h3 = m.insert(30);
    assert_ne!(h3, h1);
    assert_ne!(h3, h2);
    assert_eq!(*m.get(h3).unwrap(), 30);
}

#[test]
fn listenable_set_replaces_and_returns_old() {
    let mut cell = Listenable::new(1_u32);
    assert_eq!(*cell.peek(), 1);
    let old = cell.set(2);
    assert_eq!(old, 1);
    assert_eq!(*cell.peek(), 2);
    // setting an equal value still replaces (and would still publish)
    let old2 = cell.set(2);
    assert_eq!(old2, 2);
    assert_eq!(cell.unwrap(), 2);
}

#[test]
fn listenable_tracks_subscriber_count() {
    let mut cell = Listenable::new(0_u32);
    assert_eq!(cell.count(), 0);
    let h1 = cell.add_listener();
    let h2 = cell.add_listener();
    assert_ne!(h1, h2);
    assert_eq!(cell.count(), 2);
    assert_eq!(cell.remove_listener(h1), 1);
    // removing an unknown handle changes nothing
    assert_eq!(cell.remove_listener(h1), 1);
    assert_eq!(cell.remove_listener(h2), 0);
    assert_eq!(cell.count(), 0);
}
