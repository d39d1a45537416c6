//! The weak association registry: rows live exactly as long as both of
//! their endpoints, whatever order the endpoints are created and destroyed
//! in.

use sycamore_query::weak_link::Registry;

#[test]
fn registry_insert_get_remove() {
    let mut reg: Registry<u32> = Registry::new();
    let l1 = reg.new_link();
    let l2 = reg.new_link();
    let t1 = reg.new_target();
    let t2 = reg.new_target();

    assert!(reg.is_link_alive(l1));
    assert!(reg.is_target_alive(t1));
    assert!(!reg.contains_row(l1, t1));
    assert!(reg.get(l1, t1).is_none());

    assert!(reg.insert(l1, t1, 11).is_none());
    assert!(reg.insert(l1, t2, 12).is_none());
    assert!(reg.insert(l2, t1, 21).is_none());

    assert_eq!(*reg.get(l1, t1).unwrap(), 11);
    assert_eq!(*reg.get(l1, t2).unwrap(), 12);
    assert_eq!(*reg.get(l2, t1).unwrap(), 21);
    assert!(reg.get(l2, t2).is_none());

    // replacing a row hands back the old value
    assert_eq!(reg.insert(l1, t1, 99), Some(11));
    assert_eq!(*reg.get(l1, t1).unwrap(), 99);

    assert_eq!(reg.remove(l1, t1), Some(99));
    assert!(reg.remove(l1, t1).is_none());
    assert!(!reg.contains_row(l1, t1));
    // the other rows are untouched
    assert_eq!(*reg.get(l1, t2).unwrap(), 12);
    assert_eq!(*reg.get(l2, t1).unwrap(), 21);
}

#[test]
fn registry_destroy_link_drops_only_its_rows() {
    let mut reg: Registry<u32> = Registry::new();
    let l1 = reg.new_link();
    let l2 = reg.new_link();
    let t1 = reg.new_target();
    let t2 = reg.new_target();
    reg.insert(l1, t1, 11);
    reg.insert(l1, t2, 12);
    reg.insert(l2, t1, 21);

    reg.destroy_link(l1);

    assert!(!reg.is_link_alive(l1));
    assert!(!reg.contains_row(l1, t1));
    assert!(!reg.contains_row(l1, t2));
    // the other link and both targets are unaffected
    assert!(reg.is_link_alive(l2));
    assert!(reg.is_target_alive(t1));
    assert!(reg.is_target_alive(t2));
    assert_eq!(*reg.get(l2, t1).unwrap(), 21);
}

#[test]
fn registry_destroy_target_drops_only_its_rows() {
    let mut reg: Registry<u32> = Registry::new();
    let l1 = reg.new_link();
    let l2 = reg.new_link();
    let t1 = reg.new_target();
    let t2 = reg.new_target();
    reg.insert(l1, t1, 11);
    reg.insert(l1, t2, 12);
    reg.insert(l2, t1, 21);

    reg.destroy_target(t1);

    assert!(!reg.is_target_alive(t1));
    assert!(!reg.contains_row(l1, t1));
    assert!(!reg.contains_row(l2, t1));
    assert!(reg.is_link_alive(l1));
    assert!(reg.is_link_alive(l2));
    assert!(reg.is_target_alive(t2));
    assert_eq!(*reg.get(l1, t2).unwrap(), 12);
}

#[test]
fn registry_cleanup_in_any_order() {
    // destroy the link first, then the target
    let mut reg: Registry<u32> = Registry::new();
    let l = reg.new_link();
    let t = reg.new_target();
    reg.insert(l, t, 7);
    reg.destroy_link(l);
    assert!(!reg.contains_row(l, t));
    reg.destroy_target(t);
    assert!(!reg.is_link_alive(l));
    assert!(!reg.is_target_alive(t));

    // destroy the target first, then the link
    let mut reg2: Registry<u32> = Registry::new();
    let l2 = reg2.new_link();
    let t2 = reg2.new_target();
    reg2.insert(l2, t2, 8);
    reg2.destroy_target(t2);
    assert!(!reg2.contains_row(l2, t2));
    reg2.destroy_link(l2);
    assert!(!reg2.is_link_alive(l2));

    // operations against dead endpoints are harmless
    assert!(reg2.remove(l2, t2).is_none());
    assert!(reg2.get(l2, t2).is_none());
    assert!(!reg2.contains_row(l2, t2));

    // destroying twice is harmless too
    reg2.destroy_link(l2);
    reg2.destroy_target(t2);
    assert!(!reg2.is_link_alive(l2));
    assert!(!reg2.is_target_alive(t2));
}

#[test]
fn registry_keys_are_fresh() {
    let mut reg: Registry<u32> = Registry::new();
    let l1 = reg.new_link();
    let l2 = reg.new_link();
    let t1 = reg.new_target();
    let t2 = reg.new_target();
    assert_ne!(l1, l2);
    assert_ne!(t1, t2);
    reg.destroy_link(l1);
    let l3 = reg.new_link();
    assert_ne!(l1, l3);
    assert_ne!(l2, l3);
}
