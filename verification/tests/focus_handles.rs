//! Reference-counted focus handles: counts track clones and drops, and a
//! released id can no longer be upgraded.

use window_core::focus::FocusRegistry;

#[test]
fn create_starts_with_one_handle() {
    let mut reg = FocusRegistry::new();
    let h = reg.create();
    assert_eq!(reg.count(h.id), 1);
}

#[test]
fn clone_and_drop_track_the_count() {
    let mut reg = FocusRegistry::new();
    let h = reg.create();
    let h2 = reg.clone_handle(&h).expect("id is live");
    assert_eq!(reg.count(h.id), 2);
    let h3 = reg.clone_handle(&h2).expect("id is live");
    let id = h.id;
    assert_eq!(reg.count(id), 3);
    reg.drop_handle(h3);
    assert_eq!(reg.count(id), 2);
    reg.drop_handle(h2);
    assert_eq!(reg.count(id), 1);
    reg.drop_handle(h);
    assert_eq!(reg.count(id), 0);
}

#[test]
fn upgrade_succeeds_while_live_and_fails_once_released() {
    let mut reg = FocusRegistry::new();
    let h = reg.create();
    let weak = h.downgrade();
    let strong = reg.upgrade(&weak).expect("count is positive");
    let id = h.id;
    assert_eq!(reg.count(id), 2);
    reg.drop_handle(strong);
    reg.drop_handle(h);
    assert_eq!(reg.count(weak.id), 0);
    assert!(reg.upgrade(&weak).is_none());
    assert!(reg.upgrade(&weak).is_none());
}

#[test]
fn every_observer_fails_once_the_id_is_released() {
    let mut reg = FocusRegistry::new();
    let h = reg.create();
    let weak = h.downgrade();
    reg.drop_handle(h);
    assert!(reg.upgrade(&weak).is_none());
    // Another weak observer of the same id fails too: release is final.
    let weak2 = weak;
    assert!(reg.upgrade(&weak2).is_none());
}

#[test]
fn distinct_ids_do_not_interfere() {
    let mut reg = FocusRegistry::new();
    let a = reg.create();
    let b = reg.create();
    assert_ne!(a.id, b.id);
    let b_id = b.id;
    reg.drop_handle(a);
    assert_eq!(reg.count(b_id), 1);
    let b2 = reg.clone_handle(&b).expect("b is live");
    assert_eq!(reg.count(b_id), 2);
    reg.drop_handle(b2);
    reg.drop_handle(b);
}
