//! Bounded navigation history: mode gating, eviction and item removal.

use window_core::nav_history::MAX_NAVIGATION_HISTORY_LEN;
use window_core::nav_history::NavHistory;
use window_core::nav_history::NavPaths;
use window_core::nav_history::NavigationMode;

#[test]
fn normal_pushes_go_backward_and_clear_forward() {
    let mut h = NavHistory::new();
    h.set_mode(NavigationMode::GoingBack);
    h.push(None, 1, false);
    assert_eq!(h.forward_stack.len(), 1);
    h.set_mode(NavigationMode::Normal);
    h.push(Some(10), 2, false);
    assert_eq!(h.backward_stack.len(), 1);
    // An ordinary step clears the forward stack.
    assert_eq!(h.forward_stack.len(), 0);
    let e = h.backward_stack.back().unwrap();
    assert_eq!(e.item, 2);
    assert_eq!(e.data, Some(10));
}

#[test]
fn pop_reads_the_stack_of_its_mode_only() {
    let mut h = NavHistory::new();
    h.push(None, 1, false);
    h.set_mode(NavigationMode::ClosingItem);
    h.push(None, 2, false);
    h.set_mode(NavigationMode::Normal);

    assert!(h.pop(NavigationMode::Normal).is_none());
    assert!(h.pop(NavigationMode::Disabled).is_none());
    assert!(h.pop(NavigationMode::ClosingItem).is_none());
    let back = h.pop(NavigationMode::GoingBack).expect("one backward entry");
    assert_eq!(back.item, 1);
    let closed = h.pop(NavigationMode::ReopeningClosedItem).expect("one closed entry");
    assert_eq!(closed.item, 2);
    assert!(h.pop(NavigationMode::GoingForward).is_none());
}

#[test]
fn disabled_mode_records_nothing() {
    let mut h = NavHistory::new();
    h.disable();
    assert!(matches!(h.mode(), NavigationMode::Disabled));
    h.push(None, 1, false);
    assert_eq!(h.backward_stack.len(), 0);
    assert_eq!(h.next_timestamp, 0);
    h.enable();
    h.push(None, 1, false);
    assert_eq!(h.backward_stack.len(), 1);
}

#[test]
fn timestamps_grow_monotonically() {
    let mut h = NavHistory::new();
    h.push(None, 1, false);
    h.set_mode(NavigationMode::GoingBack);
    h.push(None, 2, false);
    h.set_mode(NavigationMode::ClosingItem);
    h.push(None, 3, false);
    assert_eq!(h.backward_stack.back().unwrap().timestamp, 0);
    assert_eq!(h.forward_stack.back().unwrap().timestamp, 1);
    assert_eq!(h.closed_stack.back().unwrap().timestamp, 2);
    assert_eq!(h.next_timestamp, 3);
}

#[test]
fn a_full_stack_evicts_its_oldest_entry() {
    let mut h = NavHistory::new();
    for i in 0..(MAX_NAVIGATION_HISTORY_LEN + 5) {
        h.push(None, i as u64, false);
    }
    assert_eq!(h.backward_stack.len(), MAX_NAVIGATION_HISTORY_LEN);
    // The oldest entries were evicted: the front is the sixth push.
    assert_eq!(h.backward_stack.front().unwrap().item, 5);
    assert_eq!(h.backward_stack.back().unwrap().item, (MAX_NAVIGATION_HISTORY_LEN + 4) as u64);
}

#[test]
fn removing_an_item_forgets_its_entries_and_paths() {
    let mut h = NavHistory::new();
    h.push(None, 1, false);
    h.push(None, 2, false);
    h.push(None, 1, true);
    h.set_mode(NavigationMode::ClosingItem);
    h.push(None, 1, false);
    h.set_path_for_item(1, NavPaths { project_path: "a/b.txt".to_owned(), abs_path: None });
    h.set_path_for_item(
        2,
        NavPaths { project_path: "c.txt".to_owned(), abs_path: Some("/w/c.txt".to_owned()) },
    );

    h.remove_item(1);
    assert_eq!(h.backward_stack.len(), 1);
    assert_eq!(h.backward_stack.front().unwrap().item, 2);
    assert_eq!(h.closed_stack.len(), 0);
    assert!(h.path_for_item(1).is_none());
    let p = h.path_for_item(2).expect("item 2 kept");
    assert_eq!(p.project_path, "c.txt");
    assert_eq!(p.abs_path.as_deref(), Some("/w/c.txt"));
}
