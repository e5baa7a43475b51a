//! The frame store: hit-test ordering, frame alternation with
//! element-state pruning, and transaction rollback.

use window_core::frame::ElemKey;
use window_core::geom::Bounds;
use window_core::geom::Point;
use window_core::geom::Size;
use window_core::window::Window;

fn bounds(x: i64, y: i64, w: i64, h: i64) -> Bounds {
    Bounds::new(Point::new(x, y), Size::new(w, h))
}

fn new_window() -> Window {
    Window::new(Size::new(800, 600))
}

#[test]
fn hit_test_opaque_occludes_earlier_hitboxes() {
    let mut w = new_window();
    w.begin_draw();
    // A covers a large region and is opaque; B covers a sub-region and
    // was inserted after A.
    let a = w.insert_hitbox(bounds(0, 0, 100, 100), true);
    let b = w.insert_hitbox(bounds(40, 40, 20, 20), true);
    // A probe inside B reports B alone: A is occluded.
    let hit = w.next_frame.hit_test(Point::new(50, 50));
    assert_eq!(hit, vec![b.id]);
    // A probe outside B but inside A reports A alone.
    let hit = w.next_frame.hit_test(Point::new(10, 10));
    assert_eq!(hit, vec![a.id]);
    // A probe outside both reports nothing.
    let hit = w.next_frame.hit_test(Point::new(300, 300));
    assert!(hit.is_empty());
}

#[test]
fn hit_test_transparent_hitbox_lets_the_probe_through() {
    let mut w = new_window();
    w.begin_draw();
    let a = w.insert_hitbox(bounds(0, 0, 100, 100), true);
    let b = w.insert_hitbox(bounds(40, 40, 20, 20), false);
    // B is not opaque: the probe reports B first, then A, and stops at
    // the opaque A.
    let hit = w.next_frame.hit_test(Point::new(50, 50));
    assert_eq!(hit, vec![b.id, a.id]);
}

#[test]
fn hit_test_respects_the_content_mask() {
    let mut w = new_window();
    w.begin_draw();
    w.push_content_mask(window_core::geom::ContentMask { bounds: bounds(0, 0, 30, 30) });
    let clipped = w.insert_hitbox(bounds(0, 0, 100, 100), true);
    w.pop_content_mask();
    // Inside the mask the hitbox answers; outside it does not, even
    // though its raw bounds cover the probe.
    assert_eq!(w.next_frame.hit_test(Point::new(10, 10)), vec![clipped.id]);
    assert!(w.next_frame.hit_test(Point::new(50, 50)).is_empty());
}

#[test]
fn element_state_not_accessed_is_dropped_on_the_next_pass() {
    let mut w = new_window();
    let kept = ElemKey { element: 1, kind: 7 };
    let dropped = ElemKey { element: 2, kind: 7 };

    // First pass stores both.
    w.begin_draw();
    assert_eq!(w.access_element_state(kept), None);
    w.store_element_state(kept, 10);
    assert_eq!(w.access_element_state(dropped), None);
    w.store_element_state(dropped, 20);
    w.begin_paint();
    let _ = w.finish_draw();
    w.end_draw();
    assert_eq!(w.rendered_frame.element_states.lookup(kept), Some(10));
    assert_eq!(w.rendered_frame.element_states.lookup(dropped), Some(20));

    // Second pass accesses only one of them.
    w.begin_draw();
    assert_eq!(w.access_element_state(kept), Some(10));
    w.store_element_state(kept, 11);
    w.begin_paint();
    let _ = w.finish_draw();
    w.end_draw();
    assert_eq!(w.rendered_frame.element_states.lookup(kept), Some(11));
    // The entry that was not accessed did not survive into the new frame.
    assert_eq!(w.rendered_frame.element_states.lookup(dropped), None);
}

#[test]
fn frames_alternate_and_next_is_cleared() {
    let mut w = new_window();
    w.begin_draw();
    let _ = w.insert_hitbox(bounds(0, 0, 10, 10), false);
    w.begin_paint();
    let _ = w.finish_draw();
    w.end_draw();
    // The built frame became the rendered one; the other is empty and
    // ready for the next pass.
    assert_eq!(w.rendered_frame.hitboxes.len(), 1);
    assert_eq!(w.next_frame.hitboxes.len(), 0);
    assert!(w.needs_present);

    w.begin_draw();
    let _ = w.insert_hitbox(bounds(0, 0, 10, 10), false);
    let _ = w.insert_hitbox(bounds(5, 5, 10, 10), false);
    w.begin_paint();
    let _ = w.finish_draw();
    w.end_draw();
    assert_eq!(w.rendered_frame.hitboxes.len(), 2);
    assert_eq!(w.next_frame.hitboxes.len(), 0);
}

#[test]
fn failed_transaction_leaves_counts_unchanged() {
    let mut w = new_window();
    w.begin_draw();
    let root = w.push_dispatch_node();
    let _ = w.insert_hitbox(bounds(0, 0, 10, 10), false);
    let _ = w.set_tooltip(1);
    assert_eq!(root, 0);

    // Checkpoint, then a speculative attempt that will be discarded.
    let cp = w.prepaint_index();
    let _ = w.insert_hitbox(bounds(0, 0, 20, 20), true);
    let _ = w.insert_hitbox(bounds(0, 0, 30, 30), true);
    let _ = w.set_tooltip(2);
    let inner = w.push_dispatch_node();
    w.defer_draw(9, Point::new(0, 0), 1);
    assert_eq!(w.access_element_state(ElemKey { element: 5, kind: 5 }), None);
    assert_eq!(inner, 1);
    w.pop_dispatch_node();
    w.rollback_prepaint(cp);

    // Every prepaint collection is back at its checkpointed length.
    assert_eq!(w.prepaint_index(), cp);
    assert_eq!(w.next_frame.hitboxes.len(), 1);
    assert_eq!(w.next_frame.tooltip_requests.len(), 1);
    assert_eq!(w.next_frame.deferred_draws.len(), 0);
    assert_eq!(w.next_frame.dispatch_tree.len(), 1);

    // The retry sees the same ids as the failed attempt would have.
    let retry = w.insert_hitbox(bounds(0, 0, 20, 20), true);
    assert_eq!(w.next_frame.hitboxes.len(), 2);
    assert!(retry.id.raw >= 2);
}

#[test]
fn deferred_draws_sort_by_priority_keeping_insertion_order() {
    let mut w = new_window();
    w.begin_draw();
    let _ = w.push_dispatch_node();
    w.defer_draw(100, Point::new(0, 0), 5);
    w.defer_draw(101, Point::new(0, 0), 1);
    w.defer_draw(102, Point::new(0, 0), 5);
    w.defer_draw(103, Point::new(0, 0), 0);
    let order = w.sorted_deferred_indices();
    assert_eq!(order, vec![3, 1, 0, 2]);
}

#[test]
fn reuse_prepaint_copies_the_recorded_ranges() {
    let mut w = new_window();
    // First pass: a subtree with a hitbox and a focused node.
    let handle = w.focus_handle();
    w.focus(&handle);
    w.begin_draw();
    let start = w.prepaint_index();
    let _ = w.push_dispatch_node();
    w.set_focus_handle(&handle);
    let hb = w.insert_hitbox(bounds(1, 2, 3, 4), true);
    w.pop_dispatch_node();
    let end = w.prepaint_index();
    w.begin_paint();
    let _ = w.finish_draw();
    w.end_draw();

    // Second pass replays the recorded range instead of recomputing it.
    w.begin_draw();
    let contains_focus = w.reuse_dispatch_subtree(start.dispatch_tree, end.dispatch_tree);
    w.reuse_prepaint(start, end);
    assert!(contains_focus);
    assert_eq!(w.next_frame.focus, Some(handle.id));
    assert_eq!(w.next_frame.hitboxes.len(), 1);
    assert_eq!(w.next_frame.hitboxes[0].id, hb.id);
    assert_eq!(w.next_frame.dispatch_tree.len(), 1);
}

#[test]
fn cursor_style_prefers_the_request_registered_last() {
    let mut w = new_window();
    w.begin_draw();
    let a = w.insert_hitbox(bounds(0, 0, 100, 100), false);
    let b = w.insert_hitbox(bounds(0, 0, 50, 50), false);
    w.begin_paint();
    w.set_cursor_style(3, a.id);
    w.set_cursor_style(4, b.id);
    let _ = w.finish_draw();
    w.end_draw();
    w.mouse_position = Point::new(10, 10);
    let _ = w.update_hit_test();
    // Both hitboxes are hovered; the request registered last wins.
    assert_eq!(w.cursor_style_choice(), 4);
    // Only the outer hitbox is hovered: its own request wins.
    w.mouse_position = Point::new(80, 80);
    let changed = w.update_hit_test();
    assert!(changed);
    assert_eq!(w.cursor_style_choice(), 3);
    // Away from both, the default arrow (zero) is chosen.
    w.mouse_position = Point::new(400, 400);
    let _ = w.update_hit_test();
    assert_eq!(w.cursor_style_choice(), 0);
}
