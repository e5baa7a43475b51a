//! Window-level focus: moving and clearing focus, the reconciliation
//! report after a draw, and focus queries against the rendered tree.

use window_core::geom::Size;
use window_core::window::Window;

fn new_window() -> Window {
    Window::new(Size::new(800, 600))
}

#[test]
fn focusing_clears_pending_input_and_schedules_a_redraw() {
    let mut w = new_window();
    // A first draw so the dirty bit starts cleared.
    w.begin_draw();
    let _ = w.push_dispatch_node();
    w.begin_paint();
    let _ = w.finish_draw();
    w.end_draw();
    assert!(!w.dirty);

    let handle = w.focus_handle();
    w.focus(&handle);
    assert!(w.dirty);
    assert!(w.is_focused(&handle));
    // Focusing the same element again changes nothing.
    w.focus(&handle);
    assert!(w.is_focused(&handle));
    w.blur();
    assert!(!w.is_focused(&handle));
}

#[test]
fn disabling_focus_blurs_for_good() {
    let mut w = new_window();
    let handle = w.focus_handle();
    w.focus(&handle);
    w.disable_focus();
    assert!(!w.is_focused(&handle));
    w.focus(&handle);
    assert!(!w.is_focused(&handle));
}

#[test]
fn focused_upgrades_the_focused_id() {
    let mut w = new_window();
    let handle = w.focus_handle();
    let id = handle.id;
    w.focus(&handle);
    let strong = w.focused().expect("the focused id is live");
    assert_eq!(strong.id, id);
    assert_eq!(w.focus_handles.count(id), 2);
    w.focus_handles.drop_handle(strong);
    w.blur();
    assert!(w.focused().is_none());
}

#[test]
fn focus_report_carries_the_paths_of_an_active_window() {
    let mut w = new_window();
    w.set_active(true);
    assert!(w.is_window_active());
    let handle = w.focus_handle();
    w.focus(&handle);

    w.begin_draw();
    let _root = w.push_dispatch_node();
    let _leaf = w.push_dispatch_node();
    w.set_focus_handle(&handle);
    w.pop_dispatch_node();
    w.pop_dispatch_node();
    w.begin_paint();
    let fc = w.finish_draw();
    w.end_draw();

    // Focus moved from nothing to the leaf's id: the report says so.
    assert!(fc.changed);
    assert!(!fc.focus_lost);
    assert!(fc.previous_path.is_empty());
    assert_eq!(fc.current_path, vec![handle.id]);
    assert!(w.contains_focused(&handle));
    assert!(w.within_focused(&handle));

    // Blur and redraw without the focus association: focus was lost.
    w.blur();
    w.begin_draw();
    let _ = w.push_dispatch_node();
    w.begin_paint();
    let fc = w.finish_draw();
    w.end_draw();
    assert!(fc.changed);
    assert!(fc.focus_lost);
    assert!(fc.current_path.is_empty());
}

#[test]
fn an_inactive_window_reports_empty_focus_paths() {
    let mut w = new_window();
    let handle = w.focus_handle();
    w.focus(&handle);
    // The window is inactive: the current path is zeroed out even
    // though focus is set, so background windows never report focus.
    w.begin_draw();
    let _ = w.push_dispatch_node();
    w.set_focus_handle(&handle);
    w.pop_dispatch_node();
    w.begin_paint();
    let fc = w.finish_draw();
    w.end_draw();
    assert!(fc.current_path.is_empty());
}

#[test]
fn viewport_changes_schedule_a_redraw() {
    let mut w = new_window();
    w.begin_draw();
    w.begin_paint();
    let _ = w.finish_draw();
    w.end_draw();
    assert!(!w.dirty);
    w.bounds_changed(Size::new(1024, 768));
    assert!(w.dirty);
    assert_eq!(w.viewport_size, Size::new(1024, 768));
}
