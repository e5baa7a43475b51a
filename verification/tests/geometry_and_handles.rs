//! Geometry primitives, quads, window handles and default bounds.

use window_core::geom::Bounds;
use window_core::geom::ContentMask;
use window_core::geom::Corners;
use window_core::geom::Edges;
use window_core::geom::Hsla;
use window_core::geom::Point;
use window_core::geom::Size;
use window_core::geom::fill;
use window_core::geom::outline;
use window_core::geom::quad;
use window_core::geom::transparent_black;
use window_core::handle::AnyWindowHandle;
use window_core::handle::WindowId;
use window_core::handle::default_bounds;
use window_core::dispatch::DispatchPhase;

fn bounds(x: i64, y: i64, w: i64, h: i64) -> Bounds {
    Bounds::new(Point::new(x, y), Size::new(w, h))
}

#[test]
fn intersect_clips_to_the_overlap() {
    let a = bounds(0, 0, 100, 100);
    let b = bounds(50, 60, 100, 100);
    let i = a.intersect(&b);
    assert_eq!(i, bounds(50, 60, 50, 40));
    // Disjoint rectangles intersect to an empty one.
    let far = bounds(500, 500, 10, 10);
    assert!(a.intersect(&far).is_empty());
}

#[test]
fn contains_is_inclusive_at_the_origin_and_exclusive_at_the_far_edge() {
    let b = bounds(10, 10, 20, 20);
    assert!(b.contains(&Point::new(10, 10)));
    assert!(b.contains(&Point::new(29, 29)));
    assert!(!b.contains(&Point::new(30, 10)));
    assert!(!b.contains(&Point::new(9, 15)));
}

#[test]
fn content_mask_intersection_matches_bounds_intersection() {
    let a = ContentMask { bounds: bounds(0, 0, 100, 100) };
    let b = ContentMask { bounds: bounds(50, 50, 100, 100) };
    assert_eq!(a.intersect(&b).bounds, bounds(50, 50, 50, 50));
}

#[test]
fn quad_builders_fill_in_the_parts() {
    let color = Hsla { h: 100, s: 200, l: 300, a: 1000 };
    let border = Hsla { h: 1, s: 2, l: 3, a: 4 };
    let q = quad(bounds(0, 0, 10, 10), Corners::all(2), color, Edges::all(1), border);
    assert_eq!(q.corner_radii, Corners::all(2));
    assert_eq!(q.background, color);
    assert_eq!(q.border_widths, Edges::all(1));
    assert_eq!(q.border_color, border);

    let f = fill(bounds(0, 0, 10, 10), color);
    assert_eq!(f.background, color);
    assert_eq!(f.border_widths, Edges::all(0));
    assert_eq!(f.border_color, transparent_black());

    let o = outline(bounds(0, 0, 10, 10), border);
    assert_eq!(o.background, transparent_black());
    assert_eq!(o.border_widths, Edges::all(1));
    assert_eq!(o.border_color, border);

    let restyled = f.corner_radii(Corners::all(5)).border_color(border).border_widths(
        Edges::all(3),
    ).background(border);
    assert_eq!(restyled.corner_radii, Corners::all(5));
    assert_eq!(restyled.border_color, border);
    assert_eq!(restyled.border_widths, Edges::all(3));
    assert_eq!(restyled.background, border);
}

#[test]
fn window_ids_round_trip_and_handles_downcast_by_tag() {
    let id = WindowId::from_u64(42);
    assert_eq!(id.as_u64(), 42);
    let h = AnyWindowHandle::new(id);
    assert_eq!(h.window_id(), id);
    assert!(h.downcast(0).is_some());
    assert!(h.downcast(7).is_none());
    let tagged = AnyWindowHandle::new_tagged(id, 7);
    let typed = tagged.downcast(7).expect("tags match");
    assert_eq!(typed.any_handle.window_id(), id);
}

#[test]
fn default_bounds_offset_the_active_window_or_fall_back() {
    let active = bounds(100, 100, 640, 480);
    assert_eq!(default_bounds(Some(active), None), bounds(100, 135, 640, 480));
    let display = bounds(0, 0, 1920, 1080);
    assert_eq!(default_bounds(None, Some(display)), display);
    assert_eq!(default_bounds(None, None), bounds(0, 0, 1024, 700));
}

#[test]
fn dispatch_phase_reports_its_side() {
    assert!(DispatchPhase::Bubble.bubble());
    assert!(!DispatchPhase::Bubble.capture());
    assert!(DispatchPhase::Capture.capture());
    assert!(!DispatchPhase::Capture.bubble());
    assert!(DispatchPhase::default().bubble());
}
