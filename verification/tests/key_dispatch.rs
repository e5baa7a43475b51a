//! The multi-keystroke matcher, modifier synthesis, and the end-to-end
//! action dispatch scenario.

use window_core::dispatch::DispatchPhase;
use window_core::engine::run_plan;
use window_core::geom::Size;
use window_core::keymap::KeyBinding;
use window_core::keymap::Keystroke;
use window_core::keymap::Modifiers;
use window_core::window::Window;

fn ks(key: &str) -> Keystroke {
    Keystroke::new(key.to_owned(), Modifiers::none())
}

fn ctrl(key: &str) -> Keystroke {
    let mut m = Modifiers::none();
    m.control = true;
    Keystroke::new(key.to_owned(), m)
}

/// A window whose rendered frame has a single root dispatch node.
fn window_with_root() -> Window {
    let mut w = Window::new(Size::new(800, 600));
    w.begin_draw();
    let _ = w.push_dispatch_node();
    w.pop_dispatch_node();
    w.begin_paint();
    let _ = w.finish_draw();
    w.end_draw();
    w
}

#[test]
fn first_stroke_of_a_two_stroke_binding_goes_pending() {
    let mut w = window_with_root();
    w.keymap.add(KeyBinding { keystrokes: vec![ks("g"), ks("d")], context: None, action: 5 });
    let o = w.dispatch_key_down(ks("g"));
    assert!(o.pending);
    assert!(o.replays.is_empty());
    assert!(o.bindings.is_empty());
    assert!(w.has_pending_keystrokes());
}

#[test]
fn second_stroke_resolves_and_fires_with_no_replay() {
    let mut w = window_with_root();
    w.keymap.add(KeyBinding { keystrokes: vec![ks("g"), ks("d")], context: None, action: 5 });
    let _ = w.dispatch_key_down(ks("g"));
    let o = w.dispatch_key_down(ks("d"));
    assert!(!o.pending);
    assert!(o.replays.is_empty());
    assert_eq!(o.bindings, vec![0]);
    assert!(!w.has_pending_keystrokes());
}

#[test]
fn timeout_flushes_the_prefix_as_a_standalone_keystroke() {
    let mut w = window_with_root();
    w.keymap.add(KeyBinding { keystrokes: vec![ks("g"), ks("d")], context: None, action: 5 });
    let _ = w.dispatch_key_down(ks("g"));
    let replays = w.pending_timeout();
    assert_eq!(replays.len(), 1);
    assert!(replays[0].keystroke.same_as(&ks("g")));
    // No binding fires on the lone keystroke: it falls through to the
    // raw key listeners.
    assert!(replays[0].binding_indices.is_empty());
    assert!(!w.has_pending_keystrokes());
}

#[test]
fn timeout_flush_fires_a_one_stroke_binding_shadowed_by_a_longer_one() {
    let mut w = window_with_root();
    w.keymap.add(KeyBinding { keystrokes: vec![ks("g")], context: None, action: 1 });
    w.keymap.add(KeyBinding { keystrokes: vec![ks("g"), ks("d")], context: None, action: 2 });
    // The longer binding keeps the first stroke pending.
    let o = w.dispatch_key_down(ks("g"));
    assert!(o.pending);
    // On timeout the stroke resolves to the one-stroke binding.
    let replays = w.pending_timeout();
    assert_eq!(replays.len(), 1);
    assert_eq!(replays[0].binding_indices, vec![0]);
}

#[test]
fn mismatched_second_stroke_replays_the_prefix() {
    let mut w = window_with_root();
    w.keymap.add(KeyBinding { keystrokes: vec![ks("g"), ks("d")], context: None, action: 5 });
    let _ = w.dispatch_key_down(ks("g"));
    let o = w.dispatch_key_down(ks("x"));
    assert!(!o.pending);
    assert!(o.bindings.is_empty());
    assert_eq!(o.replays.len(), 2);
    assert!(o.replays[0].keystroke.same_as(&ks("g")));
    assert!(o.replays[1].keystroke.same_as(&ks("x")));
}

#[test]
fn later_bindings_take_precedence() {
    let mut w = window_with_root();
    w.keymap.add(KeyBinding { keystrokes: vec![ks("a")], context: None, action: 1 });
    w.keymap.add(KeyBinding { keystrokes: vec![ks("a")], context: None, action: 2 });
    let o = w.dispatch_key_down(ks("a"));
    assert_eq!(o.bindings, vec![1, 0]);
}

#[test]
fn focus_change_abandons_the_pending_sequence() {
    let mut w = window_with_root();
    w.keymap.add(KeyBinding { keystrokes: vec![ks("g"), ks("d")], context: None, action: 5 });
    let handle = w.focus_handle();
    w.focus(&handle);
    let _ = w.dispatch_key_down(ks("g"));
    assert!(w.has_pending_keystrokes());
    w.blur();
    // The sequence began under the old focus: the next stroke starts
    // over, so "d" alone matches nothing and is replayed.
    let o = w.dispatch_key_down(ks("d"));
    assert!(!o.pending);
    assert!(o.bindings.is_empty());
    assert_eq!(o.replays.len(), 1);
    assert!(o.replays[0].keystroke.same_as(&ks("d")));
}

#[test]
fn lone_modifier_tap_synthesizes_a_keystroke() {
    let mut w = window_with_root();
    let mut shift = Modifiers::none();
    shift.shift = true;
    assert!(w.modifiers_changed(shift).is_none());
    let synthesized = w.modifiers_changed(Modifiers::none()).expect("lone tap synthesizes");
    assert_eq!(synthesized.key, "shift");
    assert_eq!(synthesized.modifiers, Modifiers::none());
}

#[test]
fn modifier_with_interleaved_key_synthesizes_nothing() {
    let mut w = window_with_root();
    let mut shift = Modifiers::none();
    shift.shift = true;
    assert!(w.modifiers_changed(shift).is_none());
    let _ = w.dispatch_key_down(ks("a"));
    assert!(w.modifiers_changed(Modifiers::none()).is_none());
}

#[test]
fn editor_binding_dispatches_capture_then_bubble_and_stops_at_the_leaf() {
    // Window with a focused leaf L nested under root R with key context
    // "Editor"; a binding for context "Editor" maps ctrl-s to action 7.
    let mut w = Window::new(Size::new(800, 600));
    w.keymap.add(
        KeyBinding {
            keystrokes: vec![ctrl("s")],
            context: Some("Editor".to_owned()),
            action: 7,
        },
    );
    let leaf_handle = w.focus_handle();
    w.focus(&leaf_handle);

    w.begin_draw();
    let root = w.push_dispatch_node();
    let leaf = w.push_dispatch_node();
    w.set_focus_handle(&leaf_handle);
    w.pop_dispatch_node();
    w.pop_dispatch_node();
    w.begin_paint();
    w.next_frame.dispatch_tree.set_active_node(root);
    w.set_key_context("Editor".to_owned());
    w.on_action(7, 100);
    w.next_frame.dispatch_tree.set_active_node(leaf);
    w.on_action(7, 200);
    let fc = w.finish_draw();
    w.end_draw();
    assert!(fc.changed);

    // The key-down while L is focused finds the binding at L's context
    // stack [Editor].
    let target = w.key_target();
    assert_eq!(target, leaf);
    assert_eq!(w.rendered_frame.dispatch_tree.dispatch_path(target), vec![root, leaf]);
    let o = w.dispatch_key_down(ctrl("s"));
    assert!(!o.pending);
    assert!(o.replays.is_empty());
    assert_eq!(o.bindings, vec![0]);

    // Dispatching the bound action runs capture at R then L, then bubble
    // starting at L; L's listener does not re-enable propagation, so R's
    // bubble listener is never reached.
    let plan = w.rendered_frame.dispatch_tree.action_plan(target, 7, &Vec::new());
    assert_eq!(plan.len(), 4);
    let behaviors = vec![None, None, None, None];
    let ran = run_plan(&plan, &behaviors, true);
    assert_eq!(ran.len(), 3);
    assert_eq!((ran[0].node, ran[0].listener), (root, 100));
    assert!(matches!(ran[0].phase, DispatchPhase::Capture));
    assert_eq!((ran[1].node, ran[1].listener), (leaf, 200));
    assert!(matches!(ran[1].phase, DispatchPhase::Capture));
    assert_eq!((ran[2].node, ran[2].listener), (leaf, 200));
    assert!(matches!(ran[2].phase, DispatchPhase::Bubble));
}

#[test]
fn bindings_outside_their_context_do_not_fire() {
    let mut w = window_with_root();
    w.keymap.add(
        KeyBinding {
            keystrokes: vec![ctrl("s")],
            context: Some("Editor".to_owned()),
            action: 7,
        },
    );
    // The root has no key context, so the binding does not apply.
    let o = w.dispatch_key_down(ctrl("s"));
    assert!(o.bindings.is_empty());
    assert!(!o.pending);
}
