//! Listener invocation plans and the propagation engine.

use window_core::dispatch::DispatchPhase;
use window_core::dispatch::DispatchTree;
use window_core::engine::mouse_plan;
use window_core::engine::run_plan;

/// Builds a root-and-leaf tree with one action listener on each, and
/// returns (tree, root index, leaf index).
fn root_leaf_tree(action: u64) -> (DispatchTree, usize, usize) {
    let mut tree = DispatchTree::new();
    let root = tree.push_node();
    let leaf = tree.push_node();
    tree.on_action(action, 2); // leaf listener
    tree.pop_node();
    tree.set_active_node(root);
    tree.on_action(action, 1); // root listener
    (tree, root, leaf)
}

#[test]
fn bubble_phase_action_listeners_stop_propagation_by_default() {
    let (tree, root, leaf) = root_leaf_tree(9);
    let plan = tree.action_plan(leaf, 9, &Vec::new());
    // Capture root-to-leaf, then bubble leaf-to-root.
    assert_eq!(plan.len(), 4);
    assert_eq!((plan[0].node, plan[0].listener), (root, 1));
    assert_eq!((plan[1].node, plan[1].listener), (leaf, 2));
    assert_eq!((plan[2].node, plan[2].listener), (leaf, 2));
    assert_eq!((plan[3].node, plan[3].listener), (root, 1));
    // No listener touches the propagation flag: the leaf's bubble
    // listener runs and stops dispatch by default; the root's bubble
    // listener is never invoked.
    let behaviors = vec![None; 4];
    let ran = run_plan(&plan, &behaviors, true);
    assert_eq!(ran.len(), 3);
    assert_eq!((ran[2].node, ran[2].listener), (leaf, 2));
    assert!(matches!(ran[2].phase, DispatchPhase::Bubble));
}

#[test]
fn a_bubble_listener_may_opt_back_into_propagation() {
    let (tree, root, leaf) = root_leaf_tree(9);
    let plan = tree.action_plan(leaf, 9, &Vec::new());
    // The leaf's bubble listener re-enables propagation, so the root's
    // bubble listener runs too.
    let behaviors = vec![None, None, Some(true), None];
    let ran = run_plan(&plan, &behaviors, true);
    assert_eq!(ran.len(), 4);
    assert_eq!((ran[3].node, ran[3].listener), (root, 1));
}

#[test]
fn capture_listener_can_stop_everything() {
    let (tree, _root, leaf) = root_leaf_tree(9);
    let plan = tree.action_plan(leaf, 9, &Vec::new());
    let behaviors = vec![Some(false), None, None, None];
    let ran = run_plan(&plan, &behaviors, true);
    assert_eq!(ran.len(), 1);
    assert!(matches!(ran[0].phase, DispatchPhase::Capture));
}

#[test]
fn global_listeners_wrap_the_window_stages() {
    let (tree, root, leaf) = root_leaf_tree(9);
    let globals = vec![
        window_core::dispatch::ActionListener { action: 9, listener: 50 },
        window_core::dispatch::ActionListener { action: 8, listener: 51 },
    ];
    let plan = tree.action_plan(leaf, 9, &globals);
    // Global capture first, then window capture/bubble, then global
    // bubble; the listener for another action never appears.
    assert_eq!(plan.len(), 6);
    assert!(plan[0].global && matches!(plan[0].phase, DispatchPhase::Capture));
    assert_eq!(plan[0].listener, 50);
    assert!(!plan[1].global && plan[1].node == root);
    assert!(plan[5].global && matches!(plan[5].phase, DispatchPhase::Bubble));
    assert_eq!(plan[5].listener, 50);
}

#[test]
fn key_plan_visits_capture_outer_first_then_bubble_inner_first() {
    let mut tree = DispatchTree::new();
    let root = tree.push_node();
    tree.on_key_event(10);
    let leaf = tree.push_node();
    tree.on_key_event(20);
    let plan = tree.key_plan(leaf);
    assert_eq!(plan.len(), 4);
    assert_eq!((plan[0].node, plan[0].listener), (root, 10));
    assert!(matches!(plan[0].phase, DispatchPhase::Capture));
    assert_eq!((plan[1].node, plan[1].listener), (leaf, 20));
    assert_eq!((plan[2].node, plan[2].listener), (leaf, 20));
    assert!(matches!(plan[2].phase, DispatchPhase::Bubble));
    assert_eq!((plan[3].node, plan[3].listener), (root, 10));
    // Raw key listeners do not stop by default in the bubble phase.
    let behaviors = vec![None; 4];
    let ran = run_plan(&plan, &behaviors, false);
    assert_eq!(ran.len(), 4);
}

#[test]
fn modifier_plan_only_bubbles() {
    let mut tree = DispatchTree::new();
    let root = tree.push_node();
    tree.on_modifiers_changed(30);
    let leaf = tree.push_node();
    tree.on_modifiers_changed(31);
    let plan = tree.modifier_plan(leaf);
    assert_eq!(plan.len(), 2);
    assert_eq!((plan[0].node, plan[0].listener), (leaf, 31));
    assert_eq!((plan[1].node, plan[1].listener), (root, 30));
    assert!(matches!(plan[0].phase, DispatchPhase::Bubble));
}

#[test]
fn mouse_plan_is_paint_order_then_reverse() {
    let listeners = vec![7u64, 8, 9];
    let plan = mouse_plan(&listeners);
    let order: Vec<(usize, u64)> = plan.iter().map(|i| (i.node, i.listener)).collect();
    assert_eq!(order, vec![(0, 7), (1, 8), (2, 9), (2, 9), (1, 8), (0, 7)]);
    assert!(matches!(plan[0].phase, DispatchPhase::Capture));
    assert!(matches!(plan[3].phase, DispatchPhase::Bubble));
    // Any listener stopping propagation short-circuits the rest.
    let behaviors = vec![None, Some(false), None, None, None, None];
    let ran = run_plan(&plan, &behaviors, false);
    assert_eq!(ran.len(), 2);
}

#[test]
fn focus_paths_follow_the_dispatch_tree() {
    let mut tree = DispatchTree::new();
    let _root = tree.push_node();
    tree.set_focus_id(window_core::focus::FocusId { raw: 1 });
    let _mid = tree.push_node();
    let _leaf = tree.push_node();
    tree.set_focus_id(window_core::focus::FocusId { raw: 2 });
    let path = tree.focus_path(window_core::focus::FocusId { raw: 2 });
    assert_eq!(
        path,
        vec![
            window_core::focus::FocusId { raw: 1 },
            window_core::focus::FocusId { raw: 2 },
        ]
    );
    assert!(tree.focus_contains(
        window_core::focus::FocusId { raw: 1 },
        window_core::focus::FocusId { raw: 2 },
    ));
    assert!(!tree.focus_contains(
        window_core::focus::FocusId { raw: 2 },
        window_core::focus::FocusId { raw: 1 },
    ));
}
