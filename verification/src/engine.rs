//! Invocation plans and the propagation engine.
//!
//! Dispatching an event means invoking listeners in a fixed order until
//! one stops propagation. The library computes the full ordered plan of
//! candidate invocations from the frame's state; the caller invokes each
//! listener in turn and reports what it decided about propagation. The
//! engine then determines exactly which prefix of the plan runs.
//!
//! Action dispatch has four stages, each able to stop the rest: global
//! capture, window capture (root to target), window bubble (target to
//! root), global bubble. During bubble, action listeners stop propagation
//! by default: a listener must explicitly re-enable it to let dispatch
//! continue. Raw key, modifier and mouse dispatch use the same engine
//! without that default.

use vstd::prelude::*;

use crate::dispatch::ActionListener;
use crate::dispatch::DispatchNode;
use crate::dispatch::DispatchPhase;
use crate::dispatch::DispatchTree;
use crate::dispatch::spec_dispatch_path;

verus! {

/// One candidate listener invocation of a dispatch plan.
#[derive(Clone, Copy, Debug, PartialEq, Eq, Structural)]
pub struct Invocation {
    /// The dispatch-tree node the listener sits on; for global and mouse
    /// listeners, its position in their own list.
    pub node: usize,
    /// The application's identifier for the listener.
    pub listener: u64,
    /// The phase the listener is invoked in.
    pub phase: DispatchPhase,
    /// Whether this is a global (window-independent) listener.
    pub global: bool,
}

/// What an invoked listener did to the propagation flag: left it alone,
/// or set it.
pub type PropagationChoice = Option<bool>;

/// The invocations of one node's action listeners matching `action`,
/// from position `j` on, in registration order.
pub open spec fn spec_node_action_invs(
    ls: Seq<ActionListener>,
    j: int,
    node: usize,
    action: u64,
    phase: DispatchPhase,
) -> Seq<Invocation>
    decreases ls.len() - j,
{
    if j < 0 || j >= ls.len() {
        Seq::empty()
    } else {
        (if ls[j].action == action {
            seq![Invocation { node, listener: ls[j].listener, phase, global: false }]
        } else {
            Seq::empty()
        }) + spec_node_action_invs(ls, j + 1, node, action, phase)
    }
}

/// The matching action invocations along `path` from position `i` on,
/// outermost node first.
pub open spec fn spec_path_action_invs(
    nodes: Seq<DispatchNode>,
    path: Seq<usize>,
    i: int,
    action: u64,
    phase: DispatchPhase,
) -> Seq<Invocation>
    decreases path.len() - i,
{
    if i < 0 || i >= path.len() {
        Seq::empty()
    } else {
        (if path[i] < nodes.len() {
            spec_node_action_invs(
                nodes[path[i] as int].action_listeners@,
                0,
                path[i],
                action,
                phase,
            )
        } else {
            Seq::empty()
        }) + spec_path_action_invs(nodes, path, i + 1, action, phase)
    }
}

/// The matching action invocations along the first `i` nodes of `path`,
/// innermost node first.
pub open spec fn spec_path_action_invs_rev(
    nodes: Seq<DispatchNode>,
    path: Seq<usize>,
    i: int,
    action: u64,
) -> Seq<Invocation>
    decreases i,
{
    if i <= 0 || i > path.len() {
        Seq::empty()
    } else {
        (if path[i - 1] < nodes.len() {
            spec_node_action_invs(
                nodes[path[i - 1] as int].action_listeners@,
                0,
                path[i - 1],
                action,
                DispatchPhase::Bubble,
            )
        } else {
            Seq::empty()
        }) + spec_path_action_invs_rev(nodes, path, i - 1, action)
    }
}

/// The matching global invocations from position `j` on, in registration
/// order.
pub open spec fn spec_global_invs(
    globals: Seq<ActionListener>,
    j: int,
    action: u64,
    phase: DispatchPhase,
) -> Seq<Invocation>
    decreases globals.len() - j,
{
    if j < 0 || j >= globals.len() {
        Seq::empty()
    } else {
        (if globals[j].action == action {
            seq![
                Invocation {
                    node: j as usize,
                    listener: globals[j].listener,
                    phase,
                    global: true,
                },
            ]
        } else {
            Seq::empty()
        }) + spec_global_invs(globals, j + 1, action, phase)
    }
}

/// The matching global invocations among the first `j`, last registered
/// first.
pub open spec fn spec_global_invs_rev(
    globals: Seq<ActionListener>,
    j: int,
    action: u64,
) -> Seq<Invocation>
    decreases j,
{
    if j <= 0 || j > globals.len() {
        Seq::empty()
    } else {
        (if globals[j - 1].action == action {
            seq![
                Invocation {
                    node: (j - 1) as usize,
                    listener: globals[j - 1].listener,
                    phase: DispatchPhase::Bubble,
                    global: true,
                },
            ]
        } else {
            Seq::empty()
        }) + spec_global_invs_rev(globals, j - 1, action)
    }
}

/// The full action-dispatch plan for the target node: global capture,
/// window capture root-to-target, window bubble target-to-root, global
/// bubble.
pub open spec fn spec_action_plan(
    nodes: Seq<DispatchNode>,
    path: Seq<usize>,
    action: u64,
    globals: Seq<ActionListener>,
) -> Seq<Invocation> {
    spec_global_invs(globals, 0, action, DispatchPhase::Capture) + spec_path_action_invs(
        nodes,
        path,
        0,
        action,
        DispatchPhase::Capture,
    ) + spec_path_action_invs_rev(nodes, path, path.len() as int, action) + spec_global_invs_rev(
        globals,
        globals.len() as int,
        action,
    )
}

/// The invocations of one node's raw key listeners from position `j` on.
pub open spec fn spec_node_key_invs(
    ls: Seq<u64>,
    j: int,
    node: usize,
    phase: DispatchPhase,
) -> Seq<Invocation>
    decreases ls.len() - j,
{
    if j < 0 || j >= ls.len() {
        Seq::empty()
    } else {
        seq![Invocation { node, listener: ls[j], phase, global: false }] + spec_node_key_invs(
            ls,
            j + 1,
            node,
            phase,
        )
    }
}

/// The raw key invocations along `path` from position `i` on, outermost
/// node first.
pub open spec fn spec_path_key_invs(
    nodes: Seq<DispatchNode>,
    path: Seq<usize>,
    i: int,
    phase: DispatchPhase,
) -> Seq<Invocation>
    decreases path.len() - i,
{
    if i < 0 || i >= path.len() {
        Seq::empty()
    } else {
        (if path[i] < nodes.len() {
            spec_node_key_invs(nodes[path[i] as int].key_listeners@, 0, path[i], phase)
        } else {
            Seq::empty()
        }) + spec_path_key_invs(nodes, path, i + 1, phase)
    }
}

/// The raw key invocations along the first `i` nodes of `path`, innermost
/// node first.
pub open spec fn spec_path_key_invs_rev(
    nodes: Seq<DispatchNode>,
    path: Seq<usize>,
    i: int,
) -> Seq<Invocation>
    decreases i,
{
    if i <= 0 || i > path.len() {
        Seq::empty()
    } else {
        (if path[i - 1] < nodes.len() {
            spec_node_key_invs(
                nodes[path[i - 1] as int].key_listeners@,
                0,
                path[i - 1],
                DispatchPhase::Bubble,
            )
        } else {
            Seq::empty()
        }) + spec_path_key_invs_rev(nodes, path, i - 1)
    }
}

/// The raw key-event plan: capture root-to-target, then bubble
/// target-to-root.
pub open spec fn spec_key_plan(nodes: Seq<DispatchNode>, path: Seq<usize>) -> Seq<Invocation> {
    spec_path_key_invs(nodes, path, 0, DispatchPhase::Capture) + spec_path_key_invs_rev(
        nodes,
        path,
        path.len() as int,
    )
}

/// The modifier-change invocations along the first `i` nodes of `path`,
/// innermost node first (modifier listeners only run target-to-root).
pub open spec fn spec_modifier_plan_rev(
    nodes: Seq<DispatchNode>,
    path: Seq<usize>,
    i: int,
) -> Seq<Invocation>
    decreases i,
{
    if i <= 0 || i > path.len() {
        Seq::empty()
    } else {
        (if path[i - 1] < nodes.len() {
            spec_node_key_invs(
                nodes[path[i - 1] as int].modifier_listeners@,
                0,
                path[i - 1],
                DispatchPhase::Bubble,
            )
        } else {
            Seq::empty()
        }) + spec_modifier_plan_rev(nodes, path, i - 1)
    }
}

/// The mouse plan over listeners registered in paint order: capture
/// front-to-back from position `j` on.
pub open spec fn spec_mouse_capture(ls: Seq<u64>, j: int) -> Seq<Invocation>
    decreases ls.len() - j,
{
    if j < 0 || j >= ls.len() {
        Seq::empty()
    } else {
        seq![
            Invocation {
                node: j as usize,
                listener: ls[j],
                phase: DispatchPhase::Capture,
                global: false,
            },
        ] + spec_mouse_capture(ls, j + 1)
    }
}

/// The mouse bubble plan over the first `j` listeners, back-to-front.
pub open spec fn spec_mouse_bubble(ls: Seq<u64>, j: int) -> Seq<Invocation>
    decreases j,
{
    if j <= 0 || j > ls.len() {
        Seq::empty()
    } else {
        seq![
            Invocation {
                node: (j - 1) as usize,
                listener: ls[j - 1],
                phase: DispatchPhase::Bubble,
                global: false,
            },
        ] + spec_mouse_bubble(ls, j - 1)
    }
}

/// The mouse-event plan: capture front-to-back (paint order), then
/// bubble back-to-front.
pub open spec fn spec_mouse_plan(ls: Seq<u64>) -> Seq<Invocation> {
    spec_mouse_capture(ls, 0) + spec_mouse_bubble(ls, ls.len() as int)
}

/// The invocations that actually run, from position `i` of the plan on:
/// each candidate runs in order until one leaves propagation off. Before
/// a bubble invocation the flag defaults to off when `bubble_default_stop`
/// holds (action dispatch), so a bubble listener that does not touch the
/// flag ends the traversal after itself.
pub open spec fn spec_run_plan(
    plan: Seq<Invocation>,
    beh: Seq<PropagationChoice>,
    i: int,
    bubble_default_stop: bool,
) -> Seq<Invocation>
    decreases plan.len() - i,
{
    if i < 0 || i >= plan.len() {
        Seq::empty()
    } else {
        let flag = match beh[i] {
            Option::Some(b) => b,
            Option::None => !(plan[i].phase is Bubble && bubble_default_stop),
        };
        seq![plan[i]] + if flag {
            spec_run_plan(plan, beh, i + 1, bubble_default_stop)
        } else {
            Seq::empty()
        }
    }
}

/// Runs a dispatch plan against the listeners' recorded propagation
/// choices: returns exactly the invocations that run.
pub fn run_plan(
    plan: &Vec<Invocation>,
    beh: &Vec<PropagationChoice>,
    bubble_default_stop: bool,
) -> (r: Vec<Invocation>)
    requires
        beh@.len() == plan@.len(),
    ensures
        r@ == spec_run_plan(plan@, beh@, 0, bubble_default_stop),
{
    run_plan_from(plan, beh, 0, bubble_default_stop)
}

/// Runs the plan from position `i` on.
fn run_plan_from(
    plan: &Vec<Invocation>,
    beh: &Vec<PropagationChoice>,
    i: usize,
    bubble_default_stop: bool,
) -> (r: Vec<Invocation>)
    requires
        beh@.len() == plan@.len(),
        i <= plan@.len(),
    ensures
        r@ == spec_run_plan(plan@, beh@, i as int, bubble_default_stop),
    decreases plan@.len() - i,
{
    if i == plan.len() {
        Vec::new()
    } else {
        let inv = plan[i];
        let flag = match beh[i] {
            Option::Some(b) => b,
            Option::None => !(inv.phase.bubble() && bubble_default_stop),
        };
        let mut out: Vec<Invocation> = Vec::new();
        out.push(inv);
        if flag {
            let mut rest = run_plan_from(plan, beh, i + 1, bubble_default_stop);
            out.append(&mut rest);
        }
        out
    }
}

impl DispatchTree {
    /// The action-dispatch plan for an action on the node `target`: the
    /// four stages of candidate invocations in delivery order.
    pub fn action_plan(
        &self,
        target: usize,
        action: u64,
        globals: &Vec<ActionListener>,
    ) -> (r: Vec<Invocation>)
        requires
            self.wf(),
            target < self.spec_len(),
        ensures
            r@ == spec_action_plan(
                self.nodes@,
                spec_dispatch_path(self.nodes@, target as int),
                action,
                globals@,
            ),
    {
        let path = self.dispatch_path(target);
        let mut r = globals_from(globals, 0, action, DispatchPhase::Capture);
        let mut caps = self.path_action_from(&path, 0, action, DispatchPhase::Capture);
        let mut bubs = self.path_action_rev(&path, path.len(), action);
        let mut gbubs = globals_rev(globals, globals.len(), action);
        r.append(&mut caps);
        r.append(&mut bubs);
        r.append(&mut gbubs);
        r
    }

    /// The raw key-event plan along the dispatch path of `target`.
    pub fn key_plan(&self, target: usize) -> (r: Vec<Invocation>)
        requires
            self.wf(),
            target < self.spec_len(),
        ensures
            r@ == spec_key_plan(self.nodes@, spec_dispatch_path(self.nodes@, target as int)),
    {
        let path = self.dispatch_path(target);
        let mut r = self.path_key_from(&path, 0, DispatchPhase::Capture);
        let mut bubs = self.path_key_rev(&path, path.len());
        r.append(&mut bubs);
        r
    }

    /// The modifier-change plan along the dispatch path of `target`:
    /// target-to-root only.
    pub fn modifier_plan(&self, target: usize) -> (r: Vec<Invocation>)
        requires
            self.wf(),
            target < self.spec_len(),
        ensures
            r@ == spec_modifier_plan_rev(
                self.nodes@,
                spec_dispatch_path(self.nodes@, target as int),
                spec_dispatch_path(self.nodes@, target as int).len() as int,
            ),
    {
        let path = self.dispatch_path(target);
        self.modifier_rev(&path, path.len())
    }

    /// Matching action invocations of one node from listener `j` on.
    fn node_action_from(
        &self,
        node: usize,
        j: usize,
        action: u64,
        phase: DispatchPhase,
    ) -> (r: Vec<Invocation>)
        requires
            node < self.spec_len(),
            j <= self.nodes@[node as int].action_listeners@.len(),
        ensures
            r@ == spec_node_action_invs(
                self.nodes@[node as int].action_listeners@,
                j as int,
                node,
                action,
                phase,
            ),
        decreases self.nodes@[node as int].action_listeners@.len() - j,
    {
        if j == self.nodes[node].action_listeners.len() {
            Vec::new()
        } else {
            let al = self.nodes[node].action_listeners[j];
            let mut rest = self.node_action_from(node, j + 1, action, phase);
            if al.action == action {
                let mut out: Vec<Invocation> = Vec::new();
                out.push(Invocation { node, listener: al.listener, phase, global: false });
                out.append(&mut rest);
                out
            } else {
                rest
            }
        }
    }

    /// Matching action invocations along `path` from position `i` on.
    fn path_action_from(
        &self,
        path: &Vec<usize>,
        i: usize,
        action: u64,
        phase: DispatchPhase,
    ) -> (r: Vec<Invocation>)
        requires
            i <= path@.len(),
        ensures
            r@ == spec_path_action_invs(self.nodes@, path@, i as int, action, phase),
        decreases path@.len() - i,
    {
        if i == path.len() {
            Vec::new()
        } else {
            let mut rest = self.path_action_from(path, i + 1, action, phase);
            let ix = path[i];
            if ix < self.nodes.len() {
                let mut out = self.node_action_from(ix, 0, action, phase);
                out.append(&mut rest);
                out
            } else {
                rest
            }
        }
    }

    /// Matching bubble action invocations along the first `i` nodes of
    /// `path`, innermost first.
    fn path_action_rev(&self, path: &Vec<usize>, i: usize, action: u64) -> (r: Vec<Invocation>)
        requires
            i <= path@.len(),
        ensures
            r@ == spec_path_action_invs_rev(self.nodes@, path@, i as int, action),
        decreases i,
    {
        if i == 0 {
            Vec::new()
        } else {
            let mut rest = self.path_action_rev(path, i - 1, action);
            let ix = path[i - 1];
            if ix < self.nodes.len() {
                let mut out = self.node_action_from(ix, 0, action, DispatchPhase::Bubble);
                out.append(&mut rest);
                out
            } else {
                rest
            }
        }
    }

    /// Raw key invocations of one node from listener `j` on.
    fn node_key_from(
        &self,
        node: usize,
        j: usize,
        phase: DispatchPhase,
        modifiers: bool,
    ) -> (r: Vec<Invocation>)
        requires
            node < self.spec_len(),
            j <= if modifiers {
                self.nodes@[node as int].modifier_listeners@.len()
            } else {
                self.nodes@[node as int].key_listeners@.len()
            },
        ensures
            r@ == spec_node_key_invs(
                if modifiers {
                    self.nodes@[node as int].modifier_listeners@
                } else {
                    self.nodes@[node as int].key_listeners@
                },
                j as int,
                node,
                phase,
            ),
        decreases (if modifiers {
            self.nodes@[node as int].modifier_listeners@.len()
        } else {
            self.nodes@[node as int].key_listeners@.len()
        }) - j,
    {
        let len = if modifiers {
            self.nodes[node].modifier_listeners.len()
        } else {
            self.nodes[node].key_listeners.len()
        };
        if j == len {
            Vec::new()
        } else {
            let l = if modifiers {
                self.nodes[node].modifier_listeners[j]
            } else {
                self.nodes[node].key_listeners[j]
            };
            let mut rest = self.node_key_from(node, j + 1, phase, modifiers);
            let mut out: Vec<Invocation> = Vec::new();
            out.push(Invocation { node, listener: l, phase, global: false });
            out.append(&mut rest);
            out
        }
    }

    /// Raw key invocations along `path` from position `i` on.
    fn path_key_from(&self, path: &Vec<usize>, i: usize, phase: DispatchPhase) -> (r: Vec<
        Invocation,
    >)
        requires
            i <= path@.len(),
        ensures
            r@ == spec_path_key_invs(self.nodes@, path@, i as int, phase),
        decreases path@.len() - i,
    {
        if i == path.len() {
            Vec::new()
        } else {
            let mut rest = self.path_key_from(path, i + 1, phase);
            let ix = path[i];
            if ix < self.nodes.len() {
                let mut out = self.node_key_from(ix, 0, phase, false);
                out.append(&mut rest);
                out
            } else {
                rest
            }
        }
    }

    /// Raw key bubble invocations along the first `i` nodes of `path`,
    /// innermost first.
    fn path_key_rev(&self, path: &Vec<usize>, i: usize) -> (r: Vec<Invocation>)
        requires
            i <= path@.len(),
        ensures
            r@ == spec_path_key_invs_rev(self.nodes@, path@, i as int),
        decreases i,
    {
        if i == 0 {
            Vec::new()
        } else {
            let mut rest = self.path_key_rev(path, i - 1);
            let ix = path[i - 1];
            if ix < self.nodes.len() {
                let mut out = self.node_key_from(ix, 0, DispatchPhase::Bubble, false);
                out.append(&mut rest);
                out
            } else {
                rest
            }
        }
    }

    /// Modifier-change invocations along the first `i` nodes of `path`,
    /// innermost first.
    fn modifier_rev(&self, path: &Vec<usize>, i: usize) -> (r: Vec<Invocation>)
        requires
            i <= path@.len(),
        ensures
            r@ == spec_modifier_plan_rev(self.nodes@, path@, i as int),
        decreases i,
    {
        if i == 0 {
            Vec::new()
        } else {
            let mut rest = self.modifier_rev(path, i - 1);
            let ix = path[i - 1];
            if ix < self.nodes.len() {
                let mut out = self.node_key_from(ix, 0, DispatchPhase::Bubble, true);
                out.append(&mut rest);
                out
            } else {
                rest
            }
        }
    }
}

/// Matching global invocations from position `j` on.
fn globals_from(
    globals: &Vec<ActionListener>,
    j: usize,
    action: u64,
    phase: DispatchPhase,
) -> (r: Vec<Invocation>)
    requires
        j <= globals@.len(),
    ensures
        r@ == spec_global_invs(globals@, j as int, action, phase),
    decreases globals@.len() - j,
{
    if j == globals.len() {
        Vec::new()
    } else {
        let g = globals[j];
        let mut rest = globals_from(globals, j + 1, action, phase);
        if g.action == action {
            let mut out: Vec<Invocation> = Vec::new();
            out.push(Invocation { node: j, listener: g.listener, phase, global: true });
            out.append(&mut rest);
            out
        } else {
            rest
        }
    }
}

/// Matching global invocations among the first `j`, last registered
/// first.
fn globals_rev(globals: &Vec<ActionListener>, j: usize, action: u64) -> (r: Vec<Invocation>)
    requires
        j <= globals@.len(),
    ensures
        r@ == spec_global_invs_rev(globals@, j as int, action),
    decreases j,
{
    if j == 0 {
        Vec::new()
    } else {
        let g = globals[j - 1];
        let mut rest = globals_rev(globals, j - 1, action);
        if g.action == action {
            let mut out: Vec<Invocation> = Vec::new();
            out.push(
                Invocation {
                    node: j - 1,
                    listener: g.listener,
                    phase: DispatchPhase::Bubble,
                    global: true,
                },
            );
            out.append(&mut rest);
            out
        } else {
            rest
        }
    }
}

/// The mouse plan for listeners registered in paint order.
pub fn mouse_plan(listeners: &Vec<u64>) -> (r: Vec<Invocation>)
    ensures
        r@ == spec_mouse_plan(listeners@),
{
    let mut r = mouse_capture_from(listeners, 0);
    let mut bubs = mouse_bubble_to(listeners, listeners.len());
    r.append(&mut bubs);
    r
}

/// Mouse capture invocations from position `j` on.
fn mouse_capture_from(listeners: &Vec<u64>, j: usize) -> (r: Vec<Invocation>)
    requires
        j <= listeners@.len(),
    ensures
        r@ == spec_mouse_capture(listeners@, j as int),
    decreases listeners@.len() - j,
{
    if j == listeners.len() {
        Vec::new()
    } else {
        let mut rest = mouse_capture_from(listeners, j + 1);
        let mut out: Vec<Invocation> = Vec::new();
        out.push(
            Invocation {
                node: j,
                listener: listeners[j],
                phase: DispatchPhase::Capture,
                global: false,
            },
        );
        out.append(&mut rest);
        out
    }
}

/// Mouse bubble invocations among the first `j`, back-to-front.
fn mouse_bubble_to(listeners: &Vec<u64>, j: usize) -> (r: Vec<Invocation>)
    requires
        j <= listeners@.len(),
    ensures
        r@ == spec_mouse_bubble(listeners@, j as int),
    decreases j,
{
    if j == 0 {
        Vec::new()
    } else {
        let mut rest = mouse_bubble_to(listeners, j - 1);
        let mut out: Vec<Invocation> = Vec::new();
        out.push(
            Invocation {
                node: j - 1,
                listener: listeners[j - 1],
                phase: DispatchPhase::Bubble,
                global: false,
            },
        );
        out.append(&mut rest);
        out
    }
}

/// The bubble-stop default. In a plan whose first bubble invocation sits
/// at position `k` after capture-phase invocations only, listeners that
/// never touch the propagation flag run through all of the capture
/// prefix and exactly one bubble invocation: the innermost bubble
/// listener handles the action and, by default, stops it there.
pub proof fn lemma_bubble_stops_by_default(
    plan: Seq<Invocation>,
    beh: Seq<PropagationChoice>,
    k: int,
)
    requires
        beh.len() == plan.len(),
        forall|i: int| 0 <= i < beh.len() ==> beh[i] is None,
        0 <= k < plan.len(),
        plan[k].phase is Bubble,
        forall|j: int| 0 <= j < k ==> (#[trigger] plan[j].phase) is Capture,
    ensures
        spec_run_plan(plan, beh, 0, true) == plan.take(k + 1),
{
    lemma_bubble_stop_from(plan, beh, k, 0);
    assert(plan.subrange(0, k + 1) =~= plan.take(k + 1));
}

/// Helper induction for [`lemma_bubble_stops_by_default`].
proof fn lemma_bubble_stop_from(
    plan: Seq<Invocation>,
    beh: Seq<PropagationChoice>,
    k: int,
    i: int,
)
    requires
        beh.len() == plan.len(),
        forall|j: int| 0 <= j < beh.len() ==> beh[j] is None,
        0 <= i <= k < plan.len(),
        plan[k].phase is Bubble,
        forall|j: int| 0 <= j < k ==> (#[trigger] plan[j].phase) is Capture,
    ensures
        spec_run_plan(plan, beh, i, true) == plan.subrange(i, k + 1),
    decreases k - i,
{
    if i == k {
        assert(spec_run_plan(plan, beh, i, true) =~= plan.subrange(i, k + 1));
    } else {
        lemma_bubble_stop_from(plan, beh, k, i + 1);
        assert(spec_run_plan(plan, beh, i, true) =~= plan.subrange(i, k + 1));
    }
}

} // verus!
