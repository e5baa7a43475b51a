//! The dispatch tree and the capture/bubble traversal engine.
//!
//! A [`DispatchTree`] is rebuilt every frame; its nodes correspond to the
//! elements that registered focus, key-context, or listeners during the
//! draw pass. The dispatch path of a node is its root-to-node chain;
//! events are delivered along it root-to-target in the capture phase and
//! target-to-root in the bubble phase.
//!
//! Listeners themselves are the application's code; the library computes
//! the ordered plan of invocations and, given what each invoked listener
//! decided about propagation, which invocations actually run.

use vstd::prelude::*;

use crate::focus::FocusId;

verus! {

/// The two phases of event delivery.
#[derive(Clone, Copy, Debug, PartialEq, Eq, Structural)]
pub enum DispatchPhase {
    /// Traversal from the target back to the root, where most handlers do
    /// their work. For actions, a bubble-phase listener stops propagation
    /// by default.
    Bubble,
    /// Traversal from the root down to the target, used for pre-emptive
    /// handling.
    Capture,
}

impl DispatchPhase {
    /// Whether this is the bubble phase.
    pub fn bubble(self) -> (r: bool)
        ensures
            r == (self == DispatchPhase::Bubble),
    {
        matches!(self, DispatchPhase::Bubble)
    }

    /// Whether this is the capture phase.
    pub fn capture(self) -> (r: bool)
        ensures
            r == (self == DispatchPhase::Capture),
    {
        matches!(self, DispatchPhase::Capture)
    }
}

impl Default for DispatchPhase {
    /// The phase a listener most commonly cares about: bubble.
    fn default() -> (r: Self)
        ensures
            r == DispatchPhase::Bubble,
    {
        DispatchPhase::Bubble
    }
}

/// An action listener registration: which action it answers to and the
/// application's identifier for the listener itself.
#[derive(Clone, Copy, Debug, PartialEq, Eq, Structural)]
pub struct ActionListener {
    /// The action type this listener answers to.
    pub action: u64,
    /// The application's identifier for the listener.
    pub listener: u64,
}

/// One node of the dispatch tree. Nodes are stored in build order, so a
/// node's parent always has a smaller index.
#[derive(Debug)]
pub struct DispatchNode {
    /// Index of the parent node; the root has none.
    pub parent: Option<usize>,
    /// The focus id an element associated with this node, if any.
    pub focus_id: Option<FocusId>,
    /// The key-context fragment set on this node, if any.
    pub context: Option<String>,
    /// Raw key-event listeners, in registration order.
    pub key_listeners: Vec<u64>,
    /// Modifier-change listeners, in registration order.
    pub modifier_listeners: Vec<u64>,
    /// Action listeners, in registration order.
    pub action_listeners: Vec<ActionListener>,
}

impl DispatchNode {
    /// A node with the given parent and nothing registered yet.
    pub fn bare(parent: Option<usize>) -> (r: DispatchNode)
        ensures
            r.parent == parent,
            r.focus_id is None,
            r.context is None,
            r.key_listeners@ == Seq::<u64>::empty(),
            r.modifier_listeners@ == Seq::<u64>::empty(),
            r.action_listeners@ == Seq::<ActionListener>::empty(),
    {
        DispatchNode {
            parent,
            focus_id: None,
            context: None,
            key_listeners: Vec::new(),
            modifier_listeners: Vec::new(),
            action_listeners: Vec::new(),
        }
    }
}

/// Whether every node's parent comes before it, so parent chains reach
/// the root.
pub open spec fn parents_wf(nodes: Seq<DispatchNode>) -> bool {
    forall|i: int|
        0 <= i < nodes.len() && #[trigger] nodes[i].parent is Some ==> nodes[i].parent->Some_0 < i
}

/// The root-to-node chain of indices ending at `t`.
pub open spec fn spec_dispatch_path(nodes: Seq<DispatchNode>, t: int) -> Seq<usize>
    decreases t,
{
    if 0 <= t < nodes.len() && parents_wf(nodes) {
        match nodes[t].parent {
            Option::None => seq![t as usize],
            Option::Some(p) => spec_dispatch_path(nodes, p as int).push(t as usize),
        }
    } else {
        Seq::empty()
    }
}

/// The focus ids carried by the nodes of `path`, from position `i` on.
pub open spec fn spec_focus_ids_from(
    nodes: Seq<DispatchNode>,
    path: Seq<usize>,
    i: int,
) -> Seq<FocusId>
    decreases path.len() - i,
{
    if i < 0 || i >= path.len() {
        Seq::empty()
    } else {
        let rest = spec_focus_ids_from(nodes, path, i + 1);
        if path[i] < nodes.len() && nodes[path[i] as int].focus_id is Some {
            seq![nodes[path[i] as int].focus_id->Some_0] + rest
        } else {
            rest
        }
    }
}

/// The key contexts carried by the nodes of `path`, from position `i` on.
pub open spec fn spec_contexts_from(
    nodes: Seq<DispatchNode>,
    path: Seq<usize>,
    i: int,
) -> Seq<Seq<char>>
    decreases path.len() - i,
{
    if i < 0 || i >= path.len() {
        Seq::empty()
    } else {
        let rest = spec_contexts_from(nodes, path, i + 1);
        if path[i] < nodes.len() && nodes[path[i] as int].context is Some {
            seq![nodes[path[i] as int].context->Some_0@] + rest
        } else {
            rest
        }
    }
}

/// The node the tree associates with a focus id, among the first `n`
/// nodes: the one registered last during the draw pass, if any.
pub open spec fn spec_focusable_node(nodes: Seq<DispatchNode>, id: FocusId, n: int) -> Option<usize>
    decreases n,
{
    if n <= 0 || n > nodes.len() {
        Option::None
    } else if nodes[n - 1].focus_id == Option::Some(id) {
        Option::Some((n - 1) as usize)
    } else {
        spec_focusable_node(nodes, id, n - 1)
    }
}

/// A tree mirroring the element hierarchy for one frame, carrying key
/// contexts, focus associations and listeners.
#[derive(Debug)]
pub struct DispatchTree {
    /// The nodes, in build order: parents before children.
    pub nodes: Vec<DispatchNode>,
    /// The build-time stack of open nodes; the last entry is the node new
    /// registrations attach to.
    pub active_stack: Vec<usize>,
}

impl DispatchTree {
    /// Structural consistency: parents precede their children and every
    /// open node exists.
    pub open spec fn wf(&self) -> bool {
        &&& parents_wf(self.nodes@)
        &&& forall|i: int|
            0 <= i < self.active_stack@.len() ==> #[trigger] self.active_stack@[i]
                < self.nodes@.len()
    }

    /// How many nodes the tree holds.
    pub open spec fn spec_len(&self) -> nat {
        self.nodes@.len()
    }

    /// An empty tree.
    pub fn new() -> (r: DispatchTree)
        ensures
            r.wf(),
            r.nodes@ == Seq::<DispatchNode>::empty(),
            r.active_stack@ == Seq::<usize>::empty(),
    {
        DispatchTree { nodes: Vec::new(), active_stack: Vec::new() }
    }

    /// How many nodes the tree holds.
    pub fn len(&self) -> (r: usize)
        ensures
            r == self.spec_len(),
    {
        self.nodes.len()
    }

    /// Empties the tree for reuse by the next frame.
    pub fn clear(&mut self)
        ensures
            final(self).wf(),
            final(self).nodes@ == Seq::<DispatchNode>::empty(),
            final(self).active_stack@ == Seq::<usize>::empty(),
    {
        self.nodes.clear();
        self.active_stack.clear();
    }

    /// The node new registrations attach to, while one is open.
    pub fn active_node_id(&self) -> (r: Option<usize>)
        ensures
            r == if self.active_stack@.len() == 0 {
                Option::<usize>::None
            } else {
                Option::Some(self.active_stack@.last())
            },
    {
        if self.active_stack.len() == 0 {
            None
        } else {
            Some(self.active_stack[self.active_stack.len() - 1])
        }
    }

    /// Makes `ix` the node new registrations and deferred draws attach
    /// to; used when replaying a deferred draw under its captured parent.
    pub fn set_active_node(&mut self, ix: usize)
        requires
            old(self).wf(),
            ix < old(self).spec_len(),
        ensures
            final(self).wf(),
            final(self).nodes@ == old(self).nodes@,
            final(self).active_stack@ == seq![ix],
    {
        self.active_stack.clear();
        self.active_stack.push(ix);
    }

    /// Opens a new node under the currently open one (or as a root) and
    /// makes it the open node. Returns its index.
    pub fn push_node(&mut self) -> (ix: usize)
        requires
            old(self).wf(),
            old(self).spec_len() < usize::MAX,
        ensures
            final(self).wf(),
            ix == old(self).spec_len(),
            final(self).nodes@.len() == old(self).nodes@.len() + 1,
            final(self).nodes@.drop_last() == old(self).nodes@,
            final(self).nodes@.last().parent == if old(self).active_stack@.len() == 0 {
                Option::<usize>::None
            } else {
                Option::Some(old(self).active_stack@.last())
            },
            final(self).nodes@.last().focus_id is None,
            final(self).nodes@.last().context is None,
            final(self).nodes@.last().key_listeners@ == Seq::<u64>::empty(),
            final(self).nodes@.last().modifier_listeners@ == Seq::<u64>::empty(),
            final(self).nodes@.last().action_listeners@ == Seq::<ActionListener>::empty(),
            final(self).active_stack@ == old(self).active_stack@.push(ix),
    {
        let parent = self.active_node_id();
        let ix = self.nodes.len();
        self.nodes.push(DispatchNode::bare(parent));
        self.active_stack.push(ix);
        proof {
            assert(final(self).nodes@.drop_last() =~= old(self).nodes@);
        }
        ix
    }

    /// Closes the currently open node, returning to its parent.
    pub fn pop_node(&mut self)
        requires
            old(self).wf(),
            old(self).active_stack@.len() > 0,
        ensures
            final(self).wf(),
            final(self).nodes@ == old(self).nodes@,
            final(self).active_stack@ == old(self).active_stack@.drop_last(),
    {
        self.active_stack.pop();
    }

    /// Associates a focus id with the currently open node.
    pub fn set_focus_id(&mut self, id: FocusId)
        requires
            old(self).wf(),
            old(self).active_stack@.len() > 0,
        ensures
            final(self).wf(),
            final(self).active_stack@ == old(self).active_stack@,
            final(self).nodes@ == old(self).nodes@.update(
                old(self).active_stack@.last() as int,
                (DispatchNode {
                    focus_id: Option::Some(id),
                    ..old(self).nodes@[old(self).active_stack@.last() as int]
                }),
            ),
    {
        let ix = self.active_stack[self.active_stack.len() - 1];
        self.nodes[ix].focus_id = Some(id);
    }

    /// Sets the key-context fragment of the currently open node.
    pub fn set_key_context(&mut self, context: String)
        requires
            old(self).wf(),
            old(self).active_stack@.len() > 0,
        ensures
            final(self).wf(),
            final(self).active_stack@ == old(self).active_stack@,
            final(self).nodes@ == old(self).nodes@.update(
                old(self).active_stack@.last() as int,
                (DispatchNode {
                    context: Option::Some(context),
                    ..old(self).nodes@[old(self).active_stack@.last() as int]
                }),
            ),
    {
        let ix = self.active_stack[self.active_stack.len() - 1];
        self.nodes[ix].context = Some(context);
    }

    /// Registers a raw key-event listener on the currently open node.
    pub fn on_key_event(&mut self, listener: u64)
        requires
            old(self).wf(),
            old(self).active_stack@.len() > 0,
        ensures
            final(self).wf(),
            final(self).active_stack@ == old(self).active_stack@,
            final(self).nodes@[old(self).active_stack@.last() as int].key_listeners@ == old(
                self,
            ).nodes@[old(self).active_stack@.last() as int].key_listeners@.push(listener),
            same_but_key_listeners(
                old(self).nodes@[old(self).active_stack@.last() as int],
                final(self).nodes@[old(self).active_stack@.last() as int],
            ),
            forall|j: int|
                0 <= j < old(self).nodes@.len() && j != old(self).active_stack@.last()
                    ==> final(self).nodes@[j] == old(self).nodes@[j],
            final(self).nodes@.len() == old(self).nodes@.len(),
    {
        let ix = self.active_stack[self.active_stack.len() - 1];
        self.nodes[ix].key_listeners.push(listener);
    }

    /// Registers a modifier-change listener on the currently open node.
    pub fn on_modifiers_changed(&mut self, listener: u64)
        requires
            old(self).wf(),
            old(self).active_stack@.len() > 0,
        ensures
            final(self).wf(),
            final(self).active_stack@ == old(self).active_stack@,
            final(self).nodes@[old(self).active_stack@.last() as int].modifier_listeners@ == old(
                self,
            ).nodes@[old(self).active_stack@.last() as int].modifier_listeners@.push(listener),
            same_but_modifier_listeners(
                old(self).nodes@[old(self).active_stack@.last() as int],
                final(self).nodes@[old(self).active_stack@.last() as int],
            ),
            forall|j: int|
                0 <= j < old(self).nodes@.len() && j != old(self).active_stack@.last()
                    ==> final(self).nodes@[j] == old(self).nodes@[j],
            final(self).nodes@.len() == old(self).nodes@.len(),
    {
        let ix = self.active_stack[self.active_stack.len() - 1];
        self.nodes[ix].modifier_listeners.push(listener);
    }

    /// Registers an action listener on the currently open node.
    pub fn on_action(&mut self, action: u64, listener: u64)
        requires
            old(self).wf(),
            old(self).active_stack@.len() > 0,
        ensures
            final(self).wf(),
            final(self).active_stack@ == old(self).active_stack@,
            final(self).nodes@[old(self).active_stack@.last() as int].action_listeners@ == old(
                self,
            ).nodes@[old(self).active_stack@.last() as int].action_listeners@.push(
                ActionListener { action, listener },
            ),
            same_but_action_listeners(
                old(self).nodes@[old(self).active_stack@.last() as int],
                final(self).nodes@[old(self).active_stack@.last() as int],
            ),
            forall|j: int|
                0 <= j < old(self).nodes@.len() && j != old(self).active_stack@.last()
                    ==> final(self).nodes@[j] == old(self).nodes@[j],
            final(self).nodes@.len() == old(self).nodes@.len(),
    {
        let ix = self.active_stack[self.active_stack.len() - 1];
        self.nodes[ix].action_listeners.push(ActionListener { action, listener });
    }

    /// The root-to-node chain of indices ending at `target`.
    pub fn dispatch_path(&self, target: usize) -> (r: Vec<usize>)
        requires
            self.wf(),
            target < self.spec_len(),
        ensures
            r@ == spec_dispatch_path(self.nodes@, target as int),
    {
        let mut out: Vec<usize> = Vec::new();
        self.path_into(target, &mut out);
        out
    }

    /// Appends the root-to-node chain ending at `t` to `out`.
    fn path_into(&self, t: usize, out: &mut Vec<usize>)
        requires
            self.wf(),
            t < self.spec_len(),
        ensures
            final(out)@ == old(out)@ + spec_dispatch_path(self.nodes@, t as int),
        decreases t,
    {
        match self.nodes[t].parent {
            Option::None => {
                out.push(t);
            },
            Option::Some(p) => {
                self.path_into(p, out);
                out.push(t);
            },
        }
    }

    /// The node associated with a focus id: the last node of the tree
    /// carrying it, if any.
    pub fn focusable_node_id(&self, id: FocusId) -> (r: Option<usize>)
        ensures
            r == spec_focusable_node(self.nodes@, id, self.nodes@.len() as int),
    {
        self.focusable_from(id, self.nodes.len())
    }

    /// The last node among the first `n` carrying the focus id, if any.
    fn focusable_from(&self, id: FocusId, n: usize) -> (r: Option<usize>)
        requires
            n <= self.spec_len(),
        ensures
            r == spec_focusable_node(self.nodes@, id, n as int),
        decreases n,
    {
        if n == 0 {
            None
        } else {
            match self.nodes[n - 1].focus_id {
                Option::Some(f) => {
                    if f == id {
                        Some(n - 1)
                    } else {
                        self.focusable_from(id, n - 1)
                    }
                },
                Option::None => self.focusable_from(id, n - 1),
            }
        }
    }

    /// The focus ids along the dispatch path of the node associated with
    /// `id`: the chain of focus-bearing ancestors, root first. Empty when
    /// no node carries `id`.
    pub fn focus_path(&self, id: FocusId) -> (r: Vec<FocusId>)
        requires
            self.wf(),
        ensures
            r@ == spec_focus_path(self.nodes@, id),
    {
        match self.focusable_node_id(id) {
            Option::Some(t) => {
                proof {
                    lemma_focusable_in_range(self.nodes@, id, self.nodes@.len() as int);
                }
                let path = self.dispatch_path(t);
                self.focus_ids_from(&path, 0)
            },
            Option::None => Vec::new(),
        }
    }

    /// The focus ids carried by the nodes of `path`, from position `i`.
    fn focus_ids_from(&self, path: &Vec<usize>, i: usize) -> (r: Vec<FocusId>)
        requires
            i <= path@.len(),
        ensures
            r@ == spec_focus_ids_from(self.nodes@, path@, i as int),
        decreases path@.len() - i,
    {
        if i == path.len() {
            Vec::new()
        } else {
            let mut rest = self.focus_ids_from(path, i + 1);
            let ix = path[i];
            if ix < self.nodes.len() {
                match self.nodes[ix].focus_id {
                    Option::Some(f) => {
                        let mut out: Vec<FocusId> = Vec::new();
                        out.push(f);
                        out.append(&mut rest);
                        out
                    },
                    Option::None => rest,
                }
            } else {
                rest
            }
        }
    }

    /// The key contexts along the dispatch path of `target`, root first.
    pub fn context_stack(&self, target: usize) -> (r: Vec<String>)
        requires
            self.wf(),
            target < self.spec_len(),
        ensures
            r@.map_values(|s: String| s@) == spec_contexts_from(
                self.nodes@,
                spec_dispatch_path(self.nodes@, target as int),
                0,
            ),
    {
        let path = self.dispatch_path(target);
        self.contexts_from(&path, 0)
    }

    /// The key contexts carried by the nodes of `path`, from position `i`.
    fn contexts_from(&self, path: &Vec<usize>, i: usize) -> (r: Vec<String>)
        requires
            i <= path@.len(),
        ensures
            r@.map_values(|s: String| s@) == spec_contexts_from(self.nodes@, path@, i as int),
        decreases path@.len() - i,
    {
        if i == path.len() {
            let r: Vec<String> = Vec::new();
            proof {
                assert(r@.map_values(|s: String| s@) =~= Seq::<Seq<char>>::empty());
            }
            r
        } else {
            let mut rest = self.contexts_from(path, i + 1);
            let ix = path[i];
            if ix < self.nodes.len() {
                match &self.nodes[ix].context {
                    Option::Some(c) => {
                        let mut out: Vec<String> = Vec::new();
                        out.push(c.clone());
                        out.append(&mut rest);
                        proof {
                            assert(out@.map_values(|s: String| s@) =~= spec_contexts_from(
                                self.nodes@,
                                path@,
                                i as int,
                            ));
                        }
                        out
                    },
                    Option::None => rest,
                }
            } else {
                rest
            }
        }
    }

    /// Whether the dispatch path of the node holding `descendant` passes
    /// through a node holding `ancestor`: used to answer "does this focus
    /// handle contain the focused element".
    pub fn focus_contains(&self, ancestor: FocusId, descendant: FocusId) -> (r: bool)
        requires
            self.wf(),
        ensures
            r == spec_focus_path(self.nodes@, descendant).contains(ancestor),
    {
        let path = self.focus_path(descendant);
        let mut j: usize = 0;
        while j < path.len()
            invariant
                j <= path@.len(),
                path@ == spec_focus_path(self.nodes@, descendant),
                forall|k: int| 0 <= k < j ==> path@[k] != ancestor,
            decreases path@.len() - j,
        {
            if path[j] == ancestor {
                return true;
            }
            j = j + 1;
        }
        false
    }

    /// Drops every node from index `len` on; the transaction rollback for
    /// the dispatch tree.
    pub fn truncate(&mut self, len: usize)
        requires
            old(self).wf(),
            forall|i: int|
                0 <= i < old(self).active_stack@.len() ==> #[trigger] old(self).active_stack@[i]
                    < len,
        ensures
            final(self).wf(),
            final(self).nodes@ == old(self).nodes@.take(
                if len <= old(self).nodes@.len() {
                    len as int
                } else {
                    old(self).nodes@.len() as int
                },
            ),
            final(self).active_stack@ == old(self).active_stack@,
    {
        self.nodes.truncate(len);
        proof {
            assert(parents_wf(self.nodes@));
        }
    }

    /// Splices the node range `[start, end)` of the previous frame's tree
    /// into this one: each node is appended with its parent remapped (a
    /// parent inside the range moves with it; the subtree's roots attach
    /// to the currently open node). Returns whether the spliced nodes
    /// carry `current_focus`, so the caller can set the new frame's focus
    /// bit without re-walking.
    pub fn reuse_subtree(
        &mut self,
        start: usize,
        end: usize,
        prev: &DispatchTree,
        current_focus: Option<FocusId>,
    ) -> (contains_focus: bool)
        requires
            old(self).wf(),
            prev.wf(),
            start <= end <= prev.spec_len(),
            forall|i: int|
                start <= i < end && (#[trigger] prev.nodes@[i].parent) is Some
                    ==> prev.nodes@[i].parent->Some_0 >= start,
            old(self).spec_len() + (end - start) <= usize::MAX,
        ensures
            final(self).wf(),
            final(self).active_stack@ == old(self).active_stack@,
            final(self).nodes@.len() == old(self).nodes@.len() + (end - start),
            final(self).nodes@.take(old(self).nodes@.len() as int) == old(self).nodes@,
            forall|i: int|
                start <= i < end ==> spliced_node(
                    prev.nodes@[i],
                    #[trigger] final(self).nodes@[i - start + old(self).nodes@.len()],
                    start as int,
                    old(self).nodes@.len() as int,
                    old(self).active_stack@,
                ),
            contains_focus == (current_focus is Some && exists|i: int|
                start <= i < end && #[trigger] prev.nodes@[i].focus_id == current_focus),
    {
        let base = self.nodes.len();
        let ghost old_nodes = self.nodes@;
        let mut contains_focus = false;
        let mut i = start;
        while i < end
            invariant
                start <= i <= end,
                end <= prev.spec_len(),
                prev.wf(),
                base == old_nodes.len(),
                base + (end - start) <= usize::MAX,
                self.active_stack@ == old(self).active_stack@,
                forall|k: int|
                    0 <= k < old(self).active_stack@.len() ==> #[trigger] old(
                        self,
                    ).active_stack@[k] < base,
                forall|k: int|
                    start <= k < end && (#[trigger] prev.nodes@[k].parent) is Some
                        ==> prev.nodes@[k].parent->Some_0 >= start,
                self.nodes@.len() == base + (i - start),
                self.nodes@.take(base as int) == old_nodes,
                parents_wf(self.nodes@),
                forall|k: int|
                    start <= k < i ==> spliced_node(
                        prev.nodes@[k],
                        #[trigger] self.nodes@[k - start + base],
                        start as int,
                        base as int,
                        old(self).active_stack@,
                    ),
                contains_focus == (current_focus is Some && exists|k: int|
                    start <= k < i && #[trigger] prev.nodes@[k].focus_id == current_focus),
            decreases end - i,
        {
            let src = &prev.nodes[i];
            let parent: Option<usize> = match src.parent {
                Option::Some(p) => {
                    if p >= start {
                        Some(p - start + base)
                    } else {
                        // Ruled out by the precondition; kept for shape.
                        self.active_node_last()
                    }
                },
                Option::None => self.active_node_last(),
            };
            let node = DispatchNode {
                parent,
                focus_id: src.focus_id,
                context: match &src.context {
                    Option::Some(c) => Some(c.clone()),
                    Option::None => None,
                },
                key_listeners: copy_u64s(&src.key_listeners),
                modifier_listeners: copy_u64s(&src.modifier_listeners),
                action_listeners: copy_action_listeners(&src.action_listeners),
            };
            match (src.focus_id, current_focus) {
                (Option::Some(f), Option::Some(cf)) => {
                    if f == cf {
                        contains_focus = true;
                    }
                },
                _ => {},
            }
            self.nodes.push(node);
            proof {
                assert(self.nodes@.take(base as int) =~= old_nodes);
            }
            i = i + 1;
        }
        contains_focus
    }

    /// The open node new splices attach to, if any.
    fn active_node_last(&self) -> (r: Option<usize>)
        ensures
            r == if self.active_stack@.len() == 0 {
                Option::<usize>::None
            } else {
                Option::Some(self.active_stack@.last())
            },
    {
        if self.active_stack.len() == 0 {
            None
        } else {
            Some(self.active_stack[self.active_stack.len() - 1])
        }
    }
}

/// The focus ids along the dispatch path of the node carrying `id`, root
/// first; empty when no node carries `id`.
pub open spec fn spec_focus_path(nodes: Seq<DispatchNode>, id: FocusId) -> Seq<FocusId> {
    match spec_focusable_node(nodes, id, nodes.len() as int) {
        Option::Some(t) => spec_focus_ids_from(nodes, spec_dispatch_path(nodes, t as int), 0),
        Option::None => Seq::empty(),
    }
}

/// How a spliced node relates to its source: same payload, parent
/// remapped into the new frame (in-range parents move with the subtree,
/// out-of-range ones attach to the open node).
pub open spec fn spliced_node(
    src: DispatchNode,
    dst: DispatchNode,
    start: int,
    base: int,
    active_stack: Seq<usize>,
) -> bool {
    &&& dst.parent == (match src.parent {
        Option::Some(p) => if p >= start {
            Option::Some((p - start + base) as usize)
        } else {
            spec_active_last(active_stack)
        },
        Option::None => spec_active_last(active_stack),
    })
    &&& dst.focus_id == src.focus_id
    &&& (dst.context is Some <==> src.context is Some)
    &&& (src.context is Some ==> dst.context->Some_0@ == src.context->Some_0@)
    &&& dst.key_listeners@ == src.key_listeners@
    &&& dst.modifier_listeners@ == src.modifier_listeners@
    &&& dst.action_listeners@ == src.action_listeners@
}

/// The node found for a focus id among the first `n` nodes lies among
/// them.
pub proof fn lemma_focusable_in_range(nodes: Seq<DispatchNode>, id: FocusId, n: int)
    ensures
        spec_focusable_node(nodes, id, n) is Some ==> spec_focusable_node(nodes, id, n)->Some_0 < n,
    decreases n,
{
    if n <= 0 || n > nodes.len() {
    } else if nodes[n - 1].focus_id == Option::<FocusId>::Some(id) {
    } else {
        lemma_focusable_in_range(nodes, id, n - 1);
    }
}

/// The last entry of a build stack, if any.
pub open spec fn spec_active_last(active_stack: Seq<usize>) -> Option<usize> {
    if active_stack.len() == 0 {
        Option::None
    } else {
        Option::Some(active_stack.last())
    }
}

/// Field-for-field equality except the key listeners.
pub open spec fn same_but_key_listeners(a: DispatchNode, b: DispatchNode) -> bool {
    &&& a.parent == b.parent
    &&& a.focus_id == b.focus_id
    &&& a.context == b.context
    &&& a.modifier_listeners == b.modifier_listeners
    &&& a.action_listeners == b.action_listeners
}

/// Field-for-field equality except the modifier listeners.
pub open spec fn same_but_modifier_listeners(a: DispatchNode, b: DispatchNode) -> bool {
    &&& a.parent == b.parent
    &&& a.focus_id == b.focus_id
    &&& a.context == b.context
    &&& a.key_listeners == b.key_listeners
    &&& a.action_listeners == b.action_listeners
}

/// Field-for-field equality except the action listeners.
pub open spec fn same_but_action_listeners(a: DispatchNode, b: DispatchNode) -> bool {
    &&& a.parent == b.parent
    &&& a.focus_id == b.focus_id
    &&& a.context == b.context
    &&& a.key_listeners == b.key_listeners
    &&& a.modifier_listeners == b.modifier_listeners
}

/// Copies a vector of identifiers.
fn copy_u64s(v: &Vec<u64>) -> (r: Vec<u64>)
    ensures
        r@ == v@,
{
    let mut r: Vec<u64> = Vec::new();
    let mut i: usize = 0;
    while i < v.len()
        invariant
            i <= v@.len(),
            r@ == v@.take(i as int),
        decreases v@.len() - i,
    {
        r.push(v[i]);
        proof {
            assert(r@ =~= v@.take(i + 1));
        }
        i = i + 1;
    }
    proof {
        assert(v@.take(v@.len() as int) =~= v@);
    }
    r
}

/// Copies a vector of action-listener registrations.
fn copy_action_listeners(v: &Vec<ActionListener>) -> (r: Vec<ActionListener>)
    ensures
        r@ == v@,
{
    let mut r: Vec<ActionListener> = Vec::new();
    let mut i: usize = 0;
    while i < v.len()
        invariant
            i <= v@.len(),
            r@ == v@.take(i as int),
        decreases v@.len() - i,
    {
        r.push(v[i]);
        proof {
            assert(r@ =~= v@.take(i + 1));
        }
        i = i + 1;
    }
    proof {
        assert(v@.take(v@.len() as int) =~= v@);
    }
    r
}

} // verus!
