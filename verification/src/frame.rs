//! One frame of per-window render state.
//!
//! A [`Frame`] is a complete snapshot of drawable and interactive state
//! for a single render pass: hit-testable rectangles, mouse listeners in
//! paint order, a dispatch tree, scene primitives, deferred draws,
//! tooltip and cursor requests, input-handler registrations, and a cache
//! of per-element persistent state keyed by stable element identity.
//! Exactly two frames exist per window: the rendered one, live for input
//! dispatch, and the next one, being built by the current draw pass.

use vstd::prelude::*;

use crate::dispatch::DispatchTree;
use crate::focus::FocusId;
use crate::geom::Bounds;
use crate::geom::ContentMask;
use crate::geom::PaintQuad;
use crate::geom::Point;

verus! {

/// An identifier for a hitbox, unique within its window.
#[derive(Clone, Copy, Debug, PartialEq, Eq, Structural)]
pub struct HitboxId {
    /// The number the window assigned this hitbox.
    pub raw: u64,
}

/// A rectangular region that potentially blocks hitboxes inserted prior:
/// hit-testing scans back-to-front and stops at the first opaque hitbox
/// containing the probe.
#[derive(Clone, Copy, Debug, PartialEq, Eq, Structural)]
pub struct Hitbox {
    /// A unique identifier for the hitbox.
    pub id: HitboxId,
    /// The bounds of the hitbox.
    pub bounds: Bounds,
    /// The content mask at the time the hitbox was inserted.
    pub content_mask: ContentMask,
    /// Whether the hitbox occludes hitboxes inserted before it.
    pub opaque: bool,
}

impl Hitbox {
    /// Whether the probe point falls inside the hitbox once clipped by
    /// its content mask.
    pub open spec fn spec_hit(self, pos: Point) -> bool {
        self.bounds.spec_intersect(self.content_mask.bounds).spec_contains(pos)
    }

    /// Whether the hitbox and its mask are within coordinate range.
    pub open spec fn wf(self) -> bool {
        self.bounds.wf() && self.content_mask.bounds.wf()
    }
}

/// An identifier for a tooltip request.
#[derive(Clone, Copy, Debug, PartialEq, Eq, Structural)]
pub struct TooltipId {
    /// The number the window assigned this tooltip.
    pub raw: u64,
}

/// A request to show a tooltip, recorded during prepaint.
#[derive(Clone, Copy, Debug, PartialEq, Eq, Structural)]
pub struct TooltipRequest {
    /// The identifier of the request.
    pub id: TooltipId,
    /// The application's handle for the tooltip contents.
    pub tooltip: u64,
}

/// A request to show a cursor style while a hitbox is hovered, recorded
/// during paint; the request registered last wins.
#[derive(Clone, Copy, Debug, PartialEq, Eq, Structural)]
pub struct CursorStyleRequest {
    /// The hitbox that must be hovered.
    pub hitbox_id: HitboxId,
    /// The style to show, as the application's code for it.
    pub style: u32,
}

/// Emitted by a managed view to indicate it should be dismissed, such as
/// when a view is presented as a modal.
#[derive(Clone, Copy, Debug, PartialEq, Eq, Structural)]
pub struct DismissEvent;

/// An element whose drawing is postponed and re-ordered by priority;
/// higher priority paints on top. Used for overlays.
#[derive(Clone, Copy, Debug, PartialEq, Eq, Structural)]
pub struct DeferredDraw {
    /// Paint order relative to other deferred draws; ties keep insertion
    /// order.
    pub priority: usize,
    /// The dispatch-tree node the deferred element attaches to.
    pub parent_node: usize,
    /// The application's handle for the element, or nothing when the
    /// draw replays the recorded ranges from the previous frame.
    pub element: Option<u64>,
    /// Where the element is prepainted.
    pub absolute_offset: Point,
    /// Start of the recorded prepaint range.
    pub prepaint_start: PrepaintStateIndex,
    /// End of the recorded prepaint range.
    pub prepaint_end: PrepaintStateIndex,
    /// Start of the recorded paint range.
    pub paint_start: PaintIndex,
    /// End of the recorded paint range.
    pub paint_end: PaintIndex,
}

/// A checkpoint of the lengths of every collection prepaint appends to;
/// both a transaction checkpoint and the unit of cross-frame reuse.
#[derive(Clone, Copy, Debug, PartialEq, Eq, Structural)]
pub struct PrepaintStateIndex {
    /// Hitboxes recorded so far.
    pub hitboxes: usize,
    /// Tooltip requests recorded so far.
    pub tooltips: usize,
    /// Deferred draws recorded so far.
    pub deferred_draws: usize,
    /// Dispatch-tree nodes built so far.
    pub dispatch_tree: usize,
    /// Element-state accesses recorded so far.
    pub accessed_element_states: usize,
}

/// A checkpoint of the lengths of every collection paint appends to.
#[derive(Clone, Copy, Debug, PartialEq, Eq, Structural)]
pub struct PaintIndex {
    /// Scene primitives emitted so far.
    pub scene: usize,
    /// Mouse listeners registered so far.
    pub mouse_listeners: usize,
    /// Input handlers registered so far.
    pub input_handlers: usize,
    /// Cursor-style requests recorded so far.
    pub cursor_styles: usize,
    /// Element-state accesses recorded so far.
    pub accessed_element_states: usize,
}

/// The key of a per-element persistent state entry: the element's stable
/// identity and the state's type.
#[derive(Clone, Copy, Debug, PartialEq, Eq, Structural)]
pub struct ElemKey {
    /// The element's stable identity across frames.
    pub element: u64,
    /// The state's type, as the application's code for it.
    pub kind: u64,
}

/// The map an association list denotes: later entries win.
pub open spec fn assoc_map(entries: Seq<(ElemKey, u64)>) -> Map<ElemKey, u64>
    decreases entries.len(),
{
    if entries.len() == 0 {
        Map::empty()
    } else {
        assoc_map(entries.drop_last()).insert(entries.last().0, entries.last().1)
    }
}

/// Whether no key occurs twice.
pub open spec fn keys_unique(entries: Seq<(ElemKey, u64)>) -> bool {
    forall|i: int, j: int|
        0 <= i < j < entries.len() ==> (#[trigger] entries[i]).0 != (#[trigger] entries[j]).0
}

/// A key is in the denoted map exactly when some entry carries it.
pub proof fn lemma_assoc_dom(entries: Seq<(ElemKey, u64)>, key: ElemKey)
    ensures
        assoc_map(entries).contains_key(key) <==> exists|i: int|
            0 <= i < entries.len() && (#[trigger] entries[i]).0 == key,
    decreases entries.len(),
{
    if entries.len() == 0 {
    } else {
        lemma_assoc_dom(entries.drop_last(), key);
        if entries.last().0 == key {
            assert(entries[entries.len() - 1].0 == key);
        } else if assoc_map(entries).contains_key(key) {
            let i = choose|i: int| 0 <= i < entries.drop_last().len() && (#[trigger] entries.drop_last()[i]).0 == key;
            assert(entries[i].0 == key);
        } else {
            assert forall|i: int|
                0 <= i < entries.len() && (#[trigger] entries[i]).0 == key implies false by {
                if i < entries.len() - 1 {
                    assert(entries.drop_last()[i].0 == key);
                }
            }
        }
    }
}

/// Removing the entry at `i` removes exactly its key from the denoted
/// map, provided keys are unique.
pub proof fn lemma_assoc_remove(entries: Seq<(ElemKey, u64)>, i: int)
    requires
        keys_unique(entries),
        0 <= i < entries.len(),
    ensures
        assoc_map(entries.remove(i)) == assoc_map(entries).remove(entries[i].0),
    decreases entries.len(),
{
    let k = entries[i].0;
    if i == entries.len() - 1 {
        assert(entries.remove(i) =~= entries.drop_last());
        lemma_assoc_dom(entries.drop_last(), k);
        assert(!assoc_map(entries.drop_last()).contains_key(k)) by {
            if assoc_map(entries.drop_last()).contains_key(k) {
                let j = choose|j: int|
                    0 <= j < entries.drop_last().len() && (#[trigger] entries.drop_last()[j]).0
                        == k;
                assert(entries[j].0 == k);
            }
        }
        assert(assoc_map(entries.drop_last()).insert(k, entries.last().1).remove(k)
            =~= assoc_map(entries.drop_last()));
    } else {
        let shorter = entries.drop_last();
        assert(keys_unique(shorter)) by {
            assert forall|a: int, b: int|
                0 <= a < b < shorter.len() implies (#[trigger] shorter[a]).0 != (
            #[trigger] shorter[b]).0 by {
                assert(entries[a].0 != entries[b].0);
            }
        }
        lemma_assoc_remove(shorter, i);
        assert(entries.remove(i).drop_last() =~= shorter.remove(i));
        assert(entries.remove(i).last() == entries.last());
        assert(entries.last().0 != k);
        assert(assoc_map(shorter.remove(i)).insert(entries.last().0, entries.last().1)
            =~= assoc_map(shorter).insert(entries.last().0, entries.last().1).remove(k));
    }
}

/// The cache of per-element persistent state for one frame: an
/// association list with unique keys, read as the map it denotes.
#[derive(Debug)]
pub struct StateTable {
    entries: Vec<(ElemKey, u64)>,
}

impl StateTable {
    /// The map this table denotes.
    pub closed spec fn view_map(&self) -> Map<ElemKey, u64> {
        assoc_map(self.entries@)
    }

    /// The table's internal consistency: no key occurs twice.
    pub closed spec fn wf(&self) -> bool {
        keys_unique(self.entries@)
    }

    /// An empty table.
    pub fn new() -> (r: StateTable)
        ensures
            r.wf(),
            (r.view_map() == Map::<ElemKey, u64>::empty()),
    {
        StateTable { entries: Vec::new() }
    }

    /// Empties the table.
    pub fn clear(&mut self)
        ensures
            final(self).wf(),
            (final(self).view_map() == Map::<ElemKey, u64>::empty()),
    {
        self.entries.clear();
    }

    /// The value stored under a key, if any.
    pub fn lookup(&self, key: ElemKey) -> (r: Option<u64>)
        requires
            self.wf(),
        ensures
            r == if self.view_map().contains_key(key) {
                Option::Some(self.view_map()[key])
            } else {
                Option::<u64>::None
            },
    {
        proof {
            assert(self.entries@.take(self.entries@.len() as int) =~= self.entries@);
        }
        self.lookup_from(key, self.entries.len())
    }

    /// The value among the first `n` entries, last entry winning.
    fn lookup_from(&self, key: ElemKey, n: usize) -> (r: Option<u64>)
        requires
            n <= self.entries@.len(),
        ensures
            r == if assoc_map(self.entries@.take(n as int)).contains_key(key) {
                Option::Some(assoc_map(self.entries@.take(n as int))[key])
            } else {
                Option::<u64>::None
            },
        decreases n,
    {
        if n == 0 {
            proof {
                assert(self.entries@.take(0) =~= Seq::<(ElemKey, u64)>::empty());
            }
            None
        } else {
            let e = self.entries[n - 1];
            proof {
                assert(self.entries@.take(n as int).drop_last() =~= self.entries@.take(n - 1));
                assert(self.entries@.take(n as int).last() == e);
            }
            if e.0 == key {
                Some(e.1)
            } else {
                self.lookup_from(key, n - 1)
            }
        }
    }

    /// Removes the entry under a key, returning its value: how a draw
    /// pass takes ownership of an element's state.
    pub fn take(&mut self, key: ElemKey) -> (r: Option<u64>)
        requires
            old(self).wf(),
        ensures
            final(self).wf(),
            r == if old(self).view_map().contains_key(key) {
                Option::Some(old(self).view_map()[key])
            } else {
                Option::<u64>::None
            },
            (final(self).view_map() == old(self).view_map().remove(key)),
    {
        let mut i: usize = 0;
        while i < self.entries.len()
            invariant
                i <= self.entries@.len(),
                self.entries@ == old(self).entries@,
                keys_unique(self.entries@),
                forall|k: int| 0 <= k < i ==> (#[trigger] self.entries@[k]).0 != key,
            decreases self.entries@.len() - i,
        {
            if self.entries[i].0 == key {
                let e = self.entries.remove(i);
                proof {
                    lemma_assoc_remove(old(self).entries@, i as int);
                    lemma_assoc_dom(old(self).entries@, key);
                    assert(keys_unique(self.entries@)) by {
                        assert forall|a: int, b: int|
                            0 <= a < b < self.entries@.len() implies (
                        #[trigger] self.entries@[a]).0 != (#[trigger] self.entries@[b]).0 by {
                            let oa: int = if a < i {
                                a
                            } else {
                                a + 1
                            };
                            let ob: int = if b < i {
                                b
                            } else {
                                b + 1
                            };
                            assert(self.entries@[a] == old(self).entries@[oa]);
                            assert(self.entries@[b] == old(self).entries@[ob]);
                            assert(old(self).entries@[oa].0 != old(self).entries@[ob].0);
                        }
                    }
                    lemma_assoc_lookup_unique(old(self).entries@, i as int);
                }
                return Some(e.1);
            }
            i = i + 1;
        }
        proof {
            lemma_assoc_dom(self.entries@, key);
            assert(!self.view_map().contains_key(key));
            assert(self.view_map().remove(key) =~= self.view_map());
        }
        None
    }

    /// Stores a value under a key, replacing any previous value.
    pub fn put(&mut self, key: ElemKey, value: u64)
        requires
            old(self).wf(),
        ensures
            final(self).wf(),
            (final(self).view_map() == old(self).view_map().insert(key, value)),
    {
        let _ = self.take(key);
        let ghost mid = *self;
        self.entries.push((key, value));
        proof {
            assert(self.entries@.drop_last() =~= mid.entries@);
            lemma_assoc_dom(mid.entries@, key);
            assert(!assoc_map(mid.entries@).contains_key(key));
            assert(keys_unique(self.entries@)) by {
                assert forall|a: int, b: int|
                    0 <= a < b < self.entries@.len() implies (#[trigger] self.entries@[a]).0 != (
                #[trigger] self.entries@[b]).0 by {
                    if b < self.entries@.len() - 1 {
                        assert(mid.entries@[a].0 != mid.entries@[b].0);
                    } else {
                        assert(self.entries@[b].0 == key);
                        if exists|ii: int|
                            0 <= ii < mid.entries@.len() && (#[trigger] mid.entries@[ii]).0
                                == key {
                            assert(assoc_map(mid.entries@).contains_key(key));
                        }
                        assert(mid.entries@[a].0 != key);
                    }
                }
            }
            assert(old(self).view_map().remove(key).insert(key, value) =~= old(
                self,
            ).view_map().insert(key, value));
        }
    }

    /// How many entries the table holds.
    pub closed spec fn spec_len(&self) -> nat {
        self.entries@.len()
    }

    /// How many entries the table holds.
    pub fn len(&self) -> (r: usize)
        ensures
            r == self.spec_len(),
    {
        self.entries.len()
    }
}

/// The hitboxes under a probe point among the first `n`, scanned
/// back-to-front (last inserted first), stopping at the first opaque
/// hitbox that contains the probe: overlapping regions observe z-order
/// without a depth buffer.
pub open spec fn spec_hit_test(hbs: Seq<Hitbox>, pos: Point, n: int) -> Seq<HitboxId>
    decreases n,
{
    if n <= 0 || n > hbs.len() {
        Seq::empty()
    } else {
        let hb = hbs[n - 1];
        if hb.spec_hit(pos) {
            if hb.opaque {
                seq![hb.id]
            } else {
                seq![hb.id] + spec_hit_test(hbs, pos, n - 1)
            }
        } else {
            spec_hit_test(hbs, pos, n - 1)
        }
    }
}

/// One step of migrating accessed element state out of the previous
/// frame, from position `i` of the access list on: an accessed key still
/// held by the previous frame moves (its value overriding any in the new
/// frame); everything else in the previous frame is left to be dropped.
/// Yields the new frame's states and what remains of the previous
/// frame's.
pub open spec fn spec_migrate(
    nxt: Map<ElemKey, u64>,
    prv: Map<ElemKey, u64>,
    accessed: Seq<ElemKey>,
    i: int,
) -> (Map<ElemKey, u64>, Map<ElemKey, u64>)
    decreases accessed.len() - i,
{
    if i < 0 || i >= accessed.len() {
        (nxt, prv)
    } else {
        let k = accessed[i];
        if prv.contains_key(k) {
            spec_migrate(nxt.insert(k, prv[k]), prv.remove(k), accessed, i + 1)
        } else {
            spec_migrate(nxt, prv, accessed, i + 1)
        }
    }
}

/// Migration only adds accessed keys: an element-state entry whose key
/// was not accessed during the pass, and which the new frame does not
/// hold itself, does not survive into the new frame. This is how the
/// cache self-prunes for unmounted elements.
pub proof fn lemma_unaccessed_state_dropped(
    nxt: Map<ElemKey, u64>,
    prv: Map<ElemKey, u64>,
    accessed: Seq<ElemKey>,
    k: ElemKey,
)
    requires
        !nxt.contains_key(k),
        forall|i: int| 0 <= i < accessed.len() ==> accessed[i] != k,
    ensures
        !spec_migrate(nxt, prv, accessed, 0).0.contains_key(k),
{
    lemma_unaccessed_from(nxt, prv, accessed, k, 0);
}

/// Helper induction for [`lemma_unaccessed_state_dropped`].
proof fn lemma_unaccessed_from(
    nxt: Map<ElemKey, u64>,
    prv: Map<ElemKey, u64>,
    accessed: Seq<ElemKey>,
    k: ElemKey,
    i: int,
)
    requires
        !nxt.contains_key(k),
        forall|j: int| 0 <= j < accessed.len() ==> accessed[j] != k,
        0 <= i,
    ensures
        !spec_migrate(nxt, prv, accessed, i).0.contains_key(k),
    decreases accessed.len() - i,
{
    if i >= accessed.len() {
    } else {
        let key = accessed[i];
        if prv.contains_key(key) {
            lemma_unaccessed_from(nxt.insert(key, prv[key]), prv.remove(key), accessed, k, i + 1);
        } else {
            lemma_unaccessed_from(nxt, prv, accessed, k, i + 1);
        }
    }
}

/// One complete snapshot of drawable and interactive state for a single
/// render pass.
#[derive(Debug)]
pub struct Frame {
    /// The focus id the pass saw as focused, if any.
    pub focus: Option<FocusId>,
    /// Whether the window was active when the frame was drawn.
    pub window_active: bool,
    /// Per-element persistent state, keyed by stable element identity and
    /// state type.
    pub element_states: StateTable,
    /// The keys accessed during the pass, in access order; what
    /// [`Frame::finish`] migrates.
    pub accessed_element_states: Vec<ElemKey>,
    /// Mouse listeners in paint order (front-to-back insertion).
    pub mouse_listeners: Vec<u64>,
    /// The dispatch tree built during the pass.
    pub dispatch_tree: DispatchTree,
    /// Scene primitives in paint order: later entries draw on top.
    pub scene: Vec<PaintQuad>,
    /// Hit-testable rectangles in insertion order.
    pub hitboxes: Vec<Hitbox>,
    /// Overlay elements to draw after the main tree, ordered by priority.
    pub deferred_draws: Vec<DeferredDraw>,
    /// Input-handler registrations, in paint order.
    pub input_handlers: Vec<u64>,
    /// Tooltip requests recorded during prepaint.
    pub tooltip_requests: Vec<TooltipRequest>,
    /// Cursor-style requests recorded during paint.
    pub cursor_styles: Vec<CursorStyleRequest>,
}

/// Whether every per-frame collection is empty and no focus is recorded.
pub open spec fn frame_cleared(f: Frame) -> bool {
    &&& f.focus is None
    &&& (f.element_states.view_map() == Map::<ElemKey, u64>::empty())
    &&& f.accessed_element_states@.len() == 0
    &&& f.mouse_listeners@.len() == 0
    &&& f.dispatch_tree.nodes@.len() == 0
    &&& f.scene@.len() == 0
    &&& f.hitboxes@.len() == 0
    &&& f.deferred_draws@.len() == 0
    &&& f.input_handlers@.len() == 0
    &&& f.tooltip_requests@.len() == 0
    &&& f.cursor_styles@.len() == 0
}

impl Frame {
    /// The frame's internal consistency.
    pub open spec fn wf(&self) -> bool {
        &&& self.element_states.wf()
        &&& self.dispatch_tree.wf()
        &&& forall|i: int| 0 <= i < self.hitboxes@.len() ==> (#[trigger] self.hitboxes@[i]).wf()
    }

    /// An empty frame.
    pub fn new() -> (r: Frame)
        ensures
            r.wf(),
            frame_cleared(r),
            !r.window_active,
    {
        Frame {
            focus: None,
            window_active: false,
            element_states: StateTable::new(),
            accessed_element_states: Vec::new(),
            mouse_listeners: Vec::new(),
            dispatch_tree: DispatchTree::new(),
            scene: Vec::new(),
            hitboxes: Vec::new(),
            deferred_draws: Vec::new(),
            input_handlers: Vec::new(),
            tooltip_requests: Vec::new(),
            cursor_styles: Vec::new(),
        }
    }

    /// Resets every per-frame collection for reuse, avoiding
    /// reallocation. The window-active bit is kept: it describes the
    /// window, not the pass.
    pub fn clear(&mut self)
        ensures
            final(self).wf(),
            frame_cleared(*final(self)),
            final(self).window_active == old(self).window_active,
    {
        self.element_states.clear();
        self.accessed_element_states.clear();
        self.mouse_listeners.clear();
        self.dispatch_tree.clear();
        self.scene.clear();
        self.input_handlers.clear();
        self.tooltip_requests.clear();
        self.cursor_styles.clear();
        self.hitboxes.clear();
        self.deferred_draws.clear();
        self.focus = None;
    }

    /// The ordered hitbox ids under a probe point: back-to-front, ending
    /// at the first opaque hitbox containing it.
    pub fn hit_test(&self, position: Point) -> (r: Vec<HitboxId>)
        requires
            self.wf(),
            position.wf(),
        ensures
            r@ == spec_hit_test(self.hitboxes@, position, self.hitboxes@.len() as int),
    {
        self.hit_from(position, self.hitboxes.len())
    }

    /// The hit-test result over the first `n` hitboxes.
    fn hit_from(&self, position: Point, n: usize) -> (r: Vec<HitboxId>)
        requires
            self.wf(),
            position.wf(),
            n <= self.hitboxes@.len(),
        ensures
            r@ == spec_hit_test(self.hitboxes@, position, n as int),
        decreases n,
    {
        if n == 0 {
            Vec::new()
        } else {
            let hb = self.hitboxes[n - 1];
            let clipped = hb.bounds.intersect(&hb.content_mask.bounds);
            if clipped.contains(&position) {
                let mut out: Vec<HitboxId> = Vec::new();
                out.push(hb.id);
                if !hb.opaque {
                    let mut rest = self.hit_from(position, n - 1);
                    out.append(&mut rest);
                }
                out
            } else {
                self.hit_from(position, n - 1)
            }
        }
    }

    /// The focus ids along the dispatch path of the focused node, root
    /// first; empty while nothing is focused.
    pub fn focus_path(&self) -> (r: Vec<FocusId>)
        requires
            self.wf(),
        ensures
            r@ == spec_frame_focus_path(*self),
    {
        match self.focus {
            Option::Some(id) => self.dispatch_tree.focus_path(id),
            Option::None => Vec::new(),
        }
    }

    /// Migrates into this frame the per-element state that was accessed
    /// during the pass and still lives in the previous frame; state not
    /// re-accessed stays behind, to be dropped when the previous frame is
    /// cleared.
    pub fn finish(&mut self, prev: &mut Frame)
        requires
            old(self).wf(),
            old(prev).wf(),
        ensures
            final(self).wf(),
            final(prev).wf(),
            (final(self).element_states.view_map(), final(prev).element_states.view_map())
                == spec_migrate(
                old(self).element_states.view_map(),
                old(prev).element_states.view_map(),
                old(self).accessed_element_states@,
                0,
            ),
            frame_unchanged_but_states(*old(self), *final(self)),
            frame_unchanged_but_states(*old(prev), *final(prev)),
    {
        let ghost orig_self = *old(self);
        let ghost orig_prev = *old(prev);
        let n = self.accessed_element_states.len();
        let mut i: usize = 0;
        while i < n
            invariant
                i <= n,
                n == self.accessed_element_states@.len(),
                self.wf(),
                prev.wf(),
                self.accessed_element_states@ == orig_self.accessed_element_states@,
                spec_migrate(
                    orig_self.element_states.view_map(),
                    orig_prev.element_states.view_map(),
                    orig_self.accessed_element_states@,
                    0,
                ) == spec_migrate(
                    self.element_states.view_map(),
                    prev.element_states.view_map(),
                    self.accessed_element_states@,
                    i as int,
                ),
                frame_unchanged_but_states(orig_self, *self),
                frame_unchanged_but_states(orig_prev, *prev),
            decreases n - i,
        {
            let key = self.accessed_element_states[i];
            let ghost pre_n = self.element_states.view_map();
            let ghost pre_p = prev.element_states.view_map();
            match prev.element_states.take(key) {
                Option::Some(v) => {
                    self.element_states.put(key, v);
                    proof {
                        reveal_with_fuel(spec_migrate, 2);
                        assert(pre_p.contains_key(key));
                        assert(self.element_states.view_map() == pre_n.insert(key, pre_p[key]));
                        assert(prev.element_states.view_map() == pre_p.remove(key));
                        assert(spec_migrate(pre_n, pre_p, self.accessed_element_states@, i as int)
                            == spec_migrate(
                            self.element_states.view_map(),
                            prev.element_states.view_map(),
                            self.accessed_element_states@,
                            i + 1,
                        ));
                    }
                },
                Option::None => {
                    proof {
                        reveal_with_fuel(spec_migrate, 2);
                        assert(!pre_p.contains_key(key));
                        assert(pre_p.remove(key) =~= pre_p);
                        assert(spec_migrate(pre_n, pre_p, self.accessed_element_states@, i as int)
                            == spec_migrate(
                            self.element_states.view_map(),
                            prev.element_states.view_map(),
                            self.accessed_element_states@,
                            i + 1,
                        ));
                    }
                },
            }
            i = i + 1;
        }
    }
}

/// The focus ids along the dispatch path of the frame's focused node.
pub open spec fn spec_frame_focus_path(f: Frame) -> Seq<FocusId> {
    match f.focus {
        Option::Some(id) => crate::dispatch::spec_focus_path(f.dispatch_tree.nodes@, id),
        Option::None => Seq::empty(),
    }
}

/// Field-for-field equality except the element-state table and what
/// remains of the previous frame's after migration.
pub open spec fn frame_unchanged_but_states(a: Frame, b: Frame) -> bool {
    &&& a.focus == b.focus
    &&& a.window_active == b.window_active
    &&& a.accessed_element_states == b.accessed_element_states
    &&& a.mouse_listeners == b.mouse_listeners
    &&& a.dispatch_tree == b.dispatch_tree
    &&& a.scene == b.scene
    &&& a.hitboxes == b.hitboxes
    &&& a.deferred_draws == b.deferred_draws
    &&& a.input_handlers == b.input_handlers
    &&& a.tooltip_requests == b.tooltip_requests
    &&& a.cursor_styles == b.cursor_styles
}

/// The hit-test occlusion rule on two stacked hitboxes. With hitbox `a`
/// inserted before hitbox `b`, both opaque: a probe inside `b` (clipped)
/// reports `b` alone, whatever `a` covers; a probe outside `b` but
/// inside `a` reports `a` alone.
pub proof fn lemma_hit_test_occlusion(a: Hitbox, b: Hitbox, pos: Point)
    requires
        a.opaque,
        b.opaque,
    ensures
        b.spec_hit(pos) ==> spec_hit_test(seq![a, b], pos, 2) == seq![b.id],
        !b.spec_hit(pos) && a.spec_hit(pos) ==> spec_hit_test(seq![a, b], pos, 2) == seq![a.id],
{
    let hbs = seq![a, b];
    assert(hbs[1] == b);
    assert(hbs[0] == a);
    if b.spec_hit(pos) {
        assert(spec_hit_test(hbs, pos, 2) =~= seq![b.id]);
    } else if a.spec_hit(pos) {
        assert(spec_hit_test(hbs, pos, 1) =~= seq![a.id]);
        assert(spec_hit_test(hbs, pos, 2) =~= seq![a.id]);
    }
}

/// With unique keys, the entry at `i` is the one the denoted map holds
/// for its key.
proof fn lemma_assoc_lookup_unique(entries: Seq<(ElemKey, u64)>, i: int)
    requires
        keys_unique(entries),
        0 <= i < entries.len(),
    ensures
        assoc_map(entries).contains_key(entries[i].0),
        assoc_map(entries)[entries[i].0] == entries[i].1,
    decreases entries.len(),
{
    if i == entries.len() - 1 {
    } else {
        let shorter = entries.drop_last();
        assert(keys_unique(shorter)) by {
            assert forall|a: int, b: int|
                0 <= a < b < shorter.len() implies (#[trigger] shorter[a]).0 != (
            #[trigger] shorter[b]).0 by {
                assert(entries[a].0 != entries[b].0);
            }
        }
        lemma_assoc_lookup_unique(shorter, i);
        assert(entries[i].0 != entries.last().0);
    }
}

} // verus!
