//! Per-window state and the draw-pass state machine.
//!
//! A [`Window`] owns the two frames (`rendered_frame`, live for input
//! dispatch, and `next_frame`, being built), the focus registry and the
//! current focus, the keymap and any pending multi-keystroke input, and
//! the mouse state. A draw pass walks Idle → Prepaint → Paint → Focus →
//! Idle; each mutation method is valid in exactly one phase and demands
//! it as a precondition. A prepaint transaction is a checkpoint of the
//! per-frame collection lengths; rolling back truncates them, so a failed
//! speculative prepaint (autoscroll) leaks no state.

use vstd::prelude::*;

use crate::focus::FocusHandle;
use crate::focus::FocusId;
use crate::focus::FocusRegistry;
use crate::focus::FOCUS_ID_CAP;
use crate::frame::CursorStyleRequest;
use crate::frame::DeferredDraw;
use crate::frame::Frame;
use crate::frame::Hitbox;
use crate::frame::HitboxId;
use crate::frame::PaintIndex;
use crate::frame::PrepaintStateIndex;
use crate::frame::TooltipId;
use crate::frame::TooltipRequest;
use crate::geom::Bounds;
use crate::geom::ContentMask;
use crate::geom::PaintQuad;
use crate::geom::Point;
use crate::geom::Size;
use crate::keymap::Keymap;
use crate::keymap::Keystroke;
use crate::keymap::Modifiers;

verus! {

/// The phase a draw pass is in. One pass per drawn frame; the focus
/// phase is a short reconciliation step, not user-visible drawing.
#[derive(Clone, Copy, Debug, PartialEq, Eq, Structural)]
pub enum DrawPhase {
    /// No pass is running; input dispatch is allowed.
    Idle,
    /// The element tree is being measured and laid out.
    Prepaint,
    /// Primitives are being emitted.
    Paint,
    /// The frames were swapped; focus changes are being reconciled.
    Focus,
}

/// Tracking of a possible lone-modifier keystroke: the modifiers last
/// reported and whether a real key went down since they were pressed.
#[derive(Clone, Copy, Debug, PartialEq, Eq, Structural)]
pub struct ModifierState {
    /// The modifiers as of the last modifier-change event.
    pub modifiers: Modifiers,
    /// Whether a key went down while they were held.
    pub saw_keystroke: bool,
}

/// A partially matched multi-keystroke sequence, waiting for more input
/// or a timeout.
#[derive(Debug)]
pub struct PendingInput {
    /// The keystrokes typed so far.
    pub keystrokes: Vec<Keystroke>,
    /// The focus when matching began; a focus change abandons the
    /// sequence.
    pub focus: Option<FocusId>,
}

/// Per-window state: the double-buffered frames and everything input
/// dispatch and drawing need between passes.
pub struct Window {
    /// The last frame completed: live for input dispatch.
    pub rendered_frame: Frame,
    /// The frame the current (or next) draw pass builds.
    pub next_frame: Frame,
    /// The registry of focus ids and their handle counts.
    pub focus_handles: FocusRegistry,
    /// The focused region, if any.
    pub focus: Option<FocusId>,
    /// Whether focus changes are allowed; disabling blurs for good.
    pub focus_enabled: bool,
    /// Where the draw pass stands.
    pub draw_phase: DrawPhase,
    /// Whether the window needs to be redrawn.
    pub dirty: bool,
    /// Whether the whole window is being refreshed this pass.
    pub refreshing: bool,
    /// Whether the last drawn scene still awaits presentation.
    pub needs_present: bool,
    /// Whether the platform reports the window active.
    pub active: bool,
    /// Whether the platform reports the pointer over the window.
    pub hovered: bool,
    /// The drawable area of the window.
    pub viewport_size: Size,
    /// The pointer position, tracked from events.
    pub mouse_position: Point,
    /// The keyboard modifiers, tracked from events.
    pub modifiers: Modifiers,
    /// The hit-test result at the pointer, against the rendered frame.
    pub mouse_hit_test: Vec<HitboxId>,
    /// The next hitbox number to hand out.
    pub next_hitbox_id: u64,
    /// The next tooltip number to hand out.
    pub next_tooltip_id: u64,
    /// A partially matched keystroke sequence, if one is in flight.
    pub pending_input: Option<PendingInput>,
    /// Lone-modifier tracking for synthesized modifier keystrokes.
    pub pending_modifier: ModifierState,
    /// The active keymap.
    pub keymap: Keymap,
    /// The stack of element offsets pushed during prepaint.
    pub element_offset_stack: Vec<Point>,
    /// The stack of content masks pushed during drawing.
    pub content_mask_stack: Vec<ContentMask>,
    /// The bounds an element asked to be scrolled into view, if any.
    pub requested_autoscroll: Option<Bounds>,
    /// Whether a handler asked to prevent the event's default effect.
    pub default_prevented: bool,
}

impl Window {
    /// The window's internal consistency.
    pub open spec fn wf(&self) -> bool {
        &&& self.focus_handles.wf()
        &&& self.rendered_frame.wf()
        &&& self.next_frame.wf()
        &&& self.viewport_size.wf()
        &&& self.mouse_position.wf()
        &&& (self.focus is Some ==> self.focus_handles.counts().contains_key(
            self.focus->Some_0.raw,
        ))
        &&& forall|i: int|
            0 <= i < self.content_mask_stack@.len() ==> (
            #[trigger] self.content_mask_stack@[i]).bounds.wf()
    }

    /// Builds the state of a freshly opened window: empty frames, no
    /// focus, dirty so that a first frame is drawn.
    pub fn new(viewport_size: Size) -> (r: Window)
        requires
            viewport_size.wf(),
        ensures
            r.wf(),
            crate::frame::frame_cleared(r.rendered_frame),
            crate::frame::frame_cleared(r.next_frame),
            (r.focus_handles.counts() == Map::<u64, usize>::empty()),
            r.focus is None,
            r.focus_enabled,
            r.draw_phase == DrawPhase::Idle,
            r.dirty,
            !r.refreshing,
            !r.needs_present,
            r.viewport_size == viewport_size,
            r.pending_input is None,
            r.keymap.bindings@.len() == 0,
            r.next_hitbox_id == 0,
            r.next_tooltip_id == 0,
            r.mouse_hit_test@.len() == 0,
            r.content_mask_stack@.len() == 0,
            r.element_offset_stack@.len() == 0,
            r.requested_autoscroll is None,
    {
        Window {
            rendered_frame: Frame::new(),
            next_frame: Frame::new(),
            focus_handles: FocusRegistry::new(),
            focus: None,
            focus_enabled: true,
            draw_phase: DrawPhase::Idle,
            dirty: true,
            refreshing: false,
            needs_present: false,
            active: false,
            hovered: false,
            viewport_size,
            mouse_position: Point { x: 0, y: 0 },
            modifiers: Modifiers::none(),
            mouse_hit_test: Vec::new(),
            next_hitbox_id: 0,
            next_tooltip_id: 0,
            pending_input: None,
            pending_modifier: ModifierState {
                modifiers: Modifiers::none(),
                saw_keystroke: false,
            },
            keymap: Keymap::new(),
            element_offset_stack: Vec::new(),
            content_mask_stack: Vec::new(),
            requested_autoscroll: None,
            default_prevented: false,
        }
    }

    /// Marks the window dirty so it is redrawn on the next frame; a
    /// no-op while a pass is running (the pass redraws anyway).
    pub fn refresh(&mut self)
        ensures
            *final(self) == if old(self).draw_phase == DrawPhase::Idle {
                (Window { refreshing: true, dirty: true, ..*old(self) })
            } else {
                *old(self)
            },
    {
        if matches!(self.draw_phase, DrawPhase::Idle) {
            self.refreshing = true;
            self.dirty = true;
        }
    }

    /// Obtains a fresh focus handle from the window's registry.
    pub fn focus_handle(&mut self) -> (h: FocusHandle)
        requires
            old(self).wf(),
            old(self).focus_handles.len() < FOCUS_ID_CAP,
        ensures
            final(self).wf(),
            *final(self) == (Window { focus_handles: final(self).focus_handles, ..*old(self) }),
            !old(self).focus_handles.counts().contains_key(h.id.raw),
            final(self).focus_handles.counts() == old(self).focus_handles.counts().insert(
                h.id.raw,
                1usize,
            ),
    {
        self.focus_handles.create()
    }

    /// Moves focus to the element associated with the handle: a no-op
    /// when focus is disabled or the element is already focused;
    /// otherwise any pending keystroke sequence is abandoned and a
    /// redraw scheduled.
    pub fn focus(&mut self, handle: &FocusHandle)
        ensures
            *final(self) == if !old(self).focus_enabled || old(self).focus == Option::Some(
                handle.id,
            ) {
                *old(self)
            } else {
                (Window {
                    focus: Option::Some(handle.id),
                    pending_input: Option::None,
                    refreshing: old(self).draw_phase == DrawPhase::Idle || old(self).refreshing,
                    dirty: old(self).draw_phase == DrawPhase::Idle || old(self).dirty,
                    ..*old(self)
                })
            },
    {
        if !self.focus_enabled {
            return ;
        }
        match self.focus {
            Option::Some(cur) => {
                if cur == handle.id {
                    return ;
                }
            },
            Option::None => {},
        }
        self.focus = Some(handle.id);
        self.pending_input = None;
        self.refresh();
    }

    /// Removes focus from every element in the window (when focus is
    /// enabled) and schedules a redraw.
    pub fn blur(&mut self)
        ensures
            *final(self) == if !old(self).focus_enabled {
                *old(self)
            } else {
                (Window {
                    focus: Option::<FocusId>::None,
                    refreshing: old(self).draw_phase == DrawPhase::Idle || old(self).refreshing,
                    dirty: old(self).draw_phase == DrawPhase::Idle || old(self).dirty,
                    ..*old(self)
                })
            },
    {
        if !self.focus_enabled {
            return ;
        }
        self.focus = None;
        self.refresh();
    }

    /// Blurs the window and prevents anything in it from being focused
    /// again.
    pub fn disable_focus(&mut self)
        ensures
            *final(self) == (Window {
                focus: if old(self).focus_enabled {
                    Option::<FocusId>::None
                } else {
                    old(self).focus
                },
                refreshing: (old(self).focus_enabled && old(self).draw_phase == DrawPhase::Idle)
                    || old(self).refreshing,
                dirty: (old(self).focus_enabled && old(self).draw_phase == DrawPhase::Idle) || old(
                    self,
                ).dirty,
                focus_enabled: false,
                ..*old(self)
            }),
    {
        self.blur();
        self.focus_enabled = false;
    }

    /// Whether the element associated with the handle is focused.
    pub fn is_focused(&self, handle: &FocusHandle) -> (r: bool)
        ensures
            r == (self.focus == Option::Some(handle.id)),
    {
        match self.focus {
            Option::Some(cur) => cur == handle.id,
            Option::None => false,
        }
    }

    /// Whether the element associated with the handle contains the
    /// focused element or is itself focused, per the most recently
    /// rendered frame.
    pub fn contains_focused(&self, handle: &FocusHandle) -> (r: bool)
        requires
            self.wf(),
        ensures
            r == match self.focus {
                Option::Some(f) => crate::dispatch::spec_focus_path(
                    self.rendered_frame.dispatch_tree.nodes@,
                    f,
                ).contains(handle.id),
                Option::None => false,
            },
    {
        match self.focus {
            Option::Some(f) => self.rendered_frame.dispatch_tree.focus_contains(handle.id, f),
            Option::None => false,
        }
    }

    /// Whether the element associated with the handle sits within (or
    /// is) the focused element, per the most recently rendered frame.
    pub fn within_focused(&self, handle: &FocusHandle) -> (r: bool)
        requires
            self.wf(),
        ensures
            r == match self.focus {
                Option::Some(f) => crate::dispatch::spec_focus_path(
                    self.rendered_frame.dispatch_tree.nodes@,
                    handle.id,
                ).contains(f),
                Option::None => false,
            },
    {
        match self.focus {
            Option::Some(f) => self.rendered_frame.dispatch_tree.focus_contains(f, handle.id),
            Option::None => false,
        }
    }

    /// Tracks a viewport change reported by the platform (a resize or a
    /// move across displays) and schedules a redraw.
    pub fn bounds_changed(&mut self, viewport_size: Size)
        requires
            viewport_size.wf(),
        ensures
            *final(self) == (Window {
                viewport_size,
                refreshing: old(self).draw_phase == DrawPhase::Idle || old(self).refreshing,
                dirty: old(self).draw_phase == DrawPhase::Idle || old(self).dirty,
                ..*old(self)
            }),
    {
        self.viewport_size = viewport_size;
        self.refresh();
    }

    /// Tracks the platform's report of whether the window is active.
    pub fn set_active(&mut self, active: bool)
        ensures
            *final(self) == (Window { active, ..*old(self) }),
    {
        self.active = active;
    }

    /// Whether the operating system reports this window focused.
    pub fn is_window_active(&self) -> (r: bool)
        ensures
            r == self.active,
    {
        self.active
    }

    /// The currently focused handle: upgrades the focused id to a new
    /// strong handle, or nothing while no element is focused or the id's
    /// handles are all gone.
    pub fn focused(&mut self) -> (r: Option<FocusHandle>)
        requires
            old(self).wf(),
            old(self).focus is Some ==> old(self).focus_handles.counts()[old(
                self,
            ).focus->Some_0.raw] < usize::MAX,
        ensures
            final(self).wf(),
            *final(self) == (Window { focus_handles: final(self).focus_handles, ..*old(self) }),
            r is Some <==> (old(self).focus is Some && crate::focus::upgrade_succeeds(
                old(self).focus_handles.counts(),
                old(self).focus->Some_0.raw,
            )),
            r is Some ==> r->Some_0.id == old(self).focus->Some_0,
            old(self).focus is Some ==> final(self).focus_handles.counts()
                == crate::focus::apply_handle_op(
                old(self).focus_handles.counts(),
                crate::focus::HandleOp::Dup(old(self).focus->Some_0.raw),
            ),
            old(self).focus is None ==> final(self).focus_handles == old(self).focus_handles,
    {
        match self.focus {
            Option::Some(id) => {
                let weak = crate::focus::WeakFocusHandle { id };
                self.focus_handles.upgrade(&weak)
            },
            Option::None => None,
        }
    }

    /// The content mask in effect: the last one pushed, or the whole
    /// viewport.
    pub open spec fn spec_content_mask(&self) -> ContentMask {
        if self.content_mask_stack@.len() == 0 {
            ContentMask {
                bounds: Bounds { origin: Point { x: 0, y: 0 }, size: self.viewport_size },
            }
        } else {
            self.content_mask_stack@.last()
        }
    }

    /// The content mask in effect during drawing.
    pub fn content_mask(&self) -> (r: ContentMask)
        requires
            self.wf(),
            self.draw_phase == DrawPhase::Prepaint || self.draw_phase == DrawPhase::Paint,
        ensures
            r == self.spec_content_mask(),
            r.bounds.wf(),
    {
        if self.content_mask_stack.len() == 0 {
            ContentMask {
                bounds: Bounds { origin: Point { x: 0, y: 0 }, size: self.viewport_size },
            }
        } else {
            self.content_mask_stack[self.content_mask_stack.len() - 1]
        }
    }

    /// Pushes a content mask, intersected with the one in effect, for
    /// the drawing done until the matching pop.
    pub fn push_content_mask(&mut self, mask: ContentMask)
        requires
            old(self).wf(),
            old(self).draw_phase == DrawPhase::Prepaint || old(self).draw_phase == DrawPhase::Paint,
            mask.bounds.wf(),
        ensures
            final(self).wf(),
            *final(self) == (Window {
                content_mask_stack: final(self).content_mask_stack,
                ..*old(self)
            }),
            final(self).content_mask_stack@ == old(self).content_mask_stack@.push(
                (ContentMask {
                    bounds: mask.bounds.spec_intersect(old(self).spec_content_mask().bounds),
                }),
            ),
    {
        let current = self.content_mask();
        let combined = mask.intersect(&current);
        self.content_mask_stack.push(combined);
    }

    /// Pops the innermost content mask.
    pub fn pop_content_mask(&mut self)
        requires
            old(self).content_mask_stack@.len() > 0,
        ensures
            *final(self) == (Window {
                content_mask_stack: final(self).content_mask_stack,
                ..*old(self)
            }),
            final(self).content_mask_stack@ == old(self).content_mask_stack@.drop_last(),
    {
        self.content_mask_stack.pop();
    }

    /// The element offset in effect: the last one pushed, or the origin.
    pub open spec fn spec_element_offset(&self) -> Point {
        if self.element_offset_stack@.len() == 0 {
            Point { x: 0, y: 0 }
        } else {
            self.element_offset_stack@.last()
        }
    }

    /// The element offset in effect during prepaint; used to implement
    /// scrolling.
    pub fn element_offset(&self) -> (r: Point)
        requires
            self.draw_phase == DrawPhase::Prepaint,
        ensures
            r == self.spec_element_offset(),
    {
        if self.element_offset_stack.len() == 0 {
            Point { x: 0, y: 0 }
        } else {
            self.element_offset_stack[self.element_offset_stack.len() - 1]
        }
    }

    /// Pushes an absolute element offset for the prepainting done until
    /// the matching pop; used for drag handles and manual placement.
    pub fn push_absolute_element_offset(&mut self, offset: Point)
        requires
            old(self).draw_phase == DrawPhase::Prepaint,
        ensures
            *final(self) == (Window {
                element_offset_stack: final(self).element_offset_stack,
                ..*old(self)
            }),
            final(self).element_offset_stack@ == old(self).element_offset_stack@.push(offset),
    {
        self.element_offset_stack.push(offset);
    }

    /// Pops the innermost element offset.
    pub fn pop_element_offset(&mut self)
        requires
            old(self).element_offset_stack@.len() > 0,
        ensures
            *final(self) == (Window {
                element_offset_stack: final(self).element_offset_stack,
                ..*old(self)
            }),
            final(self).element_offset_stack@ == old(self).element_offset_stack@.drop_last(),
    {
        self.element_offset_stack.pop();
    }

    /// Inserts a hitbox for the region an element occupies, clipped by
    /// the content mask in effect. Valid during prepaint only. Later
    /// insertions test first; an opaque hitbox occludes earlier ones.
    pub fn insert_hitbox(&mut self, bounds: Bounds, opaque: bool) -> (hitbox: Hitbox)
        requires
            old(self).wf(),
            old(self).draw_phase == DrawPhase::Prepaint,
            bounds.wf(),
            old(self).next_hitbox_id < u64::MAX,
        ensures
            final(self).wf(),
            hitbox == (Hitbox {
                id: HitboxId { raw: old(self).next_hitbox_id },
                bounds,
                content_mask: old(self).spec_content_mask(),
                opaque,
            }),
            *final(self) == (Window {
                next_frame: final(self).next_frame,
                next_hitbox_id: (old(self).next_hitbox_id + 1) as u64,
                ..*old(self)
            }),
            final(self).next_frame == (Frame {
                hitboxes: final(self).next_frame.hitboxes,
                ..old(self).next_frame
            }),
            final(self).next_frame.hitboxes@ == old(self).next_frame.hitboxes@.push(hitbox),
    {
        let content_mask = self.content_mask();
        let id = HitboxId { raw: self.next_hitbox_id };
        self.next_hitbox_id = self.next_hitbox_id + 1;
        let hitbox = Hitbox { id, bounds, content_mask, opaque };
        self.next_frame.hitboxes.push(hitbox);
        hitbox
    }

    /// Requests a tooltip for the upcoming frame. Valid during prepaint
    /// only.
    pub fn set_tooltip(&mut self, tooltip: u64) -> (id: TooltipId)
        requires
            old(self).wf(),
            old(self).draw_phase == DrawPhase::Prepaint,
            old(self).next_tooltip_id < u64::MAX,
        ensures
            final(self).wf(),
            id == (TooltipId { raw: old(self).next_tooltip_id }),
            *final(self) == (Window {
                next_frame: final(self).next_frame,
                next_tooltip_id: (old(self).next_tooltip_id + 1) as u64,
                ..*old(self)
            }),
            final(self).next_frame == (Frame {
                tooltip_requests: final(self).next_frame.tooltip_requests,
                ..old(self).next_frame
            }),
            final(self).next_frame.tooltip_requests@ == old(
                self,
            ).next_frame.tooltip_requests@.push((TooltipRequest { id, tooltip })),
    {
        let id = TooltipId { raw: self.next_tooltip_id };
        self.next_tooltip_id = self.next_tooltip_id + 1;
        self.next_frame.tooltip_requests.push(TooltipRequest { id, tooltip });
        id
    }

    /// Emits one quad into the scene in paint order: later quads draw on
    /// top. Valid during paint only.
    pub fn paint_quad(&mut self, quad: PaintQuad)
        requires
            old(self).wf(),
            old(self).draw_phase == DrawPhase::Paint,
        ensures
            final(self).wf(),
            *final(self) == (Window { next_frame: final(self).next_frame, ..*old(self) }),
            final(self).next_frame == (Frame {
                scene: final(self).next_frame.scene,
                ..old(self).next_frame
            }),
            final(self).next_frame.scene@ == old(self).next_frame.scene@.push(quad),
    {
        self.next_frame.scene.push(quad);
    }

    /// Registers a mouse listener for the next frame, in paint order.
    /// Valid during paint only.
    pub fn on_mouse_event(&mut self, listener: u64)
        requires
            old(self).wf(),
            old(self).draw_phase == DrawPhase::Paint,
        ensures
            final(self).wf(),
            *final(self) == (Window { next_frame: final(self).next_frame, ..*old(self) }),
            final(self).next_frame == (Frame {
                mouse_listeners: final(self).next_frame.mouse_listeners,
                ..old(self).next_frame
            }),
            final(self).next_frame.mouse_listeners@ == old(
                self,
            ).next_frame.mouse_listeners@.push(listener),
    {
        self.next_frame.mouse_listeners.push(listener);
    }

    /// Requests a cursor style while the hitbox is hovered; the request
    /// made last wins. Valid during paint only.
    pub fn set_cursor_style(&mut self, style: u32, hitbox_id: HitboxId)
        requires
            old(self).wf(),
            old(self).draw_phase == DrawPhase::Paint,
        ensures
            final(self).wf(),
            *final(self) == (Window { next_frame: final(self).next_frame, ..*old(self) }),
            final(self).next_frame == (Frame {
                cursor_styles: final(self).next_frame.cursor_styles,
                ..old(self).next_frame
            }),
            final(self).next_frame.cursor_styles@ == old(self).next_frame.cursor_styles@.push(
                (CursorStyleRequest { hitbox_id, style }),
            ),
    {
        self.next_frame.cursor_styles.push(CursorStyleRequest { hitbox_id, style });
    }

    /// Registers an input handler for the next frame if the handle is
    /// focused. Valid during paint only.
    pub fn handle_input(&mut self, focus_handle: &FocusHandle, handler: u64)
        requires
            old(self).wf(),
            old(self).draw_phase == DrawPhase::Paint,
        ensures
            final(self).wf(),
            *final(self) == (Window { next_frame: final(self).next_frame, ..*old(self) }),
            final(self).next_frame == (Frame {
                input_handlers: final(self).next_frame.input_handlers,
                ..old(self).next_frame
            }),
            final(self).next_frame.input_handlers@ == if old(self).focus == Option::Some(
                focus_handle.id,
            ) {
                old(self).next_frame.input_handlers@.push(handler)
            } else {
                old(self).next_frame.input_handlers@
            },
    {
        let is_focused = match self.focus {
            Option::Some(cur) => cur == focus_handle.id,
            Option::None => false,
        };
        if is_focused {
            self.next_frame.input_handlers.push(handler);
        }
    }

    /// Defers the drawing of an element, to be painted over the
    /// currently drawn tree; higher priority paints on top. Valid during
    /// prepaint, under an open dispatch node.
    pub fn defer_draw(&mut self, element: u64, absolute_offset: Point, priority: usize)
        requires
            old(self).wf(),
            old(self).draw_phase == DrawPhase::Prepaint,
            old(self).next_frame.dispatch_tree.active_stack@.len() > 0,
        ensures
            final(self).wf(),
            *final(self) == (Window { next_frame: final(self).next_frame, ..*old(self) }),
            final(self).next_frame == (Frame {
                deferred_draws: final(self).next_frame.deferred_draws,
                ..old(self).next_frame
            }),
            final(self).next_frame.deferred_draws@ == old(
                self,
            ).next_frame.deferred_draws@.push(
                (DeferredDraw {
                    priority,
                    parent_node: old(self).next_frame.dispatch_tree.active_stack@.last(),
                    element: Option::Some(element),
                    absolute_offset,
                    prepaint_start: zero_prepaint_index(),
                    prepaint_end: zero_prepaint_index(),
                    paint_start: zero_paint_index(),
                    paint_end: zero_paint_index(),
                }),
            ),
    {
        let parent_node = self.next_frame.dispatch_tree.active_stack[self.next_frame.dispatch_tree.active_stack.len()
            - 1];
        self.next_frame.deferred_draws.push(
            DeferredDraw {
                priority,
                parent_node,
                element: Some(element),
                absolute_offset,
                prepaint_start: zero_prepaint_index_exec(),
                prepaint_end: zero_prepaint_index_exec(),
                paint_start: zero_paint_index_exec(),
                paint_end: zero_paint_index_exec(),
            },
        );
    }

    /// Takes the persistent state of an element for this pass, recording
    /// the access: from the frame under construction if it was already
    /// stored this pass, else from the previous frame. State not taken
    /// (not accessed) during a pass does not survive it. The caller
    /// updates the value and hands it back with
    /// [`Window::store_element_state`].
    pub fn access_element_state(&mut self, key: crate::frame::ElemKey) -> (r: Option<u64>)
        requires
            old(self).wf(),
            old(self).draw_phase == DrawPhase::Prepaint || old(self).draw_phase == DrawPhase::Paint,
        ensures
            final(self).wf(),
            *final(self) == (Window {
                rendered_frame: final(self).rendered_frame,
                next_frame: final(self).next_frame,
                ..*old(self)
            }),
            final(self).next_frame == (Frame {
                element_states: final(self).next_frame.element_states,
                accessed_element_states: final(self).next_frame.accessed_element_states,
                ..old(self).next_frame
            }),
            final(self).rendered_frame == (Frame {
                element_states: final(self).rendered_frame.element_states,
                ..old(self).rendered_frame
            }),
            final(self).next_frame.accessed_element_states@ == old(
                self,
            ).next_frame.accessed_element_states@.push(key),
            r == if old(self).next_frame.element_states.view_map().contains_key(key) {
                Option::Some(old(self).next_frame.element_states.view_map()[key])
            } else if old(self).rendered_frame.element_states.view_map().contains_key(key) {
                Option::Some(old(self).rendered_frame.element_states.view_map()[key])
            } else {
                Option::<u64>::None
            },
            final(self).next_frame.element_states.view_map() == old(
                self,
            ).next_frame.element_states.view_map().remove(key),
            final(self).rendered_frame.element_states.view_map() == if old(
                self,
            ).next_frame.element_states.view_map().contains_key(key) {
                old(self).rendered_frame.element_states.view_map()
            } else {
                old(self).rendered_frame.element_states.view_map().remove(key)
            },
    {
        self.next_frame.accessed_element_states.push(key);
        match self.next_frame.element_states.take(key) {
            Option::Some(v) => Some(v),
            Option::None => self.rendered_frame.element_states.take(key),
        }
    }

    /// Stores an element's persistent state in the frame under
    /// construction, so the next pass can access it.
    pub fn store_element_state(&mut self, key: crate::frame::ElemKey, value: u64)
        requires
            old(self).wf(),
            old(self).draw_phase == DrawPhase::Prepaint || old(self).draw_phase == DrawPhase::Paint,
        ensures
            final(self).wf(),
            *final(self) == (Window { next_frame: final(self).next_frame, ..*old(self) }),
            final(self).next_frame == (Frame {
                element_states: final(self).next_frame.element_states,
                ..old(self).next_frame
            }),
            final(self).next_frame.element_states.view_map() == old(
                self,
            ).next_frame.element_states.view_map().insert(key, value),
    {
        self.next_frame.element_states.put(key, value);
    }

    /// Asks containing elements to scroll the given bounds into view on
    /// a retried prepaint. Valid during prepaint only.
    pub fn request_autoscroll(&mut self, bounds: Bounds)
        requires
            old(self).draw_phase == DrawPhase::Prepaint,
        ensures
            *final(self) == (Window { requested_autoscroll: Option::Some(bounds), ..*old(self) }),
    {
        self.requested_autoscroll = Some(bounds);
    }

    /// Takes the requested autoscroll bounds, if an element set them.
    /// Valid during prepaint only.
    pub fn take_autoscroll(&mut self) -> (r: Option<Bounds>)
        requires
            old(self).draw_phase == DrawPhase::Prepaint,
        ensures
            r == old(self).requested_autoscroll,
            *final(self) == (Window { requested_autoscroll: Option::<Bounds>::None, ..*old(self) }),
    {
        self.requested_autoscroll.take()
    }

    /// The lengths of every collection prepaint appends to: a
    /// transaction checkpoint and the unit of cross-frame reuse.
    pub fn prepaint_index(&self) -> (r: PrepaintStateIndex)
        ensures
            r == spec_prepaint_index(*self),
    {
        PrepaintStateIndex {
            hitboxes: self.next_frame.hitboxes.len(),
            tooltips: self.next_frame.tooltip_requests.len(),
            deferred_draws: self.next_frame.deferred_draws.len(),
            dispatch_tree: self.next_frame.dispatch_tree.len(),
            accessed_element_states: self.next_frame.accessed_element_states.len(),
        }
    }

    /// The lengths of every collection paint appends to.
    pub fn paint_index(&self) -> (r: PaintIndex)
        ensures
            r == spec_paint_index(*self),
    {
        PaintIndex {
            scene: self.next_frame.scene.len(),
            mouse_listeners: self.next_frame.mouse_listeners.len(),
            input_handlers: self.next_frame.input_handlers.len(),
            cursor_styles: self.next_frame.cursor_styles.len(),
            accessed_element_states: self.next_frame.accessed_element_states.len(),
        }
    }

    /// Rolls a failed prepaint transaction back to its checkpoint: every
    /// collection prepaint appended to is truncated to its checkpointed
    /// length, so the failed attempt leaks no per-frame state and the
    /// caller can retry with adjusted parameters (the autoscroll
    /// mechanism).
    pub fn rollback_prepaint(&mut self, cp: PrepaintStateIndex)
        requires
            old(self).wf(),
            old(self).draw_phase == DrawPhase::Prepaint,
            cp.hitboxes <= old(self).next_frame.hitboxes@.len(),
            cp.tooltips <= old(self).next_frame.tooltip_requests@.len(),
            cp.deferred_draws <= old(self).next_frame.deferred_draws@.len(),
            cp.dispatch_tree <= old(self).next_frame.dispatch_tree.nodes@.len(),
            cp.accessed_element_states <= old(self).next_frame.accessed_element_states@.len(),
            forall|i: int|
                0 <= i < old(self).next_frame.dispatch_tree.active_stack@.len() ==> #[trigger] old(
                    self,
                ).next_frame.dispatch_tree.active_stack@[i] < cp.dispatch_tree,
        ensures
            final(self).wf(),
            *final(self) == (Window { next_frame: final(self).next_frame, ..*old(self) }),
            final(self).next_frame == (Frame {
                hitboxes: final(self).next_frame.hitboxes,
                tooltip_requests: final(self).next_frame.tooltip_requests,
                deferred_draws: final(self).next_frame.deferred_draws,
                dispatch_tree: final(self).next_frame.dispatch_tree,
                accessed_element_states: final(self).next_frame.accessed_element_states,
                ..old(self).next_frame
            }),
            final(self).next_frame.hitboxes@ == old(self).next_frame.hitboxes@.take(
                cp.hitboxes as int,
            ),
            final(self).next_frame.tooltip_requests@ == old(
                self,
            ).next_frame.tooltip_requests@.take(cp.tooltips as int),
            final(self).next_frame.deferred_draws@ == old(self).next_frame.deferred_draws@.take(
                cp.deferred_draws as int,
            ),
            final(self).next_frame.dispatch_tree.nodes@ == old(
                self,
            ).next_frame.dispatch_tree.nodes@.take(cp.dispatch_tree as int),
            final(self).next_frame.dispatch_tree.active_stack@ == old(
                self,
            ).next_frame.dispatch_tree.active_stack@,
            final(self).next_frame.accessed_element_states@ == old(
                self,
            ).next_frame.accessed_element_states@.take(cp.accessed_element_states as int),
    {
        self.next_frame.hitboxes.truncate(cp.hitboxes);
        self.next_frame.tooltip_requests.truncate(cp.tooltips);
        self.next_frame.deferred_draws.truncate(cp.deferred_draws);
        self.next_frame.dispatch_tree.truncate(cp.dispatch_tree);
        self.next_frame.accessed_element_states.truncate(cp.accessed_element_states);
        proof {
            assert forall|i: int|
                0 <= i < self.next_frame.hitboxes@.len() implies (
            #[trigger] self.next_frame.hitboxes@[i]).wf() by {
                assert(self.next_frame.hitboxes@[i] == old(self).next_frame.hitboxes@[i]);
            }
        }
    }
}

/// The checkpoint of a pass that has appended nothing yet.
pub open spec fn zero_prepaint_index() -> PrepaintStateIndex {
    PrepaintStateIndex {
        hitboxes: 0,
        tooltips: 0,
        deferred_draws: 0,
        dispatch_tree: 0,
        accessed_element_states: 0,
    }
}

/// The checkpoint of a pass that has appended nothing yet.
fn zero_prepaint_index_exec() -> (r: PrepaintStateIndex)
    ensures
        r == zero_prepaint_index(),
{
    PrepaintStateIndex {
        hitboxes: 0,
        tooltips: 0,
        deferred_draws: 0,
        dispatch_tree: 0,
        accessed_element_states: 0,
    }
}

/// The paint checkpoint of a pass that has appended nothing yet.
pub open spec fn zero_paint_index() -> PaintIndex {
    PaintIndex {
        scene: 0,
        mouse_listeners: 0,
        input_handlers: 0,
        cursor_styles: 0,
        accessed_element_states: 0,
    }
}

/// The paint checkpoint of a pass that has appended nothing yet.
fn zero_paint_index_exec() -> (r: PaintIndex)
    ensures
        r == zero_paint_index(),
{
    PaintIndex {
        scene: 0,
        mouse_listeners: 0,
        input_handlers: 0,
        cursor_styles: 0,
        accessed_element_states: 0,
    }
}

/// The prepaint checkpoint of a window's next frame.
pub open spec fn spec_prepaint_index(w: Window) -> PrepaintStateIndex {
    PrepaintStateIndex {
        hitboxes: w.next_frame.hitboxes@.len() as usize,
        tooltips: w.next_frame.tooltip_requests@.len() as usize,
        deferred_draws: w.next_frame.deferred_draws@.len() as usize,
        dispatch_tree: w.next_frame.dispatch_tree.nodes@.len() as usize,
        accessed_element_states: w.next_frame.accessed_element_states@.len() as usize,
    }
}

/// The paint checkpoint of a window's next frame.
pub open spec fn spec_paint_index(w: Window) -> PaintIndex {
    PaintIndex {
        scene: w.next_frame.scene@.len() as usize,
        mouse_listeners: w.next_frame.mouse_listeners@.len() as usize,
        input_handlers: w.next_frame.input_handlers@.len() as usize,
        cursor_styles: w.next_frame.cursor_styles@.len() as usize,
        accessed_element_states: w.next_frame.accessed_element_states@.len() as usize,
    }
}

/// The transaction-rollback law: a checkpoint taken at one state, carried
/// through any sequence of appends, restores exactly the collections of
/// that state when rolled back — the truncation of an extended sequence
/// at the original length is the original.
pub proof fn lemma_rollback_restores<T>(before: Seq<T>, appended: Seq<T>)
    ensures
        (before + appended).take(before.len() as int) == before,
{
    assert((before + appended).take(before.len() as int) =~= before);
}

/// What the focus reconciliation after a draw found: whether focus
/// moved, whether it was lost entirely, and the old and new focus paths
/// (each emptied if its window was inactive, so background windows never
/// report spurious focus).
#[derive(Debug)]
pub struct FocusChange {
    /// Whether the focus path or the window-active state changed; only
    /// then do focus listeners fire.
    pub changed: bool,
    /// Whether focus became empty after being non-empty; only then do
    /// focus-lost listeners fire, before the focus listeners.
    pub focus_lost: bool,
    /// The focus path of the previously rendered frame, emptied if that
    /// frame saw the window inactive.
    pub previous_path: Vec<FocusId>,
    /// The focus path of the newly rendered frame, emptied if the window
    /// is inactive now.
    pub current_path: Vec<FocusId>,
}

/// Whether `x` paints before `y` among deferred draws: lower priority
/// first; equal priorities keep insertion order.
pub open spec fn deferred_before(dds: Seq<DeferredDraw>, x: int, y: int) -> bool {
    ||| dds[x].priority < dds[y].priority
    ||| (dds[x].priority == dds[y].priority && x < y)
}

/// The cursor style to show: scanning the requests back-to-front, the
/// first whose hitbox the pointer is over wins; with none, the default
/// arrow (style code zero).
pub open spec fn spec_cursor_style(
    styles: Seq<CursorStyleRequest>,
    hit: Seq<HitboxId>,
    n: int,
) -> u32
    decreases n,
{
    if n <= 0 || n > styles.len() {
        0
    } else {
        let rq = styles[n - 1];
        if hit.contains(rq.hitbox_id) {
            rq.style
        } else {
            spec_cursor_style(styles, hit, n - 1)
        }
    }
}

/// Appends `src[start..end]` to `dst`.
fn extend_copy<T: Copy>(dst: &mut Vec<T>, src: &Vec<T>, start: usize, end: usize)
    requires
        start <= end <= src@.len(),
    ensures
        final(dst)@ == old(dst)@ + src@.subrange(start as int, end as int),
    decreases end - start,
{
    let mut i = start;
    while i < end
        invariant
            start <= i <= end <= src@.len(),
            dst@ == old(dst)@ + src@.subrange(start as int, i as int),
        decreases end - i,
    {
        dst.push(src[i]);
        proof {
            assert(dst@ =~= old(dst)@ + src@.subrange(start as int, i + 1));
        }
        i = i + 1;
    }
    proof {
        assert(dst@ =~= old(dst)@ + src@.subrange(start as int, end as int));
    }
}

impl Window {
    /// Opens a dispatch-tree node for the element being drawn; its
    /// registrations and children attach to it until the matching pop.
    pub fn push_dispatch_node(&mut self) -> (ix: usize)
        requires
            old(self).wf(),
            old(self).draw_phase == DrawPhase::Prepaint || old(self).draw_phase == DrawPhase::Paint,
            old(self).next_frame.dispatch_tree.spec_len() < usize::MAX,
        ensures
            final(self).wf(),
            *final(self) == (Window { next_frame: final(self).next_frame, ..*old(self) }),
            final(self).next_frame == (Frame {
                dispatch_tree: final(self).next_frame.dispatch_tree,
                ..old(self).next_frame
            }),
            ix == old(self).next_frame.dispatch_tree.spec_len(),
            final(self).next_frame.dispatch_tree.nodes@.len() == old(
                self,
            ).next_frame.dispatch_tree.nodes@.len() + 1,
            final(self).next_frame.dispatch_tree.nodes@.drop_last() == old(
                self,
            ).next_frame.dispatch_tree.nodes@,
            final(self).next_frame.dispatch_tree.nodes@.last().parent
                == crate::dispatch::spec_active_last(
                old(self).next_frame.dispatch_tree.active_stack@,
            ),
            final(self).next_frame.dispatch_tree.nodes@.last().focus_id is None,
            final(self).next_frame.dispatch_tree.nodes@.last().context is None,
            final(self).next_frame.dispatch_tree.nodes@.last().key_listeners@.len() == 0,
            final(self).next_frame.dispatch_tree.nodes@.last().modifier_listeners@.len() == 0,
            final(self).next_frame.dispatch_tree.nodes@.last().action_listeners@.len() == 0,
            final(self).next_frame.dispatch_tree.active_stack@ == old(
                self,
            ).next_frame.dispatch_tree.active_stack@.push(ix),
    {
        self.next_frame.dispatch_tree.push_node()
    }

    /// Closes the innermost open dispatch-tree node.
    pub fn pop_dispatch_node(&mut self)
        requires
            old(self).wf(),
            old(self).draw_phase == DrawPhase::Prepaint || old(self).draw_phase == DrawPhase::Paint,
            old(self).next_frame.dispatch_tree.active_stack@.len() > 0,
        ensures
            final(self).wf(),
            *final(self) == (Window { next_frame: final(self).next_frame, ..*old(self) }),
            final(self).next_frame == (Frame {
                dispatch_tree: final(self).next_frame.dispatch_tree,
                ..old(self).next_frame
            }),
            final(self).next_frame.dispatch_tree.nodes@ == old(
                self,
            ).next_frame.dispatch_tree.nodes@,
            final(self).next_frame.dispatch_tree.active_stack@ == old(
                self,
            ).next_frame.dispatch_tree.active_stack@.drop_last(),
    {
        self.next_frame.dispatch_tree.pop_node();
    }

    /// Associates a focus handle with the element being prepainted; if
    /// that handle is focused, the frame under construction records the
    /// focus. Valid during prepaint, under an open dispatch node.
    pub fn set_focus_handle(&mut self, focus_handle: &FocusHandle)
        requires
            old(self).wf(),
            old(self).draw_phase == DrawPhase::Prepaint,
            old(self).next_frame.dispatch_tree.active_stack@.len() > 0,
        ensures
            final(self).wf(),
            *final(self) == (Window { next_frame: final(self).next_frame, ..*old(self) }),
            final(self).next_frame == (Frame {
                focus: if old(self).focus == Option::Some(focus_handle.id) {
                    Option::Some(focus_handle.id)
                } else {
                    old(self).next_frame.focus
                },
                dispatch_tree: final(self).next_frame.dispatch_tree,
                ..old(self).next_frame
            }),
            final(self).next_frame.dispatch_tree.active_stack@ == old(
                self,
            ).next_frame.dispatch_tree.active_stack@,
            final(self).next_frame.dispatch_tree.nodes@ == old(
                self,
            ).next_frame.dispatch_tree.nodes@.update(
                old(self).next_frame.dispatch_tree.active_stack@.last() as int,
                (crate::dispatch::DispatchNode {
                    focus_id: Option::Some(focus_handle.id),
                    ..old(self).next_frame.dispatch_tree.nodes@[old(
                        self,
                    ).next_frame.dispatch_tree.active_stack@.last() as int]
                }),
            ),
    {
        let is_focused = match self.focus {
            Option::Some(cur) => cur == focus_handle.id,
            Option::None => false,
        };
        if is_focused {
            self.next_frame.focus = Some(focus_handle.id);
        }
        self.next_frame.dispatch_tree.set_focus_id(focus_handle.id);
    }

    /// Sets the key context of the element being painted, used to match
    /// bindings along the dispatch path. Valid during paint, under an
    /// open dispatch node.
    pub fn set_key_context(&mut self, context: String)
        requires
            old(self).wf(),
            old(self).draw_phase == DrawPhase::Paint,
            old(self).next_frame.dispatch_tree.active_stack@.len() > 0,
        ensures
            final(self).wf(),
            *final(self) == (Window { next_frame: final(self).next_frame, ..*old(self) }),
            final(self).next_frame == (Frame {
                dispatch_tree: final(self).next_frame.dispatch_tree,
                ..old(self).next_frame
            }),
            final(self).next_frame.dispatch_tree.active_stack@ == old(
                self,
            ).next_frame.dispatch_tree.active_stack@,
            final(self).next_frame.dispatch_tree.nodes@ == old(
                self,
            ).next_frame.dispatch_tree.nodes@.update(
                old(self).next_frame.dispatch_tree.active_stack@.last() as int,
                (crate::dispatch::DispatchNode {
                    context: Option::Some(context),
                    ..old(self).next_frame.dispatch_tree.nodes@[old(
                        self,
                    ).next_frame.dispatch_tree.active_stack@.last() as int]
                }),
            ),
    {
        self.next_frame.dispatch_tree.set_key_context(context);
    }

    /// Registers a raw key-event listener on the element being painted.
    /// Valid during paint, under an open dispatch node.
    pub fn on_key_event(&mut self, listener: u64)
        requires
            old(self).wf(),
            old(self).draw_phase == DrawPhase::Paint,
            old(self).next_frame.dispatch_tree.active_stack@.len() > 0,
        ensures
            final(self).wf(),
            *final(self) == (Window { next_frame: final(self).next_frame, ..*old(self) }),
            final(self).next_frame == (Frame {
                dispatch_tree: final(self).next_frame.dispatch_tree,
                ..old(self).next_frame
            }),
            final(self).next_frame.dispatch_tree.active_stack@ == old(
                self,
            ).next_frame.dispatch_tree.active_stack@,
            final(self).next_frame.dispatch_tree.nodes@[old(
                self,
            ).next_frame.dispatch_tree.active_stack@.last() as int].key_listeners@ == old(
                self,
            ).next_frame.dispatch_tree.nodes@[old(
                self,
            ).next_frame.dispatch_tree.active_stack@.last() as int].key_listeners@.push(listener),
            crate::dispatch::same_but_key_listeners(
                old(self).next_frame.dispatch_tree.nodes@[old(
                    self,
                ).next_frame.dispatch_tree.active_stack@.last() as int],
                final(self).next_frame.dispatch_tree.nodes@[old(
                    self,
                ).next_frame.dispatch_tree.active_stack@.last() as int],
            ),
            forall|j: int|
                0 <= j < old(self).next_frame.dispatch_tree.nodes@.len() && j != old(
                    self,
                ).next_frame.dispatch_tree.active_stack@.last() ==> final(self).next_frame.dispatch_tree.nodes@[j] == old(self).next_frame.dispatch_tree.nodes@[j],
            final(self).next_frame.dispatch_tree.nodes@.len() == old(
                self,
            ).next_frame.dispatch_tree.nodes@.len(),
    {
        self.next_frame.dispatch_tree.on_key_event(listener);
    }

    /// Registers a modifier-change listener on the element being
    /// painted. Valid during paint, under an open dispatch node.
    pub fn on_modifiers_changed(&mut self, listener: u64)
        requires
            old(self).wf(),
            old(self).draw_phase == DrawPhase::Paint,
            old(self).next_frame.dispatch_tree.active_stack@.len() > 0,
        ensures
            final(self).wf(),
            *final(self) == (Window { next_frame: final(self).next_frame, ..*old(self) }),
            final(self).next_frame == (Frame {
                dispatch_tree: final(self).next_frame.dispatch_tree,
                ..old(self).next_frame
            }),
            final(self).next_frame.dispatch_tree.active_stack@ == old(
                self,
            ).next_frame.dispatch_tree.active_stack@,
            final(self).next_frame.dispatch_tree.nodes@[old(
                self,
            ).next_frame.dispatch_tree.active_stack@.last() as int].modifier_listeners@ == old(
                self,
            ).next_frame.dispatch_tree.nodes@[old(
                self,
            ).next_frame.dispatch_tree.active_stack@.last() as int].modifier_listeners@.push(
                listener,
            ),
            crate::dispatch::same_but_modifier_listeners(
                old(self).next_frame.dispatch_tree.nodes@[old(
                    self,
                ).next_frame.dispatch_tree.active_stack@.last() as int],
                final(self).next_frame.dispatch_tree.nodes@[old(
                    self,
                ).next_frame.dispatch_tree.active_stack@.last() as int],
            ),
            forall|j: int|
                0 <= j < old(self).next_frame.dispatch_tree.nodes@.len() && j != old(
                    self,
                ).next_frame.dispatch_tree.active_stack@.last() ==> final(self).next_frame.dispatch_tree.nodes@[j] == old(self).next_frame.dispatch_tree.nodes@[j],
            final(self).next_frame.dispatch_tree.nodes@.len() == old(
                self,
            ).next_frame.dispatch_tree.nodes@.len(),
    {
        self.next_frame.dispatch_tree.on_modifiers_changed(listener);
    }

    /// Registers an action listener on the element being painted. Valid
    /// during paint, under an open dispatch node.
    pub fn on_action(&mut self, action: u64, listener: u64)
        requires
            old(self).wf(),
            old(self).draw_phase == DrawPhase::Paint,
            old(self).next_frame.dispatch_tree.active_stack@.len() > 0,
        ensures
            final(self).wf(),
            *final(self) == (Window { next_frame: final(self).next_frame, ..*old(self) }),
            final(self).next_frame == (Frame {
                dispatch_tree: final(self).next_frame.dispatch_tree,
                ..old(self).next_frame
            }),
            final(self).next_frame.dispatch_tree.active_stack@ == old(
                self,
            ).next_frame.dispatch_tree.active_stack@,
            final(self).next_frame.dispatch_tree.nodes@[old(
                self,
            ).next_frame.dispatch_tree.active_stack@.last() as int].action_listeners@ == old(
                self,
            ).next_frame.dispatch_tree.nodes@[old(
                self,
            ).next_frame.dispatch_tree.active_stack@.last() as int].action_listeners@.push(
                (crate::dispatch::ActionListener { action, listener }),
            ),
            crate::dispatch::same_but_action_listeners(
                old(self).next_frame.dispatch_tree.nodes@[old(
                    self,
                ).next_frame.dispatch_tree.active_stack@.last() as int],
                final(self).next_frame.dispatch_tree.nodes@[old(
                    self,
                ).next_frame.dispatch_tree.active_stack@.last() as int],
            ),
            forall|j: int|
                0 <= j < old(self).next_frame.dispatch_tree.nodes@.len() && j != old(
                    self,
                ).next_frame.dispatch_tree.active_stack@.last() ==> final(self).next_frame.dispatch_tree.nodes@[j] == old(self).next_frame.dispatch_tree.nodes@[j],
            final(self).next_frame.dispatch_tree.nodes@.len() == old(
                self,
            ).next_frame.dispatch_tree.nodes@.len(),
    {
        self.next_frame.dispatch_tree.on_action(action, listener);
    }

    /// Starts a draw pass: clears the dirty bit and any stale autoscroll
    /// request and enters prepaint.
    pub fn begin_draw(&mut self)
        requires
            old(self).draw_phase == DrawPhase::Idle,
        ensures
            *final(self) == (Window {
                draw_phase: DrawPhase::Prepaint,
                dirty: false,
                requested_autoscroll: Option::<Bounds>::None,
                ..*old(self)
            }),
    {
        self.dirty = false;
        self.requested_autoscroll = None;
        self.draw_phase = DrawPhase::Prepaint;
    }

    /// Moves the pass from prepaint to paint, fixing the pointer's
    /// hit-test result against the frame under construction.
    pub fn begin_paint(&mut self)
        requires
            old(self).wf(),
            old(self).draw_phase == DrawPhase::Prepaint,
        ensures
            final(self).wf(),
            *final(self) == (Window {
                draw_phase: DrawPhase::Paint,
                mouse_hit_test: final(self).mouse_hit_test,
                ..*old(self)
            }),
            final(self).mouse_hit_test@ == crate::frame::spec_hit_test(
                old(self).next_frame.hitboxes@,
                old(self).mouse_position,
                old(self).next_frame.hitboxes@.len() as int,
            ),
    {
        let hit = self.next_frame.hit_test(self.mouse_position);
        self.mouse_hit_test = hit;
        self.draw_phase = DrawPhase::Paint;
    }

    /// The order in which to draw the deferred draws collected during
    /// prepaint: indices sorted by ascending priority, ties keeping
    /// insertion order, so higher priority paints later (on top).
    pub fn sorted_deferred_indices(&self) -> (r: Vec<usize>)
        ensures
            r@.len() == self.next_frame.deferred_draws@.len(),
            forall|k: int| 0 <= k < r@.len() ==> #[trigger] r@[k] < r@.len(),
            forall|a: int, b: int|
                0 <= a < b < r@.len() ==> deferred_before(
                    self.next_frame.deferred_draws@,
                    #[trigger] r@[a] as int,
                    #[trigger] r@[b] as int,
                ),
    {
        let n = self.next_frame.deferred_draws.len();
        let mut out: Vec<usize> = Vec::new();
        let mut i: usize = 0;
        while i < n
            invariant
                i <= n,
                n == self.next_frame.deferred_draws@.len(),
                out@.len() == i,
                forall|k: int| 0 <= k < out@.len() ==> #[trigger] out@[k] < i,
                forall|a: int, b: int|
                    0 <= a < b < out@.len() ==> deferred_before(
                        self.next_frame.deferred_draws@,
                        #[trigger] out@[a] as int,
                        #[trigger] out@[b] as int,
                    ),
            decreases n - i,
        {
            let pr_i = self.next_frame.deferred_draws[i].priority;
            let mut p: usize = 0;
            while p < out.len() && self.next_frame.deferred_draws[out[p]].priority <= pr_i
                invariant
                    p <= out@.len(),
                    i < n,
                    n == self.next_frame.deferred_draws@.len(),
                    out@.len() == i,
                    pr_i == self.next_frame.deferred_draws@[i as int].priority,
                    forall|k: int| 0 <= k < out@.len() ==> #[trigger] out@[k] < i,
                    forall|k: int|
                        0 <= k < p ==> self.next_frame.deferred_draws@[
                            #[trigger] out@[k] as int
                        ].priority <= pr_i,
                decreases out@.len() - p,
            {
                p = p + 1;
            }
            let ghost old_out = out@;
            out.insert(p, i);
            proof {
                assert(out@ =~= old_out.take(p as int) + seq![i as usize] + old_out.skip(p as int));
                assert forall|a: int, b: int|
                    0 <= a < b < out@.len() implies deferred_before(
                    self.next_frame.deferred_draws@,
                    #[trigger] out@[a] as int,
                    #[trigger] out@[b] as int,
                ) by {
                    let dseq = self.next_frame.deferred_draws@;
                    if a < p && b < p {
                        assert(out@[a] == old_out[a] && out@[b] == old_out[b]);
                    } else if a < p && b == p {
                        assert(out@[a] == old_out[a] && out@[b] == i);
                        assert(dseq[old_out[a] as int].priority <= pr_i);
                        assert(old_out[a] < i);
                    } else if a < p && b > p {
                        assert(out@[a] == old_out[a] && out@[b] == old_out[b - 1]);
                    } else if a == p {
                        assert(out@[a] == i && out@[b] == old_out[b - 1]);
                        if p < old_out.len() {
                            assert(dseq[old_out[p as int] as int].priority > pr_i);
                            if b - 1 > p {
                                assert(deferred_before(
                                    dseq,
                                    old_out[p as int] as int,
                                    old_out[b - 1] as int,
                                ));
                            }
                            assert(dseq[old_out[b - 1] as int].priority > pr_i);
                        }
                    } else {
                        assert(out@[a] == old_out[a - 1] && out@[b] == old_out[b - 1]);
                    }
                }
                assert forall|k: int| 0 <= k < out@.len() implies #[trigger] out@[k] < i + 1 by {
                    if k < p {
                        assert(out@[k] == old_out[k]);
                    } else if k == p {
                    } else {
                        assert(out@[k] == old_out[k - 1]);
                    }
                }
            }
            i = i + 1;
        }
        out
    }

    /// Replays a recorded paint range of the previous frame instead of
    /// repainting it: the scene primitives, mouse listeners, input
    /// handlers, cursor requests and state accesses between the two
    /// checkpoints are copied verbatim into the frame under
    /// construction. Valid during paint only.
    pub fn reuse_paint(&mut self, start: PaintIndex, end: PaintIndex)
        requires
            old(self).wf(),
            old(self).draw_phase == DrawPhase::Paint,
            start.scene <= end.scene <= old(self).rendered_frame.scene@.len(),
            start.mouse_listeners <= end.mouse_listeners <= old(
                self,
            ).rendered_frame.mouse_listeners@.len(),
            start.input_handlers <= end.input_handlers <= old(
                self,
            ).rendered_frame.input_handlers@.len(),
            start.cursor_styles <= end.cursor_styles <= old(
                self,
            ).rendered_frame.cursor_styles@.len(),
            start.accessed_element_states <= end.accessed_element_states <= old(
                self,
            ).rendered_frame.accessed_element_states@.len(),
        ensures
            final(self).wf(),
            *final(self) == (Window { next_frame: final(self).next_frame, ..*old(self) }),
            final(self).next_frame == (Frame {
                scene: final(self).next_frame.scene,
                mouse_listeners: final(self).next_frame.mouse_listeners,
                input_handlers: final(self).next_frame.input_handlers,
                cursor_styles: final(self).next_frame.cursor_styles,
                accessed_element_states: final(self).next_frame.accessed_element_states,
                ..old(self).next_frame
            }),
            final(self).next_frame.scene@ == old(self).next_frame.scene@ + old(
                self,
            ).rendered_frame.scene@.subrange(start.scene as int, end.scene as int),
            final(self).next_frame.mouse_listeners@ == old(self).next_frame.mouse_listeners@ + old(
                self,
            ).rendered_frame.mouse_listeners@.subrange(
                start.mouse_listeners as int,
                end.mouse_listeners as int,
            ),
            final(self).next_frame.input_handlers@ == old(self).next_frame.input_handlers@ + old(
                self,
            ).rendered_frame.input_handlers@.subrange(
                start.input_handlers as int,
                end.input_handlers as int,
            ),
            final(self).next_frame.cursor_styles@ == old(self).next_frame.cursor_styles@ + old(
                self,
            ).rendered_frame.cursor_styles@.subrange(
                start.cursor_styles as int,
                end.cursor_styles as int,
            ),
            final(self).next_frame.accessed_element_states@ == old(
                self,
            ).next_frame.accessed_element_states@ + old(
                self,
            ).rendered_frame.accessed_element_states@.subrange(
                start.accessed_element_states as int,
                end.accessed_element_states as int,
            ),
    {
        extend_copy(&mut self.next_frame.scene, &self.rendered_frame.scene, start.scene, end.scene);
        extend_copy(
            &mut self.next_frame.mouse_listeners,
            &self.rendered_frame.mouse_listeners,
            start.mouse_listeners,
            end.mouse_listeners,
        );
        extend_copy(
            &mut self.next_frame.input_handlers,
            &self.rendered_frame.input_handlers,
            start.input_handlers,
            end.input_handlers,
        );
        extend_copy(
            &mut self.next_frame.cursor_styles,
            &self.rendered_frame.cursor_styles,
            start.cursor_styles,
            end.cursor_styles,
        );
        extend_copy(
            &mut self.next_frame.accessed_element_states,
            &self.rendered_frame.accessed_element_states,
            start.accessed_element_states,
            end.accessed_element_states,
        );
    }

    /// Replays a recorded prepaint range of the previous frame instead
    /// of re-running it: hitboxes, tooltip requests and state accesses
    /// between the two checkpoints are copied verbatim; the dispatch-tree
    /// nodes of the range are spliced in with their parents remapped; and
    /// the deferred draws of the range are re-queued as replays (no fresh
    /// element), their parent nodes refreshed to the spliced copies. If
    /// the spliced subtree carries the focus, the frame under
    /// construction records it. Valid during prepaint only.
    #[verifier::rlimit(100)]
    #[verifier::spinoff_prover]
    pub fn reuse_prepaint(&mut self, start: PrepaintStateIndex, end: PrepaintStateIndex)
        requires
            old(self).wf(),
            old(self).draw_phase == DrawPhase::Prepaint,
            start.hitboxes <= end.hitboxes <= old(self).rendered_frame.hitboxes@.len(),
            start.tooltips <= end.tooltips <= old(self).rendered_frame.tooltip_requests@.len(),
            start.deferred_draws <= end.deferred_draws <= old(
                self,
            ).rendered_frame.deferred_draws@.len(),
            start.dispatch_tree <= end.dispatch_tree <= old(
                self,
            ).rendered_frame.dispatch_tree.nodes@.len(),
            start.accessed_element_states <= end.accessed_element_states <= old(
                self,
            ).rendered_frame.accessed_element_states@.len(),
            forall|k: int|
                start.deferred_draws <= k < end.deferred_draws ==> start.dispatch_tree <= (
                #[trigger] old(self).rendered_frame.deferred_draws@[k]).parent_node
                    < end.dispatch_tree,
            old(self).next_frame.dispatch_tree.nodes@.len() + (end.dispatch_tree
                - start.dispatch_tree) <= usize::MAX,
            old(self).next_frame.deferred_draws@.len() + (end.deferred_draws
                - start.deferred_draws) <= usize::MAX,
        ensures
            final(self).wf(),
            *final(self) == (Window { next_frame: final(self).next_frame, ..*old(self) }),
            final(self).next_frame == (Frame {
                hitboxes: final(self).next_frame.hitboxes,
                tooltip_requests: final(self).next_frame.tooltip_requests,
                accessed_element_states: final(self).next_frame.accessed_element_states,
                deferred_draws: final(self).next_frame.deferred_draws,
                ..old(self).next_frame
            }),
            final(self).next_frame.hitboxes@ == old(self).next_frame.hitboxes@ + old(
                self,
            ).rendered_frame.hitboxes@.subrange(start.hitboxes as int, end.hitboxes as int),
            final(self).next_frame.tooltip_requests@ == old(self).next_frame.tooltip_requests@
                + old(self).rendered_frame.tooltip_requests@.subrange(
                start.tooltips as int,
                end.tooltips as int,
            ),
            final(self).next_frame.accessed_element_states@ == old(
                self,
            ).next_frame.accessed_element_states@ + old(
                self,
            ).rendered_frame.accessed_element_states@.subrange(
                start.accessed_element_states as int,
                end.accessed_element_states as int,
            ),
            final(self).next_frame.deferred_draws@.len() == old(
                self,
            ).next_frame.deferred_draws@.len() + (end.deferred_draws - start.deferred_draws),
            final(self).next_frame.deferred_draws@.take(
                old(self).next_frame.deferred_draws@.len() as int,
            ) == old(self).next_frame.deferred_draws@,
            forall|k: int|
                start.deferred_draws <= k < end.deferred_draws
                    ==> #[trigger] final(self).next_frame.deferred_draws@[k - start.deferred_draws
                    + old(self).next_frame.deferred_draws@.len()] == (DeferredDraw {
                    parent_node: (old(self).rendered_frame.deferred_draws@[k].parent_node
                        - start.dispatch_tree + old(
                        self,
                    ).next_frame.dispatch_tree.nodes@.len()) as usize,
                    element: Option::<u64>::None,
                    ..old(self).rendered_frame.deferred_draws@[k]
                }),
    {
        extend_copy(
            &mut self.next_frame.hitboxes,
            &self.rendered_frame.hitboxes,
            start.hitboxes,
            end.hitboxes,
        );
        extend_copy(
            &mut self.next_frame.tooltip_requests,
            &self.rendered_frame.tooltip_requests,
            start.tooltips,
            end.tooltips,
        );
        extend_copy(
            &mut self.next_frame.accessed_element_states,
            &self.rendered_frame.accessed_element_states,
            start.accessed_element_states,
            end.accessed_element_states,
        );
        let tree_base = self.next_frame.dispatch_tree.len();
        copy_deferred(
            &mut self.next_frame.deferred_draws,
            &self.rendered_frame.deferred_draws,
            start.deferred_draws,
            end.deferred_draws,
            start.dispatch_tree,
            end.dispatch_tree,
            tree_base,
        );
        proof {
            assert(self.next_frame.hitboxes@ =~= old(self).next_frame.hitboxes@ + old(
                self,
            ).rendered_frame.hitboxes@.subrange(start.hitboxes as int, end.hitboxes as int));
        }
    }

    /// Splices the dispatch-tree nodes of a recorded range of the
    /// previous frame into the tree under construction, remapping their
    /// parents (see [`crate::dispatch::DispatchTree::reuse_subtree`]); call it together
    /// with [`Window::reuse_prepaint`] of the same range, which re-queues
    /// the range's deferred draws against the spliced copies. If the
    /// spliced subtree carries the focus, the frame under construction
    /// records it. Valid during prepaint only.
    pub fn reuse_dispatch_subtree(&mut self, start_node: usize, end_node: usize) -> (contains_focus:
        bool)
        requires
            old(self).wf(),
            old(self).draw_phase == DrawPhase::Prepaint,
            start_node <= end_node <= old(self).rendered_frame.dispatch_tree.nodes@.len(),
            forall|k: int|
                start_node <= k < end_node && (#[trigger] old(
                    self,
                ).rendered_frame.dispatch_tree.nodes@[k].parent) is Some ==> old(
                    self,
                ).rendered_frame.dispatch_tree.nodes@[k].parent->Some_0 >= start_node,
            old(self).next_frame.dispatch_tree.nodes@.len() + (end_node - start_node)
                <= usize::MAX,
        ensures
            final(self).wf(),
            *final(self) == (Window { next_frame: final(self).next_frame, ..*old(self) }),
            final(self).next_frame == (Frame {
                focus: final(self).next_frame.focus,
                dispatch_tree: final(self).next_frame.dispatch_tree,
                ..old(self).next_frame
            }),
            final(self).next_frame.dispatch_tree.active_stack@ == old(
                self,
            ).next_frame.dispatch_tree.active_stack@,
            final(self).next_frame.dispatch_tree.nodes@.len() == old(
                self,
            ).next_frame.dispatch_tree.nodes@.len() + (end_node - start_node),
            final(self).next_frame.dispatch_tree.nodes@.take(
                old(self).next_frame.dispatch_tree.nodes@.len() as int,
            ) == old(self).next_frame.dispatch_tree.nodes@,
            forall|k: int|
                start_node <= k < end_node ==> crate::dispatch::spliced_node(
                    old(self).rendered_frame.dispatch_tree.nodes@[k],
                    #[trigger] final(self).next_frame.dispatch_tree.nodes@[k - start_node + old(
                        self,
                    ).next_frame.dispatch_tree.nodes@.len()],
                    start_node as int,
                    old(self).next_frame.dispatch_tree.nodes@.len() as int,
                    old(self).next_frame.dispatch_tree.active_stack@,
                ),
            contains_focus == (old(self).focus is Some && exists|k: int|
                start_node <= k < end_node && #[trigger] old(
                    self,
                ).rendered_frame.dispatch_tree.nodes@[k].focus_id == old(self).focus),
            final(self).next_frame.focus == if contains_focus {
                old(self).focus
            } else {
                old(self).next_frame.focus
            },
    {
        let contains_focus = self.next_frame.dispatch_tree.reuse_subtree(
            start_node,
            end_node,
            &self.rendered_frame.dispatch_tree,
            self.focus,
        );
        if contains_focus {
            self.next_frame.focus = self.focus;
        }
        contains_focus
    }

    /// Finishes the pass: stamps the window-active bit, migrates the
    /// element state that was accessed, swaps the frames, clears the new
    /// next frame, and reports what the focus reconciliation must do.
    /// The caller fires focus-lost and focus listeners from the report,
    /// then calls [`Window::end_draw`].
    pub fn finish_draw(&mut self) -> (fc: FocusChange)
        requires
            old(self).wf(),
            old(self).draw_phase == DrawPhase::Paint,
        ensures
            final(self).wf(),
            final(self).draw_phase == DrawPhase::Focus,
            crate::frame::frame_unchanged_but_states(
                (Frame { window_active: old(self).active, ..old(self).next_frame }),
                final(self).rendered_frame,
            ),
            final(self).rendered_frame.element_states.view_map() == crate::frame::spec_migrate(
                old(self).next_frame.element_states.view_map(),
                old(self).rendered_frame.element_states.view_map(),
                old(self).next_frame.accessed_element_states@,
                0,
            ).0,
            crate::frame::frame_cleared(final(self).next_frame),
            *final(self) == (Window {
                rendered_frame: final(self).rendered_frame,
                next_frame: final(self).next_frame,
                draw_phase: DrawPhase::Focus,
                ..*old(self)
            }),
            fc.previous_path@ == if old(self).rendered_frame.window_active {
                crate::frame::spec_frame_focus_path(old(self).rendered_frame)
            } else {
                Seq::<FocusId>::empty()
            },
            fc.current_path@ == if old(self).active {
                crate::frame::spec_frame_focus_path(
                    (Frame { window_active: old(self).active, ..old(self).next_frame }),
                )
            } else {
                Seq::<FocusId>::empty()
            },
            fc.changed == (crate::frame::spec_frame_focus_path(old(self).rendered_frame)
                != crate::frame::spec_frame_focus_path(
                (Frame { window_active: old(self).active, ..old(self).next_frame }),
            ) || old(self).rendered_frame.window_active != old(self).active),
            fc.focus_lost == (fc.changed && crate::frame::spec_frame_focus_path(
                old(self).rendered_frame,
            ).len() > 0 && crate::frame::spec_frame_focus_path(
                (Frame { window_active: old(self).active, ..old(self).next_frame }),
            ).len() == 0),
    {
        self.next_frame.window_active = self.active;
        let prev_raw = self.rendered_frame.focus_path();
        let prev_active = self.rendered_frame.window_active;
        self.next_frame.finish(&mut self.rendered_frame);
        core::mem::swap(&mut self.rendered_frame, &mut self.next_frame);
        self.next_frame.clear();
        let cur_raw = self.rendered_frame.focus_path();
        let cur_active = self.rendered_frame.window_active;
        let paths_same = focus_paths_equal(&prev_raw, &cur_raw);
        let changed = !paths_same || prev_active != cur_active;
        let focus_lost = changed && prev_raw.len() > 0 && cur_raw.len() == 0;
        let previous_path = if prev_active {
            prev_raw
        } else {
            Vec::new()
        };
        let current_path = if cur_active {
            cur_raw
        } else {
            Vec::new()
        };
        self.draw_phase = DrawPhase::Focus;
        FocusChange { changed, focus_lost, previous_path, current_path }
    }

    /// Ends the pass after focus reconciliation: the window returns to
    /// idle and the new scene awaits presentation.
    pub fn end_draw(&mut self)
        requires
            old(self).draw_phase == DrawPhase::Focus,
        ensures
            *final(self) == (Window {
                draw_phase: DrawPhase::Idle,
                refreshing: false,
                needs_present: true,
                ..*old(self)
            }),
    {
        self.refreshing = false;
        self.draw_phase = DrawPhase::Idle;
        self.needs_present = true;
    }

    /// The cursor style to show for the pointer's current hit-test
    /// result: cursor requests are scanned in reverse registration order
    /// (innermost-registered last wins) and the first whose hitbox is
    /// hovered gives the style; with none, the default arrow (zero).
    pub fn cursor_style_choice(&self) -> (r: u32)
        ensures
            r == spec_cursor_style(
                self.rendered_frame.cursor_styles@,
                self.mouse_hit_test@,
                self.rendered_frame.cursor_styles@.len() as int,
            ),
    {
        self.cursor_style_from(self.rendered_frame.cursor_styles.len())
    }

    /// The cursor choice over the first `n` requests.
    fn cursor_style_from(&self, n: usize) -> (r: u32)
        requires
            n <= self.rendered_frame.cursor_styles@.len(),
        ensures
            r == spec_cursor_style(
                self.rendered_frame.cursor_styles@,
                self.mouse_hit_test@,
                n as int,
            ),
        decreases n,
    {
        if n == 0 {
            0
        } else {
            let rq = self.rendered_frame.cursor_styles[n - 1];
            if contains_hitbox(&self.mouse_hit_test, rq.hitbox_id) {
                rq.style
            } else {
                self.cursor_style_from(n - 1)
            }
        }
    }
}

/// Re-queues the deferred draws of a recorded range as replays: the
/// element is dropped (the recorded ranges will be reused instead) and
/// the parent node is refreshed into the spliced subtree.
fn copy_deferred(
    dst: &mut Vec<DeferredDraw>,
    src: &Vec<DeferredDraw>,
    start: usize,
    end: usize,
    tree_start: usize,
    tree_end: usize,
    tree_base: usize,
)
    requires
        start <= end <= src@.len(),
        tree_start <= tree_end,
        tree_base + (tree_end - tree_start) <= usize::MAX,
        forall|j: int|
            start <= j < end ==> tree_start <= (#[trigger] src@[j]).parent_node < tree_end,
    ensures
        final(dst)@.len() == old(dst)@.len() + (end - start),
        final(dst)@.take(old(dst)@.len() as int) == old(dst)@,
        forall|j: int|
            start <= j < end ==> #[trigger] final(dst)@[j - start + old(dst)@.len()]
                == (DeferredDraw {
                parent_node: (src@[j].parent_node - tree_start + tree_base) as usize,
                element: Option::<u64>::None,
                ..src@[j]
            }),
{
    let base = dst.len();
    let mut k = start;
    while k < end
        invariant
            start <= k <= end <= src@.len(),
            tree_start <= tree_end,
            tree_base + (tree_end - tree_start) <= usize::MAX,
            forall|j: int|
                start <= j < end ==> tree_start <= (#[trigger] src@[j]).parent_node < tree_end,
            base == old(dst)@.len(),
            dst@.len() == base + (k - start),
            dst@.take(base as int) == old(dst)@,
            forall|j: int|
                start <= j < k ==> #[trigger] dst@[j - start + base] == (DeferredDraw {
                    parent_node: (src@[j].parent_node - tree_start + tree_base) as usize,
                    element: Option::<u64>::None,
                    ..src@[j]
                }),
        decreases end - k,
    {
        let entry = src[k];
        let parent_node = entry.parent_node - tree_start + tree_base;
        dst.push(DeferredDraw { parent_node, element: None, ..entry });
        proof {
            assert(dst@.take(base as int) =~= old(dst)@);
        }
        k = k + 1;
    }
}

/// Whether two focus paths are the same sequence of ids.
fn focus_paths_equal(a: &Vec<FocusId>, b: &Vec<FocusId>) -> (r: bool)
    ensures
        r == (a@ == b@),
{
    if a.len() != b.len() {
        proof {
            assert(a@.len() != b@.len());
        }
        return false;
    }
    let mut i: usize = 0;
    while i < a.len()
        invariant
            i <= a@.len(),
            a@.len() == b@.len(),
            forall|k: int| 0 <= k < i ==> a@[k] == b@[k],
        decreases a@.len() - i,
    {
        if a[i] != b[i] {
            return false;
        }
        i = i + 1;
    }
    proof {
        assert(a@ =~= b@);
    }
    true
}

/// Whether the hit-test result contains the hitbox.
fn contains_hitbox(hit: &Vec<HitboxId>, id: HitboxId) -> (r: bool)
    ensures
        r == hit@.contains(id),
{
    let mut i: usize = 0;
    while i < hit.len()
        invariant
            i <= hit@.len(),
            forall|k: int| 0 <= k < i ==> hit@[k] != id,
        decreases hit@.len() - i,
    {
        if hit[i] == id {
            return true;
        }
        i = i + 1;
    }
    false
}

} // verus!
