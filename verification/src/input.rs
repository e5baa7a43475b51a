//! Routing platform input into the window.
//!
//! Raw events first have their pointer state tracked and file-drop
//! events rewritten into synthetic pointer events, so drag-and-drop
//! reuses the pointer dispatch path. Key-down events feed the stateful
//! multi-keystroke matcher: a typed sequence some binding extends is
//! held as pending input (with a timeout the embedder runs); one a
//! binding equals resolves to that binding; one that neither does is
//! replayed keystroke by keystroke. A modifier tap with no key in
//! between synthesizes a keystroke named after the modifier.

use vstd::prelude::*;

use crate::dispatch::spec_contexts_from;
use crate::dispatch::spec_dispatch_path;
use crate::dispatch::spec_focusable_node;
use crate::keymap::Keystroke;
use crate::keymap::Modifiers;
use crate::keymap::Replay;
use crate::keymap::replays_ok;
use crate::keymap::spec_matched;
use crate::keymap::spec_pending_possible;
use crate::window::DrawPhase;
use crate::window::PendingInput;
use crate::window::Window;

verus! {

/// What one key-down resolved to: bindings to fire now, keystrokes to
/// replay first (each with the bindings it fires alone), and whether a
/// pending sequence was stored instead (the embedder then schedules the
/// one-second timeout that calls [`Window::pending_timeout`]).
#[derive(Debug)]
pub struct KeyDownOutcome {
    /// Abandoned keystrokes to re-dispatch as if freshly typed, in
    /// order, before anything else.
    pub replays: Vec<Replay>,
    /// Indices into the keymap of the bindings the typed sequence fires,
    /// the binding added last first.
    pub bindings: Vec<usize>,
    /// Whether a partial match was stored and a timeout must be
    /// scheduled.
    pub pending: bool,
}

/// The keystrokes a new key-down extends: the pending sequence, unless
/// it began under a different focus (then it is abandoned).
pub open spec fn spec_pending_strokes(w: Window) -> Seq<Keystroke> {
    match w.pending_input {
        Option::Some(p) => if p.focus is Some && p.focus != w.focus {
            Seq::empty()
        } else {
            p.keystrokes@
        },
        Option::None => Seq::empty(),
    }
}

/// The node key events target: the focused element's node, or the tree
/// root when nothing is focused (or the focused id left the tree).
pub open spec fn spec_key_target(w: Window) -> usize {
    match w.focus {
        Option::Some(id) => match spec_focusable_node(
            w.rendered_frame.dispatch_tree.nodes@,
            id,
            w.rendered_frame.dispatch_tree.nodes@.len() as int,
        ) {
            Option::Some(t) => t,
            Option::None => 0,
        },
        Option::None => 0,
    }
}

/// The key contexts along the dispatch path of the key target.
pub open spec fn spec_key_contexts(w: Window) -> Seq<Seq<char>> {
    spec_contexts_from(
        w.rendered_frame.dispatch_tree.nodes@,
        spec_dispatch_path(w.rendered_frame.dispatch_tree.nodes@, spec_key_target(w) as int),
        0,
    )
}

/// The name of the synthesized keystroke for a lone-modifier tap, when
/// exactly one modifier was held.
pub open spec fn spec_modifier_key_name(m: Modifiers) -> Seq<char> {
    if m.shift {
        "shift"@
    } else if m.control {
        "control"@
    } else if m.alt {
        "alt"@
    } else if m.platform {
        "platform"@
    } else {
        "function"@
    }
}

impl Window {
    /// The node key events target.
    pub fn key_target(&self) -> (r: usize)
        requires
            self.wf(),
            self.rendered_frame.dispatch_tree.nodes@.len() > 0,
        ensures
            r == spec_key_target(*self),
            r < self.rendered_frame.dispatch_tree.nodes@.len(),
    {
        match self.focus {
            Option::Some(id) => {
                match self.rendered_frame.dispatch_tree.focusable_node_id(id) {
                    Option::Some(t) => {
                        proof {
                            crate::dispatch::lemma_focusable_in_range(
                                self.rendered_frame.dispatch_tree.nodes@,
                                id,
                                self.rendered_frame.dispatch_tree.nodes@.len() as int,
                            );
                        }
                        t
                    },
                    Option::None => 0,
                }
            },
            Option::None => 0,
        }
    }

    /// Feeds one key-down (or synthesized modifier keystroke) to the
    /// matcher. The keystroke extends any pending sequence (abandoned
    /// first if the focus changed since it began). A sequence some
    /// binding strictly extends is stored as pending; one a binding
    /// equals fires that binding (last added first); otherwise the
    /// abandoned prefix is replayed keystroke by keystroke, and the new
    /// keystroke starts over on its own: pending, firing, or replayed
    /// last with nothing to fire, falling through to raw key listeners.
    #[verifier::rlimit(100)]
    #[verifier::spinoff_prover]
    pub fn dispatch_key_down(&mut self, keystroke: Keystroke) -> (r: KeyDownOutcome)
        requires
            old(self).wf(),
            old(self).rendered_frame.dispatch_tree.nodes@.len() > 0,
            old(self).draw_phase == DrawPhase::Idle,
        ensures
            final(self).wf(),
            *final(self) == (Window {
                pending_input: final(self).pending_input,
                pending_modifier: (crate::window::ModifierState {
                    saw_keystroke: true,
                    ..old(self).pending_modifier
                }),
                ..*old(self)
            }),
            spec_key_down_outcome(*old(self), keystroke, *final(self), r),
    {
        self.pending_modifier.saw_keystroke = true;
        let pend_vec: Vec<Keystroke> = match self.pending_input.take() {
            Option::Some(p) => {
                let keep = match (p.focus, self.focus) {
                    (Option::Some(a), Option::Some(b)) => a == b,
                    (Option::Some(_), Option::None) => false,
                    (Option::None, _) => true,
                };
                if keep {
                    p.keystrokes
                } else {
                    Vec::new()
                }
            },
            Option::None => Vec::new(),
        };
        let ghost pend = pend_vec@;
        let mut typed = pend_vec;
        typed.push(keystroke);
        let target = self.key_target();
        let contexts = self.rendered_frame.dispatch_tree.context_stack(target);
        if self.keymap.pending_possible(&contexts, &typed) {
            self.pending_input = Some(PendingInput { keystrokes: typed, focus: self.focus });
            return KeyDownOutcome { replays: Vec::new(), bindings: Vec::new(), pending: true };
        }
        let matched = self.keymap.matched_bindings(&contexts, &typed);
        if matched.len() > 0 {
            return KeyDownOutcome { replays: Vec::new(), bindings: matched, pending: false };
        }
        if typed.len() > 1 {
            let last = typed.pop().unwrap();
            let mut single: Vec<Keystroke> = Vec::new();
            single.push(last);
            proof {
                assert(typed@ =~= pend);
                assert(single@ =~= seq![keystroke]);
            }
            if self.keymap.pending_possible(&contexts, &single) {
                let replays = self.keymap.flush_replays(&contexts, &typed);
                self.pending_input = Some(PendingInput { keystrokes: single, focus: self.focus });
                return KeyDownOutcome { replays, bindings: Vec::new(), pending: true };
            }
            let single_matched = self.keymap.matched_bindings(&contexts, &single);
            if single_matched.len() > 0 {
                let replays = self.keymap.flush_replays(&contexts, &typed);
                return KeyDownOutcome { replays, bindings: single_matched, pending: false };
            }
            let mut whole = typed;
            let mut single = single;
            whole.append(&mut single);
            proof {
                assert(whole@ =~= pend.push(keystroke));
            }
            let replays = self.keymap.flush_replays(&contexts, &whole);
            KeyDownOutcome { replays, bindings: Vec::new(), pending: false }
        } else {
            let replays = self.keymap.flush_replays(&contexts, &typed);
            self.pending_input = None;
            KeyDownOutcome { replays, bindings: Vec::new(), pending: false }
        }
    }

    /// Tracks a modifier-change event. A transition from exactly one
    /// modifier held to none, with no key-down in between, synthesizes a
    /// keystroke named after that modifier, which the embedder feeds to
    /// [`Window::dispatch_key_down`]; so a bare modifier tap can be
    /// bound.
    pub fn modifiers_changed(&mut self, event_modifiers: Modifiers) -> (r: Option<Keystroke>)
        ensures
            *final(self) == (Window {
                modifiers: event_modifiers,
                pending_modifier: (crate::window::ModifierState {
                    modifiers: event_modifiers,
                    saw_keystroke: if old(self).pending_modifier.modifiers.spec_count() == 0
                        && event_modifiers.spec_count() == 1 {
                        false
                    } else {
                        old(self).pending_modifier.saw_keystroke
                    },
                }),
                ..*old(self)
            }),
            r is Some <==> (event_modifiers.spec_count() == 0 && old(
                self,
            ).pending_modifier.modifiers.spec_count() == 1 && !old(
                self,
            ).pending_modifier.saw_keystroke),
            r is Some ==> r->Some_0.key@ == spec_modifier_key_name(
                old(self).pending_modifier.modifiers,
            ) && r->Some_0.modifiers.spec_count() == 0,
    {
        let mut keystroke: Option<Keystroke> = None;
        if event_modifiers.number_of_modifiers() == 0
            && self.pending_modifier.modifiers.number_of_modifiers() == 1
            && !self.pending_modifier.saw_keystroke {
            let name: &str = if self.pending_modifier.modifiers.shift {
                "shift"
            } else if self.pending_modifier.modifiers.control {
                "control"
            } else if self.pending_modifier.modifiers.alt {
                "alt"
            } else if self.pending_modifier.modifiers.platform {
                "platform"
            } else {
                "function"
            };
            keystroke = Some(Keystroke { key: name.to_owned(), modifiers: Modifiers::none() });
        }
        if self.pending_modifier.modifiers.number_of_modifiers() == 0
            && event_modifiers.number_of_modifiers() == 1 {
            self.pending_modifier.saw_keystroke = false;
        }
        self.pending_modifier.modifiers = event_modifiers;
        self.modifiers = event_modifiers;
        keystroke
    }

    /// Flushes the pending keystroke sequence when its timeout fires.
    /// The stale-timer guard: the sequence is only resolved if the focus
    /// it was stored under is still current; either way it is taken, a
    /// fresh event having superseded it.
    pub fn pending_timeout(&mut self) -> (r: Vec<Replay>)
        requires
            old(self).wf(),
            old(self).rendered_frame.dispatch_tree.nodes@.len() > 0,
        ensures
            final(self).wf(),
            *final(self) == (Window { pending_input: Option::None, ..*old(self) }),
            match old(self).pending_input {
                Option::Some(p) => if p.focus == old(self).focus {
                    replays_ok(
                        old(self).keymap.bindings@,
                        spec_key_contexts(*old(self)),
                        p.keystrokes@,
                        r@,
                    )
                } else {
                    r@.len() == 0
                },
                Option::None => r@.len() == 0,
            },
    {
        match self.pending_input.take() {
            Option::Some(p) => {
                let same = match (p.focus, self.focus) {
                    (Option::Some(a), Option::Some(b)) => a == b,
                    (Option::None, Option::None) => true,
                    _ => false,
                };
                if same {
                    let target = self.key_target();
                    let contexts = self.rendered_frame.dispatch_tree.context_stack(target);
                    self.keymap.flush_replays(&contexts, &p.keystrokes)
                } else {
                    Vec::new()
                }
            },
            Option::None => Vec::new(),
        }
    }

    /// Whether a potential multi-stroke key binding is in progress.
    pub fn has_pending_keystrokes(&self) -> (r: bool)
        ensures
            r == (self.pending_input is Some),
    {
        matches!(self.pending_input, Option::Some(_))
    }

    /// Abandons any in-flight multi-stroke sequence.
    pub fn clear_pending_keystrokes(&mut self)
        ensures
            *final(self) == (Window { pending_input: Option::None, ..*old(self) }),
    {
        self.pending_input = None;
    }
}

/// A file-drag event from the operating system.
#[derive(Clone, Copy, Debug, PartialEq, Eq, Structural)]
pub enum FileDropEvent {
    /// Files were dragged into the window at the position.
    Entered {
        /// Where the drag entered.
        position: crate::geom::Point,
    },
    /// The drag moved over the window.
    Pending {
        /// Where the drag is.
        position: crate::geom::Point,
    },
    /// The files were dropped.
    Submit {
        /// Where they were dropped.
        position: crate::geom::Point,
    },
    /// The drag left the window.
    Exited,
}

/// A raw platform input event.
#[derive(Debug)]
pub enum PlatformInput {
    /// The pointer moved.
    MouseMove {
        /// The pointer position.
        position: crate::geom::Point,
        /// The button held during the move, if any.
        pressed_button: Option<u8>,
        /// The modifiers held.
        modifiers: Modifiers,
    },
    /// A button was pressed.
    MouseDown {
        /// The pointer position.
        position: crate::geom::Point,
        /// The button pressed.
        button: u8,
        /// The modifiers held.
        modifiers: Modifiers,
        /// Consecutive clicks at this spot.
        click_count: usize,
    },
    /// A button was released.
    MouseUp {
        /// The pointer position.
        position: crate::geom::Point,
        /// The button released.
        button: u8,
        /// The modifiers held.
        modifiers: Modifiers,
        /// Consecutive clicks at this spot.
        click_count: usize,
    },
    /// The pointer left the window.
    MouseExited {
        /// The modifiers held.
        modifiers: Modifiers,
    },
    /// The held modifiers changed.
    ModifiersChanged {
        /// The modifiers now held.
        modifiers: Modifiers,
    },
    /// The wheel scrolled.
    ScrollWheel {
        /// The pointer position.
        position: crate::geom::Point,
        /// The modifiers held.
        modifiers: Modifiers,
    },
    /// A key went down.
    KeyDown {
        /// The keystroke.
        keystroke: Keystroke,
    },
    /// A key came up.
    KeyUp {
        /// The keystroke.
        keystroke: Keystroke,
    },
    /// Files are being dragged over the window.
    FileDrop(FileDropEvent),
}

/// The left mouse button, as synthetic file-drop pointer events report
/// it.
pub const LEFT_MOUSE_BUTTON: u8 = 0;

/// What [`Window::dispatch_event`] decided: the normalized event to
/// dispatch and the side effects the embedder must perform.
#[derive(Debug)]
pub struct DispatchDecision {
    /// The event to dispatch, with file drops rewritten into synthetic
    /// pointer events.
    pub event: PlatformInput,
    /// Whether the embedder must begin a file drag (files entered with
    /// no drag active).
    pub start_drag: bool,
    /// Whether the embedder must cancel the active drag (the files
    /// left).
    pub end_drag: bool,
    /// Whether the embedder must activate the application (files were
    /// dropped).
    pub activate: bool,
    /// Whether the event goes to the mouse listeners.
    pub is_mouse: bool,
    /// Whether the event goes to the keyboard path.
    pub is_keyboard: bool,
}

impl Window {
    /// Takes one raw platform event: tracks the pointer position and
    /// modifiers, resets the default-prevented flag, and rewrites
    /// file-drop events into synthetic pointer events so drag-and-drop
    /// reuses the pointer dispatch path. Returns the normalized event
    /// and what else the embedder must do.
    #[verifier::rlimit(100)]
    #[verifier::spinoff_prover]
    pub fn dispatch_event(&mut self, event: PlatformInput, has_active_drag: bool) -> (r:
        DispatchDecision)
        ensures
            *final(self) == (Window {
                mouse_position: final(self).mouse_position,
                modifiers: final(self).modifiers,
                default_prevented: false,
                ..*old(self)
            }),
            spec_dispatch_decision(
                old(self).mouse_position,
                old(self).modifiers,
                final(self).mouse_position,
                final(self).modifiers,
                event,
                has_active_drag,
                r,
            ),
    {
        self.default_prevented = false;
        match event {
            PlatformInput::FileDrop(drop) => self.normalize_file_drop(drop, has_active_drag),
            other => self.track_pointer_state(other),
        }
    }

    /// Tracks the pointer position and modifiers of a non-drop event and
    /// routes it to the mouse or keyboard path.
    /// Tracks the pointer position and modifiers of a non-drop event and
    /// routes it to the mouse or keyboard path.
    #[verifier::rlimit(100)]
    #[verifier::spinoff_prover]
    fn track_pointer_state(&mut self, event: PlatformInput) -> (r: DispatchDecision)
        requires
            !(event is FileDrop),
        ensures
            *final(self) == (Window {
                mouse_position: final(self).mouse_position,
                modifiers: final(self).modifiers,
                ..*old(self)
            }),
            spec_dispatch_decision(
                old(self).mouse_position,
                old(self).modifiers,
                final(self).mouse_position,
                final(self).modifiers,
                event,
                false,
                r,
            ),
    {
        let updates: (Option<crate::geom::Point>, Option<Modifiers>, DispatchDecision) =
            match event {
            PlatformInput::MouseMove { position, pressed_button, modifiers } => (
                Some(position),
                Some(modifiers),
                DispatchDecision {
                    event: PlatformInput::MouseMove { position, pressed_button, modifiers },
                    start_drag: false,
                    end_drag: false,
                    activate: false,
                    is_mouse: true,
                    is_keyboard: false,
                },
            ),
            PlatformInput::MouseDown { position, button, modifiers, click_count } => (
                Some(position),
                Some(modifiers),
                DispatchDecision {
                    event: PlatformInput::MouseDown { position, button, modifiers, click_count },
                    start_drag: false,
                    end_drag: false,
                    activate: false,
                    is_mouse: true,
                    is_keyboard: false,
                },
            ),
            PlatformInput::MouseUp { position, button, modifiers, click_count } => (
                Some(position),
                Some(modifiers),
                DispatchDecision {
                    event: PlatformInput::MouseUp { position, button, modifiers, click_count },
                    start_drag: false,
                    end_drag: false,
                    activate: false,
                    is_mouse: true,
                    is_keyboard: false,
                },
            ),
            PlatformInput::MouseExited { modifiers } => (
                None,
                Some(modifiers),
                DispatchDecision {
                    event: PlatformInput::MouseExited { modifiers },
                    start_drag: false,
                    end_drag: false,
                    activate: false,
                    is_mouse: true,
                    is_keyboard: false,
                },
            ),
            PlatformInput::ModifiersChanged { modifiers } => (
                None,
                Some(modifiers),
                DispatchDecision {
                    event: PlatformInput::ModifiersChanged { modifiers },
                    start_drag: false,
                    end_drag: false,
                    activate: false,
                    is_mouse: false,
                    is_keyboard: true,
                },
            ),
            PlatformInput::ScrollWheel { position, modifiers } => (
                Some(position),
                Some(modifiers),
                DispatchDecision {
                    event: PlatformInput::ScrollWheel { position, modifiers },
                    start_drag: false,
                    end_drag: false,
                    activate: false,
                    is_mouse: true,
                    is_keyboard: false,
                },
            ),
            PlatformInput::KeyDown { keystroke } => (
                None,
                None,
                DispatchDecision {
                    event: PlatformInput::KeyDown { keystroke },
                    start_drag: false,
                    end_drag: false,
                    activate: false,
                    is_mouse: false,
                    is_keyboard: true,
                },
            ),
            PlatformInput::KeyUp { keystroke } => (
                None,
                None,
                DispatchDecision {
                    event: PlatformInput::KeyUp { keystroke },
                    start_drag: false,
                    end_drag: false,
                    activate: false,
                    is_mouse: false,
                    is_keyboard: true,
                },
            ),
            PlatformInput::FileDrop(drop) => (
                None,
                None,
                DispatchDecision {
                    event: PlatformInput::FileDrop(drop),
                    start_drag: false,
                    end_drag: false,
                    activate: false,
                    is_mouse: true,
                    is_keyboard: false,
                },
            ),
        };
        let (new_pos, new_mods, decision) = updates;
        self.set_pointer_state(new_pos, new_mods);
        decision
    }

    /// Applies tracked pointer state, leaving everything else alone.
    fn set_pointer_state(
        &mut self,
        new_pos: Option<crate::geom::Point>,
        new_mods: Option<Modifiers>,
    )
        ensures
            *final(self) == (Window {
                mouse_position: if new_pos is Some {
                    new_pos->Some_0
                } else {
                    old(self).mouse_position
                },
                modifiers: if new_mods is Some {
                    new_mods->Some_0
                } else {
                    old(self).modifiers
                },
                ..*old(self)
            }),
    {
        match new_pos {
            Option::Some(p) => {
                self.mouse_position = p;
            },
            Option::None => {},
        }
        match new_mods {
            Option::Some(m) => {
                self.modifiers = m;
            },
            Option::None => {},
        }
    }

    /// Rewrites one file-drag event into the synthetic pointer event
    /// that lets drag-and-drop reuse the pointer dispatch path.
    fn normalize_file_drop(&mut self, drop: FileDropEvent, has_active_drag: bool) -> (r:
        DispatchDecision)
        ensures
            *final(self) == (Window { mouse_position: final(self).mouse_position, ..*old(self) }),
            spec_dispatch_decision(
                old(self).mouse_position,
                old(self).modifiers,
                final(self).mouse_position,
                final(self).modifiers,
                PlatformInput::FileDrop(drop),
                has_active_drag,
                r,
            ),
    {
        let updates: (Option<crate::geom::Point>, DispatchDecision) = match drop {
            FileDropEvent::Entered { position } => (
                Some(position),
                DispatchDecision {
                    event: PlatformInput::MouseMove {
                        position,
                        pressed_button: Some(LEFT_MOUSE_BUTTON),
                        modifiers: Modifiers::none(),
                    },
                    start_drag: !has_active_drag,
                    end_drag: false,
                    activate: false,
                    is_mouse: true,
                    is_keyboard: false,
                },
            ),
            FileDropEvent::Pending { position } => (
                Some(position),
                DispatchDecision {
                    event: PlatformInput::MouseMove {
                        position,
                        pressed_button: Some(LEFT_MOUSE_BUTTON),
                        modifiers: Modifiers::none(),
                    },
                    start_drag: false,
                    end_drag: false,
                    activate: false,
                    is_mouse: true,
                    is_keyboard: false,
                },
            ),
            FileDropEvent::Submit { position } => (
                Some(position),
                DispatchDecision {
                    event: PlatformInput::MouseUp {
                        position,
                        button: LEFT_MOUSE_BUTTON,
                        modifiers: Modifiers::none(),
                        click_count: 1,
                    },
                    start_drag: false,
                    end_drag: false,
                    activate: true,
                    is_mouse: true,
                    is_keyboard: false,
                },
            ),
            FileDropEvent::Exited => (
                None,
                DispatchDecision {
                    event: PlatformInput::FileDrop(FileDropEvent::Exited),
                    start_drag: false,
                    end_drag: true,
                    activate: false,
                    is_mouse: true,
                    is_keyboard: false,
                },
            ),
        };
        let (new_pos, decision) = updates;
        match new_pos {
            Option::Some(p) => {
                self.mouse_position = p;
            },
            Option::None => {},
        }
        decision
    }

    /// Recomputes the pointer's hit test against the rendered frame, as
    /// mouse dispatch does before running listeners; reports whether it
    /// changed (then the cursor style is re-chosen).
    pub fn update_hit_test(&mut self) -> (changed: bool)
        requires
            old(self).wf(),
        ensures
            final(self).wf(),
            *final(self) == (Window { mouse_hit_test: final(self).mouse_hit_test, ..*old(self) }),
            final(self).mouse_hit_test@ == crate::frame::spec_hit_test(
                old(self).rendered_frame.hitboxes@,
                old(self).mouse_position,
                old(self).rendered_frame.hitboxes@.len() as int,
            ),
            changed == (final(self).mouse_hit_test@ != old(self).mouse_hit_test@),
    {
        let hit = self.rendered_frame.hit_test(self.mouse_position);
        let changed = !hitbox_ids_equal(&hit, &self.mouse_hit_test);
        self.mouse_hit_test = hit;
        changed
    }
}

/// Whether two hit-test results list the same hitboxes in the same
/// order.
fn hitbox_ids_equal(a: &Vec<crate::frame::HitboxId>, b: &Vec<crate::frame::HitboxId>) -> (r: bool)
    ensures
        r == (a@ == b@),
{
    if a.len() != b.len() {
        proof {
            assert(a@.len() != b@.len());
        }
        return false;
    }
    let mut i: usize = 0;
    while i < a.len()
        invariant
            i <= a@.len(),
            a@.len() == b@.len(),
            forall|k: int| 0 <= k < i ==> a@[k] == b@[k],
        decreases a@.len() - i,
    {
        if a[i] != b[i] {
            return false;
        }
        i = i + 1;
    }
    proof {
        assert(a@ =~= b@);
    }
    true
}

/// What normalization must yield for each raw event: pointer events
/// update the tracked pointer state and pass through; key events pass
/// through; file drops become synthetic pointer events (a move with the
/// left button while dragging, a release on drop) plus the drag side
/// effects.
pub open spec fn spec_dispatch_decision(
    pos0: crate::geom::Point,
    mods0: Modifiers,
    pos1: crate::geom::Point,
    mods1: Modifiers,
    event: PlatformInput,
    has_active_drag: bool,
    r: DispatchDecision,
) -> bool {
    match event {
        PlatformInput::MouseMove { position, pressed_button, modifiers } => {
            &&& pos1 == position
            &&& mods1 == modifiers
            &&& r.event == event
            &&& r.is_mouse && !r.is_keyboard && !r.start_drag && !r.end_drag && !r.activate
        },
        PlatformInput::MouseDown { position, button, modifiers, click_count } => {
            &&& pos1 == position
            &&& mods1 == modifiers
            &&& r.event == event
            &&& r.is_mouse && !r.is_keyboard && !r.start_drag && !r.end_drag && !r.activate
        },
        PlatformInput::MouseUp { position, button, modifiers, click_count } => {
            &&& pos1 == position
            &&& mods1 == modifiers
            &&& r.event == event
            &&& r.is_mouse && !r.is_keyboard && !r.start_drag && !r.end_drag && !r.activate
        },
        PlatformInput::MouseExited { modifiers } => {
            &&& pos1 == pos0
            &&& mods1 == modifiers
            &&& r.event == event
            &&& r.is_mouse && !r.is_keyboard && !r.start_drag && !r.end_drag && !r.activate
        },
        PlatformInput::ModifiersChanged { modifiers } => {
            &&& pos1 == pos0
            &&& mods1 == modifiers
            &&& r.event == event
            &&& !r.is_mouse && r.is_keyboard && !r.start_drag && !r.end_drag && !r.activate
        },
        PlatformInput::ScrollWheel { position, modifiers } => {
            &&& pos1 == position
            &&& mods1 == modifiers
            &&& r.event == event
            &&& r.is_mouse && !r.is_keyboard && !r.start_drag && !r.end_drag && !r.activate
        },
        PlatformInput::KeyDown { keystroke } => {
            &&& pos1 == pos0
            &&& mods1 == mods0
            &&& r.event == event
            &&& !r.is_mouse && r.is_keyboard && !r.start_drag && !r.end_drag && !r.activate
        },
        PlatformInput::KeyUp { keystroke } => {
            &&& pos1 == pos0
            &&& mods1 == mods0
            &&& r.event == event
            &&& !r.is_mouse && r.is_keyboard && !r.start_drag && !r.end_drag && !r.activate
        },
        PlatformInput::FileDrop(drop) => match drop {
            FileDropEvent::Entered { position } => {
                &&& pos1 == position
                &&& mods1 == mods0
                &&& r.event == (PlatformInput::MouseMove {
                    position,
                    pressed_button: Option::Some(LEFT_MOUSE_BUTTON),
                    modifiers: (Modifiers {
                        control: false,
                        alt: false,
                        shift: false,
                        platform: false,
                        function: false,
                    }),
                })
                &&& r.start_drag == !has_active_drag
                &&& r.is_mouse && !r.is_keyboard && !r.end_drag && !r.activate
            },
            FileDropEvent::Pending { position } => {
                &&& pos1 == position
                &&& mods1 == mods0
                &&& r.event == (PlatformInput::MouseMove {
                    position,
                    pressed_button: Option::Some(LEFT_MOUSE_BUTTON),
                    modifiers: (Modifiers {
                        control: false,
                        alt: false,
                        shift: false,
                        platform: false,
                        function: false,
                    }),
                })
                &&& r.is_mouse && !r.is_keyboard && !r.start_drag && !r.end_drag && !r.activate
            },
            FileDropEvent::Submit { position } => {
                &&& pos1 == position
                &&& mods1 == mods0
                &&& r.event == (PlatformInput::MouseUp {
                    position,
                    button: LEFT_MOUSE_BUTTON,
                    modifiers: (Modifiers {
                        control: false,
                        alt: false,
                        shift: false,
                        platform: false,
                        function: false,
                    }),
                    click_count: 1usize,
                })
                &&& r.activate
                &&& r.is_mouse && !r.is_keyboard && !r.start_drag && !r.end_drag
            },
            FileDropEvent::Exited => {
                &&& pos1 == pos0
                &&& mods1 == mods0
                &&& r.event == PlatformInput::FileDrop(FileDropEvent::Exited)
                &&& r.end_drag
                &&& r.is_mouse && !r.is_keyboard && !r.start_drag && !r.activate
            },
        },
    }
}

/// What a key-down must resolve to. With `pend` the keystrokes it
/// extends and `typed` the extended sequence: a sequence some binding
/// strictly extends is stored pending; one a binding equals fires those
/// bindings; otherwise the abandoned prefix is replayed and the new
/// keystroke starts over on its own (pending, firing, or replayed last
/// with nothing to fire).
pub open spec fn spec_key_down_outcome(
    w0: Window,
    keystroke: Keystroke,
    w1: Window,
    r: KeyDownOutcome,
) -> bool {
    let km = w0.keymap.bindings@;
    let ctx = spec_key_contexts(w0);
    let pend = spec_pending_strokes(w0);
    let typed = pend.push(keystroke);
    if spec_pending_possible(km, ctx, typed) {
        &&& w1.pending_input is Some
        &&& w1.pending_input->Some_0.keystrokes@ == typed
        &&& w1.pending_input->Some_0.focus == w0.focus
        &&& r.pending
        &&& r.replays@.len() == 0
        &&& r.bindings@.len() == 0
    } else if spec_matched(km, ctx, typed).len() > 0 {
        &&& w1.pending_input is None
        &&& !r.pending
        &&& r.replays@.len() == 0
        &&& r.bindings@ == spec_matched(km, ctx, typed)
    } else if pend.len() > 0 && spec_pending_possible(km, ctx, seq![keystroke]) {
        &&& replays_ok(km, ctx, pend, r.replays@)
        &&& w1.pending_input is Some
        &&& w1.pending_input->Some_0.keystrokes@ == seq![keystroke]
        &&& w1.pending_input->Some_0.focus == w0.focus
        &&& r.pending
        &&& r.bindings@.len() == 0
    } else if pend.len() > 0 && spec_matched(km, ctx, seq![keystroke]).len() > 0 {
        &&& replays_ok(km, ctx, pend, r.replays@)
        &&& w1.pending_input is None
        &&& !r.pending
        &&& r.bindings@ == spec_matched(km, ctx, seq![keystroke])
    } else {
        &&& replays_ok(km, ctx, typed, r.replays@)
        &&& w1.pending_input is None
        &&& !r.pending
        &&& r.bindings@.len() == 0
    }
}

} // verus!
