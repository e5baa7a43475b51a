//! Keystrokes, key bindings and the multi-keystroke matcher.
//!
//! A binding maps a sequence of keystrokes, optionally gated on a key
//! context, to an action. Typing is matched incrementally: a typed
//! sequence that some binding strictly extends is *pending*; one that
//! some binding equals exactly *resolves*; one that neither does is
//! *replayed*, each keystroke then standing on its own.

use vstd::prelude::*;

verus! {

/// The keyboard modifiers held during a keystroke.
#[derive(Clone, Copy, Debug, PartialEq, Eq, Structural)]
pub struct Modifiers {
    /// The control key.
    pub control: bool,
    /// The alt (option) key.
    pub alt: bool,
    /// The shift key.
    pub shift: bool,
    /// The platform key (command, super or windows).
    pub platform: bool,
    /// The function key.
    pub function: bool,
}

impl Modifiers {
    /// No modifier held.
    pub fn none() -> (r: Modifiers)
        ensures
            r == (Modifiers {
                control: false,
                alt: false,
                shift: false,
                platform: false,
                function: false,
            }),
    {
        Modifiers { control: false, alt: false, shift: false, platform: false, function: false }
    }

    /// How many modifiers are held.
    pub open spec fn spec_count(self) -> int {
        (if self.control {
            1int
        } else {
            0int
        }) + (if self.alt {
            1int
        } else {
            0int
        }) + (if self.shift {
            1int
        } else {
            0int
        }) + (if self.platform {
            1int
        } else {
            0int
        }) + (if self.function {
            1int
        } else {
            0int
        })
    }

    /// How many modifiers are held.
    pub fn number_of_modifiers(&self) -> (r: u8)
        ensures
            r == self.spec_count(),
    {
        (if self.control {
            1u8
        } else {
            0u8
        }) + (if self.alt {
            1u8
        } else {
            0u8
        }) + (if self.shift {
            1u8
        } else {
            0u8
        }) + (if self.platform {
            1u8
        } else {
            0u8
        }) + (if self.function {
            1u8
        } else {
            0u8
        })
    }
}

/// One keystroke: a key name plus the modifiers held with it.
#[derive(Debug)]
pub struct Keystroke {
    /// The name of the key ("a", "enter", "shift", ...).
    pub key: String,
    /// The modifiers held.
    pub modifiers: Modifiers,
}

/// Whether two keystrokes are the same key under the same modifiers.
pub open spec fn ks_eq(a: Keystroke, b: Keystroke) -> bool {
    a.key@ == b.key@ && a.modifiers == b.modifiers
}

impl Keystroke {
    /// Builds a keystroke.
    pub fn new(key: String, modifiers: Modifiers) -> (r: Keystroke)
        ensures
            r.key@ == key@,
            r.modifiers == modifiers,
    {
        Keystroke { key, modifiers }
    }

    /// A copy of this keystroke.
    pub fn duplicate(&self) -> (r: Keystroke)
        ensures
            ks_eq(r, *self),
    {
        Keystroke { key: self.key.clone(), modifiers: self.modifiers }
    }

    /// Whether this is the same key under the same modifiers as `other`.
    pub fn same_as(&self, other: &Keystroke) -> (r: bool)
        ensures
            r == ks_eq(*self, *other),
    {
        self.key == other.key && self.modifiers == other.modifiers
    }
}

/// A key binding: a keystroke sequence, an optional key context it is
/// confined to, and the action it fires.
#[derive(Debug)]
pub struct KeyBinding {
    /// The keystroke sequence that triggers the binding.
    pub keystrokes: Vec<Keystroke>,
    /// The key context the binding applies in; none applies everywhere.
    pub context: Option<String>,
    /// The action the binding fires.
    pub action: u64,
}

/// The active keymap: bindings in registration order; a binding added
/// later takes precedence.
#[derive(Debug)]
pub struct Keymap {
    /// The bindings, in registration order.
    pub bindings: Vec<KeyBinding>,
}

/// Whether `typed` agrees with the first `typed.len()` keystrokes of the
/// binding's sequence.
pub open spec fn ks_prefix_of(typed: Seq<Keystroke>, bks: Seq<Keystroke>) -> bool {
    typed.len() <= bks.len() && forall|i: int| 0 <= i < typed.len() ==> ks_eq(bks[i], typed[i])
}

/// Whether the binding applies under the given context stack: either it
/// names no context, or some context on the stack equals its own.
pub open spec fn context_ok(b: KeyBinding, contexts: Seq<Seq<char>>) -> bool {
    match b.context {
        Option::None => true,
        Option::Some(c) => exists|j: int| 0 <= j < contexts.len() && contexts[j] == c@,
    }
}

/// Whether the typed sequence fires this binding: same length, same
/// keystrokes, context applies.
pub open spec fn binding_full_match(
    b: KeyBinding,
    contexts: Seq<Seq<char>>,
    typed: Seq<Keystroke>,
) -> bool {
    typed.len() == b.keystrokes@.len() && ks_prefix_of(typed, b.keystrokes@) && context_ok(
        b,
        contexts,
    )
}

/// Whether the typed sequence is a strict prefix of this binding (so more
/// keystrokes could still complete it) under an applying context.
pub open spec fn binding_pending_match(
    b: KeyBinding,
    contexts: Seq<Seq<char>>,
    typed: Seq<Keystroke>,
) -> bool {
    typed.len() < b.keystrokes@.len() && ks_prefix_of(typed, b.keystrokes@) && context_ok(
        b,
        contexts,
    )
}

/// The indices of the bindings among the first `j` that the typed
/// sequence fires, the binding added last first.
pub open spec fn spec_matched_to(
    bindings: Seq<KeyBinding>,
    contexts: Seq<Seq<char>>,
    typed: Seq<Keystroke>,
    j: int,
) -> Seq<usize>
    decreases j,
{
    if j <= 0 || j > bindings.len() {
        Seq::empty()
    } else {
        (if binding_full_match(bindings[j - 1], contexts, typed) {
            seq![(j - 1) as usize]
        } else {
            Seq::empty()
        }) + spec_matched_to(bindings, contexts, typed, j - 1)
    }
}

/// The binding indices the typed sequence fires, the binding added last
/// first.
pub open spec fn spec_matched(
    bindings: Seq<KeyBinding>,
    contexts: Seq<Seq<char>>,
    typed: Seq<Keystroke>,
) -> Seq<usize> {
    spec_matched_to(bindings, contexts, typed, bindings.len() as int)
}

/// Whether some binding could still complete the typed sequence.
pub open spec fn spec_pending_possible(
    bindings: Seq<KeyBinding>,
    contexts: Seq<Seq<char>>,
    typed: Seq<Keystroke>,
) -> bool {
    exists|ix: int| 0 <= ix < bindings.len() && binding_pending_match(bindings[ix], contexts, typed)
}

impl Keymap {
    /// An empty keymap.
    pub fn new() -> (r: Keymap)
        ensures
            r.bindings@ == Seq::<KeyBinding>::empty(),
    {
        Keymap { bindings: Vec::new() }
    }

    /// Registers a binding; bindings registered later take precedence.
    pub fn add(&mut self, binding: KeyBinding)
        ensures
            final(self).bindings@ == old(self).bindings@.push(binding),
    {
        self.bindings.push(binding);
    }

    /// The indices of the bindings the typed sequence fires under the
    /// given context stack, the binding added last first.
    pub fn matched_bindings(&self, contexts: &Vec<String>, typed: &Vec<Keystroke>) -> (r: Vec<
        usize,
    >)
        ensures
            r@ == spec_matched(self.bindings@, contexts@.map_values(|s: String| s@), typed@),
    {
        self.matched_to(contexts, typed, self.bindings.len())
    }

    /// The firing binding indices among the first `j`.
    fn matched_to(&self, contexts: &Vec<String>, typed: &Vec<Keystroke>, j: usize) -> (r: Vec<
        usize,
    >)
        requires
            j <= self.bindings@.len(),
        ensures
            r@ == spec_matched_to(
                self.bindings@,
                contexts@.map_values(|s: String| s@),
                typed@,
                j as int,
            ),
        decreases j,
    {
        if j == 0 {
            Vec::new()
        } else {
            let mut rest = self.matched_to(contexts, typed, j - 1);
            if binding_matches_full(&self.bindings[j - 1], contexts, typed) {
                let mut out: Vec<usize> = Vec::new();
                out.push(j - 1);
                out.append(&mut rest);
                out
            } else {
                rest
            }
        }
    }

    /// Whether some binding could still complete the typed sequence under
    /// the given context stack.
    pub fn pending_possible(&self, contexts: &Vec<String>, typed: &Vec<Keystroke>) -> (r: bool)
        ensures
            r == spec_pending_possible(
                self.bindings@,
                contexts@.map_values(|s: String| s@),
                typed@,
            ),
    {
        let mut ix: usize = 0;
        while ix < self.bindings.len()
            invariant
                ix <= self.bindings@.len(),
                forall|k: int|
                    0 <= k < ix ==> !binding_pending_match(
                        self.bindings@[k],
                        contexts@.map_values(|s: String| s@),
                        typed@,
                    ),
            decreases self.bindings@.len() - ix,
        {
            if binding_matches_pending(&self.bindings[ix], contexts, typed) {
                return true;
            }
            ix = ix + 1;
        }
        false
    }
}

/// Whether the typed sequence agrees with the binding's first keystrokes.
fn prefix_matches(typed: &Vec<Keystroke>, bks: &Vec<Keystroke>) -> (r: bool)
    ensures
        r == ks_prefix_of(typed@, bks@),
{
    if typed.len() > bks.len() {
        return false;
    }
    let mut i: usize = 0;
    while i < typed.len()
        invariant
            i <= typed@.len(),
            typed@.len() <= bks@.len(),
            forall|k: int| 0 <= k < i ==> ks_eq(bks@[k], typed@[k]),
        decreases typed@.len() - i,
    {
        if !typed[i].same_as(&bks[i]) {
            return false;
        }
        i = i + 1;
    }
    true
}

/// Whether the binding applies under the context stack.
fn context_matches(b: &KeyBinding, contexts: &Vec<String>) -> (r: bool)
    ensures
        r == context_ok(*b, contexts@.map_values(|s: String| s@)),
{
    match b.context.as_ref() {
        Option::None => true,
        Option::Some(c) => {
            let mut j: usize = 0;
            while j < contexts.len()
                invariant
                    j <= contexts@.len(),
                    b.context is Some,
                    b.context->Some_0@ == c@,
                    forall|k: int| 0 <= k < j ==> contexts@[k]@ != c@,
                decreases contexts@.len() - j,
            {
                if contexts[j].eq(c) {
                    proof {
                        let mapped = contexts@.map_values(|s: String| s@);
                        assert(mapped.len() == contexts@.len());
                        assert(mapped[j as int] == contexts@[j as int]@);
                        assert(b.context->Some_0@ == c@);
                        assert(0 <= j < mapped.len() && mapped[j as int] == b.context->Some_0@);
                        assert(exists|jj: int|
                            0 <= jj < mapped.len() && mapped[jj] == b.context->Some_0@) by {
                            assert(mapped[j as int] == b.context->Some_0@);
                        }
                        assert(context_ok(*b, mapped));
                    }
                    return true;
                }
                j = j + 1;
            }
            proof {
                let mapped = contexts@.map_values(|s: String| s@);
                assert forall|k: int| 0 <= k < mapped.len() implies #[trigger] mapped[k] != c@ by {
                    assert(mapped[k] == contexts@[k]@);
                }
            }
            false
        },
    }
}

/// Whether the typed sequence fires the binding.
fn binding_matches_full(b: &KeyBinding, contexts: &Vec<String>, typed: &Vec<Keystroke>) -> (r: bool)
    ensures
        r == binding_full_match(*b, contexts@.map_values(|s: String| s@), typed@),
{
    typed.len() == b.keystrokes.len() && prefix_matches(typed, &b.keystrokes) && context_matches(
        b,
        contexts,
    )
}

/// Whether the typed sequence is a strict prefix of the binding.
fn binding_matches_pending(b: &KeyBinding, contexts: &Vec<String>, typed: &Vec<Keystroke>) -> (r:
    bool)
    ensures
        r == binding_pending_match(*b, contexts@.map_values(|s: String| s@), typed@),
{
    typed.len() < b.keystrokes.len() && prefix_matches(typed, &b.keystrokes) && context_matches(
        b,
        contexts,
    )
}

/// A keystroke to re-dispatch as if freshly typed, with the bindings it
/// fires on its own.
#[derive(Debug)]
pub struct Replay {
    /// The keystroke to replay.
    pub keystroke: Keystroke,
    /// The indices of the bindings the keystroke fires alone, the binding
    /// added last first.
    pub binding_indices: Vec<usize>,
}

/// What each abandoned keystroke resolves to on its own: position `i` of
/// the result replays keystroke `i` with the bindings a fresh one-stroke
/// sequence of it would fire.
pub open spec fn replays_ok(
    bindings: Seq<KeyBinding>,
    contexts: Seq<Seq<char>>,
    ks: Seq<Keystroke>,
    replays: Seq<Replay>,
) -> bool {
    &&& replays.len() == ks.len()
    &&& forall|i: int|
        0 <= i < ks.len() ==> ks_eq(#[trigger] replays[i].keystroke, ks[i])
    &&& forall|i: int|
        0 <= i < ks.len() ==> (#[trigger] replays[i].binding_indices@) == spec_matched(
            bindings,
            contexts,
            seq![ks[i]],
        )
}

impl Keymap {
    /// Resolves an abandoned keystroke sequence for replay: each
    /// keystroke stands on its own, firing whatever a fresh one-stroke
    /// sequence of it would fire.
    pub fn flush_replays(&self, contexts: &Vec<String>, ks: &Vec<Keystroke>) -> (r: Vec<Replay>)
        ensures
            replays_ok(self.bindings@, contexts@.map_values(|s: String| s@), ks@, r@),
    {
        let mut r: Vec<Replay> = Vec::new();
        let mut i: usize = 0;
        while i < ks.len()
            invariant
                i <= ks@.len(),
                r@.len() == i,
                forall|k: int| 0 <= k < i ==> ks_eq(#[trigger] r@[k].keystroke, ks@[k]),
                forall|k: int|
                    0 <= k < i ==> (#[trigger] r@[k].binding_indices@) == spec_matched(
                        self.bindings@,
                        contexts@.map_values(|s: String| s@),
                        seq![ks@[k]],
                    ),
            decreases ks@.len() - i,
        {
            let stroke = ks[i].duplicate();
            let mut single: Vec<Keystroke> = Vec::new();
            single.push(ks[i].duplicate());
            proof {
                assert(single@ =~= seq![single@[0]]);
            }
            let indices = self.matched_bindings(contexts, &single);
            proof {
                lemma_matched_respects_ks_eq(
                    self.bindings@,
                    contexts@.map_values(|s: String| s@),
                    seq![single@[0]],
                    seq![ks@[i as int]],
                    self.bindings@.len() as int,
                );
            }
            r.push(Replay { keystroke: stroke, binding_indices: indices });
            i = i + 1;
        }
        r
    }
}

/// A binding index is reported among the first `j` exactly when its
/// binding fires on the typed sequence.
pub proof fn lemma_matched_characterization(
    bindings: Seq<KeyBinding>,
    contexts: Seq<Seq<char>>,
    typed: Seq<Keystroke>,
    j: int,
    ix: usize,
)
    requires
        j <= bindings.len() <= usize::MAX,
    ensures
        spec_matched_to(bindings, contexts, typed, j).contains(ix) <==> (ix < j
            && binding_full_match(bindings[ix as int], contexts, typed)),
    decreases j,
{
    if j <= 0 {
    } else {
        lemma_matched_characterization(bindings, contexts, typed, j - 1, ix);
        let head: Seq<usize> = if binding_full_match(bindings[j - 1], contexts, typed) {
            seq![(j - 1) as usize]
        } else {
            Seq::empty()
        };
        let rest = spec_matched_to(bindings, contexts, typed, j - 1);
        assert(spec_matched_to(bindings, contexts, typed, j) == head + rest);
        if ix < j && binding_full_match(bindings[ix as int], contexts, typed) {
            if ix == j - 1 {
                assert((head + rest)[0] == ix);
            } else {
                let w = choose|w: int| 0 <= w < rest.len() && rest[w] == ix;
                assert((head + rest)[head.len() + w] == ix);
            }
        } else {
            if spec_matched_to(bindings, contexts, typed, j).contains(ix) {
                let w = choose|w: int|
                    0 <= w < (head + rest).len() && (head + rest)[w] == ix;
                if w < head.len() {
                    assert(ix == j - 1 && binding_full_match(bindings[ix as int], contexts, typed));
                } else {
                    assert(rest[w - head.len()] == ix);
                    assert(rest.contains(ix));
                }
            }
        }
    }
}

/// The keystroke-matching behavior of a two-stroke binding. With a
/// binding of keystrokes `k1 k2` whose context applies, no binding
/// extending `k1 k2` further, and no binding firing on `k1` alone:
/// typing `k1` leaves the matcher pending; typing `k2` then resolves
/// (nothing is pending any more) and fires the binding; while flushing
/// `k1` on a timeout replays it with nothing to fire, so it falls
/// through to the raw key listeners.
pub proof fn lemma_two_stroke_matching(
    bindings: Seq<KeyBinding>,
    contexts: Seq<Seq<char>>,
    b: usize,
    k1: Keystroke,
    k2: Keystroke,
)
    requires
        b < bindings.len() <= usize::MAX,
        bindings[b as int].keystrokes@.len() == 2,
        ks_eq(bindings[b as int].keystrokes@[0], k1),
        ks_eq(bindings[b as int].keystrokes@[1], k2),
        context_ok(bindings[b as int], contexts),
        forall|i: int|
            0 <= i < bindings.len() ==> !binding_pending_match(
                #[trigger] bindings[i],
                contexts,
                seq![k1, k2],
            ),
        forall|i: int|
            0 <= i < bindings.len() ==> !binding_full_match(
                #[trigger] bindings[i],
                contexts,
                seq![k1],
            ),
    ensures
        spec_pending_possible(bindings, contexts, seq![k1]),
        !spec_pending_possible(bindings, contexts, seq![k1, k2]),
        spec_matched(bindings, contexts, seq![k1, k2]).contains(b),
        spec_matched(bindings, contexts, seq![k1]).len() == 0,
{
    assert(binding_pending_match(bindings[b as int], contexts, seq![k1]));
    assert(binding_full_match(bindings[b as int], contexts, seq![k1, k2]));
    lemma_matched_characterization(
        bindings,
        contexts,
        seq![k1, k2],
        bindings.len() as int,
        b,
    );
    lemma_matched_none(bindings, contexts, seq![k1], bindings.len() as int);
}

/// With no binding firing on the typed sequence, nothing is reported.
pub proof fn lemma_matched_none(
    bindings: Seq<KeyBinding>,
    contexts: Seq<Seq<char>>,
    typed: Seq<Keystroke>,
    j: int,
)
    requires
        j <= bindings.len(),
        forall|i: int|
            0 <= i < bindings.len() ==> !binding_full_match(#[trigger] bindings[i], contexts, typed),
    ensures
        spec_matched_to(bindings, contexts, typed, j).len() == 0,
    decreases j,
{
    if j <= 0 {
    } else {
        lemma_matched_none(bindings, contexts, typed, j - 1);
    }
}

/// Matching only looks at keys and modifiers, so two keystroke sequences
/// equal under [`ks_eq`] fire the same bindings.
pub proof fn lemma_matched_respects_ks_eq(
    bindings: Seq<KeyBinding>,
    contexts: Seq<Seq<char>>,
    a: Seq<Keystroke>,
    b: Seq<Keystroke>,
    j: int,
)
    requires
        a.len() == b.len(),
        forall|i: int| 0 <= i < a.len() ==> ks_eq(#[trigger] a[i], b[i]),
    ensures
        spec_matched_to(bindings, contexts, a, j) == spec_matched_to(bindings, contexts, b, j),
    decreases j,
{
    if j <= 0 || j > bindings.len() {
    } else {
        lemma_matched_respects_ks_eq(bindings, contexts, a, b, j - 1);
        assert(binding_full_match(bindings[j - 1], contexts, a) == binding_full_match(
            bindings[j - 1],
            contexts,
            b,
        ));
    }
}

} // verus!
