//! Reference-counted keyboard-focus identifiers.
//!
//! A [`FocusRegistry`] owns a slot table mapping each issued focus id to
//! its strong-reference count. A [`FocusHandle`] is a strong reference:
//! creating or cloning one increments the count, dropping one decrements
//! it. A [`WeakFocusHandle`] observes without retaining: upgrading it
//! succeeds exactly while the count is positive. An id whose count has
//! reached zero is released: no new strong handle can be obtained for it.

use vstd::prelude::*;

verus! {

/// Ceiling on the number of ids one registry may issue; comfortably below
/// the slot table's own capacity so that issuing can never abort.
pub const FOCUS_ID_CAP: usize = 0xffff_ff00;

/// The slot table a registry owns: a generational arena of reference
/// counts, each slot addressed by a 64-bit packed key.
#[verifier::external_body]
pub struct CountSlots {
    inner: slotmap::SlotMap<slotmap::DefaultKey, usize>,
}

/// The contents of a slot table of reference counts: the map from each
/// live key (in its 64-bit packed form) to the count stored under it.
pub uninterp spec fn slot_counts(m: CountSlots) -> Map<u64, usize>;

/// Relies on slotmap::SlotMap::new: a freshly built slot map holds no keys.
#[verifier::external_body]
fn new_slots() -> (r: CountSlots)
    ensures
        (slot_counts(r) == Map::<u64, usize>::empty()),
{
    CountSlots { inner: slotmap::SlotMap::new() }
}

/// Relies on slotmap::SlotMap::insert: the returned key is distinct from
/// every key live in the map, and the value is stored under it; the packed
/// forms of distinct keys are distinct. Insertion panics only when the
/// table holds nearly 2^32 slots, which the precondition rules out.
#[verifier::external_body]
fn insert_slot(m: &mut CountSlots, v: usize) -> (id: u64)
    requires
        slot_counts(*old(m)).dom().finite(),
        slot_counts(*old(m)).dom().len() < FOCUS_ID_CAP,
    ensures
        !slot_counts(*old(m)).contains_key(id),
        slot_counts(*final(m)) == slot_counts(*old(m)).insert(id, v),
{
    let key = m.inner.insert(v);
    slotmap::Key::data(&key).as_ffi()
}

/// Relies on slotmap::SlotMap::get and slotmap::KeyData::from_ffi: for a
/// packed form obtained from a key live in this map, unpacking and looking
/// it up yields the value stored under that key.
#[verifier::external_body]
fn read_slot(m: &CountSlots, id: u64) -> (v: usize)
    requires
        slot_counts(*m).contains_key(id),
    ensures
        v == slot_counts(*m)[id],
{
    *m.inner.get(slotmap::KeyData::from_ffi(id).into()).unwrap()
}

/// Relies on slotmap::SlotMap::get_mut and slotmap::KeyData::from_ffi: for
/// a packed form obtained from a key live in this map, unpacking and
/// looking it up yields the slot for that key, and writing through it
/// replaces the stored value and nothing else.
#[verifier::external_body]
fn write_slot(m: &mut CountSlots, id: u64, v: usize)
    requires
        slot_counts(*old(m)).contains_key(id),
    ensures
        slot_counts(*final(m)) == slot_counts(*old(m)).insert(id, v),
{
    *m.inner.get_mut(slotmap::KeyData::from_ffi(id).into()).unwrap() = v;
}

/// A unique identifier for a focusable region of a window.
#[derive(Clone, Copy, Debug, PartialEq, Eq, Hash, Structural)]
pub struct FocusId {
    /// The packed slot-table key under which the registry tracks this id.
    pub raw: u64,
}

/// A strong reference to a focus id. Holding one keeps the id alive; the
/// registry counts how many exist. Deliberately neither `Clone` nor
/// `Copy`: duplicating goes through [`FocusRegistry::clone_handle`] and
/// disposal through [`FocusRegistry::drop_handle`], so the count tracks
/// the handles in circulation.
#[derive(Debug)]
pub struct FocusHandle {
    /// The id this handle retains.
    pub id: FocusId,
}

impl FocusHandle {
    /// Converts this handle into a weak one, which does not keep the id
    /// alive.
    pub fn downgrade(&self) -> (r: WeakFocusHandle)
        ensures
            r.id == self.id,
    {
        WeakFocusHandle { id: self.id }
    }
}

/// A weak reference to a focus id: observes it without keeping it alive.
#[derive(Clone, Copy, Debug, PartialEq, Eq, Structural)]
pub struct WeakFocusHandle {
    /// The id this handle observes.
    pub id: FocusId,
}

/// One step a user of the registry can take with a strong handle on an
/// id: duplicate one, or let one go.
#[derive(Clone, Copy, Debug, PartialEq, Eq, Structural)]
pub enum HandleOp {
    /// Clone a strong handle of the id.
    Dup(u64),
    /// Drop a strong handle of the id.
    Release(u64),
}

/// The reference counts after one handle operation. A duplicate is only
/// counted while the id is live (its count positive) and the count has
/// room to grow; a release only while the count is positive.
pub open spec fn apply_handle_op(m: Map<u64, usize>, op: HandleOp) -> Map<u64, usize> {
    match op {
        HandleOp::Dup(id) => if m.contains_key(id) && 0 < m[id] < usize::MAX {
            m.insert(id, (m[id] + 1) as usize)
        } else {
            m
        },
        HandleOp::Release(id) => if m.contains_key(id) && m[id] > 0 {
            m.insert(id, (m[id] - 1) as usize)
        } else {
            m
        },
    }
}

/// The reference counts after a sequence of handle operations.
pub open spec fn apply_handle_ops(m: Map<u64, usize>, ops: Seq<HandleOp>) -> Map<u64, usize>
    decreases ops.len(),
{
    if ops.len() == 0 {
        m
    } else {
        apply_handle_ops(apply_handle_op(m, ops[0]), ops.skip(1))
    }
}

/// Whether each operation in the sequence is taken in a state where it
/// counts: duplicates only of live ids with room to grow, releases only
/// of ids with a positive count.
pub open spec fn handle_ops_in_range(m: Map<u64, usize>, ops: Seq<HandleOp>) -> bool
    decreases ops.len(),
{
    if ops.len() == 0 {
        true
    } else {
        (match ops[0] {
            HandleOp::Dup(id) => m.contains_key(id) && 0 < m[id] < usize::MAX,
            HandleOp::Release(id) => m.contains_key(id) && m[id] > 0,
        }) && handle_ops_in_range(apply_handle_op(m, ops[0]), ops.skip(1))
    }
}

/// How many of the operations duplicate a handle of `id`.
pub open spec fn dups_of(ops: Seq<HandleOp>, id: u64) -> int
    decreases ops.len(),
{
    if ops.len() == 0 {
        0
    } else {
        (if ops[0] == HandleOp::Dup(id) {
            1int
        } else {
            0int
        }) + dups_of(ops.skip(1), id)
    }
}

/// How many of the operations release a handle of `id`.
pub open spec fn releases_of(ops: Seq<HandleOp>, id: u64) -> int
    decreases ops.len(),
{
    if ops.len() == 0 {
        0
    } else {
        (if ops[0] == HandleOp::Release(id) {
            1int
        } else {
            0int
        }) + releases_of(ops.skip(1), id)
    }
}

/// Whether upgrading a weak handle of `id` would yield a strong handle:
/// exactly while the strong count is positive.
pub open spec fn upgrade_succeeds(m: Map<u64, usize>, id: u64) -> bool {
    m.contains_key(id) && m[id] > 0
}

/// Whether the id is released, so the registry may reuse it: exactly when
/// no strong handle of it is left.
pub open spec fn id_released(m: Map<u64, usize>, id: u64) -> bool {
    m.contains_key(id) && m[id] == 0
}

/// The registry of focus ids for one window: a slot table holding, per
/// issued id, the number of strong handles alive.
pub struct FocusRegistry {
    slots: CountSlots,
    issued: usize,
}

impl FocusRegistry {
    /// The strong-handle count per issued id.
    pub closed spec fn counts(&self) -> Map<u64, usize> {
        slot_counts(self.slots)
    }

    /// How many ids this registry has issued.
    pub open spec fn len(&self) -> nat {
        self.counts().dom().len()
    }

    /// The registry's internal consistency: the set of issued ids is
    /// finite, matches the issued tally, and has room left.
    pub closed spec fn wf(&self) -> bool {
        &&& self.counts().dom().finite()
        &&& self.issued == self.len()
        &&& self.issued <= FOCUS_ID_CAP
    }

    /// Builds a registry that has issued no ids yet.
    pub fn new() -> (r: FocusRegistry)
        ensures
            r.wf(),
            r.counts() == Map::<u64, usize>::empty(),
    {
        let slots = new_slots();
        proof {
            assert(slot_counts(slots).dom() =~= Set::<u64>::empty());
        }
        FocusRegistry { slots, issued: 0 }
    }

    /// Allocates a fresh id with one strong handle on it.
    pub fn create(&mut self) -> (h: FocusHandle)
        requires
            old(self).wf(),
            old(self).len() < FOCUS_ID_CAP,
        ensures
            final(self).wf(),
            !old(self).counts().contains_key(h.id.raw),
            final(self).counts() == old(self).counts().insert(h.id.raw, 1usize),
            final(self).len() == old(self).len() + 1,
    {
        let raw = insert_slot(&mut self.slots, 1);
        self.issued = self.issued + 1;
        proof {
            assert(self.counts().dom() =~= old(self).counts().dom().insert(raw));
        }
        FocusHandle { id: FocusId { raw } }
    }

    /// The number of strong handles alive for an issued id.
    pub fn count(&self, id: FocusId) -> (r: usize)
        requires
            self.counts().contains_key(id.raw),
        ensures
            r == self.counts()[id.raw],
    {
        read_slot(&self.slots, id.raw)
    }

    /// Clones a strong handle: increments the count and returns a new
    /// strong reference to the same id, or nothing if the count had
    /// already reached zero (the use-after-free guard).
    pub fn clone_handle(&mut self, h: &FocusHandle) -> (r: Option<FocusHandle>)
        requires
            old(self).wf(),
            old(self).counts().contains_key(h.id.raw),
            old(self).counts()[h.id.raw] < usize::MAX,
        ensures
            final(self).wf(),
            final(self).counts() == apply_handle_op(old(self).counts(), HandleOp::Dup(h.id.raw)),
            r is Some <==> upgrade_succeeds(old(self).counts(), h.id.raw),
            r is Some ==> r->Some_0.id == h.id,
    {
        let current = read_slot(&self.slots, h.id.raw);
        if current == 0 {
            None
        } else {
            write_slot(&mut self.slots, h.id.raw, current + 1);
            proof {
                assert(self.counts().dom() =~= old(self).counts().dom());
            }
            Some(FocusHandle { id: h.id })
        }
    }

    /// Drops a strong handle: decrements its id's count.
    pub fn drop_handle(&mut self, h: FocusHandle)
        requires
            old(self).wf(),
            old(self).counts().contains_key(h.id.raw),
            old(self).counts()[h.id.raw] > 0,
        ensures
            final(self).wf(),
            final(self).counts() == apply_handle_op(old(self).counts(), HandleOp::Release(h.id.raw)),
    {
        let current = read_slot(&self.slots, h.id.raw);
        write_slot(&mut self.slots, h.id.raw, current - 1);
        proof {
            assert(self.counts().dom() =~= old(self).counts().dom());
        }
    }

    /// Attempts to upgrade a weak handle to a strong one: succeeds, and
    /// increments the count, exactly while the count is positive.
    pub fn upgrade(&mut self, w: &WeakFocusHandle) -> (r: Option<FocusHandle>)
        requires
            old(self).wf(),
            old(self).counts().contains_key(w.id.raw),
            old(self).counts()[w.id.raw] < usize::MAX,
        ensures
            final(self).wf(),
            final(self).counts() == apply_handle_op(old(self).counts(), HandleOp::Dup(w.id.raw)),
            r is Some <==> upgrade_succeeds(old(self).counts(), w.id.raw),
            r is Some ==> r->Some_0.id == w.id,
    {
        let current = read_slot(&self.slots, w.id.raw);
        if current == 0 {
            None
        } else {
            write_slot(&mut self.slots, w.id.raw, current + 1);
            proof {
                assert(self.counts().dom() =~= old(self).counts().dom());
            }
            Some(FocusHandle { id: w.id })
        }
    }
}

/// The reference-count invariant. For any sequence of clone/drop
/// operations on handles, each taken in range, the count of an id ends at
/// its starting value plus the clones of it minus the drops of it; the id
/// is released (reusable) exactly when that tally is zero, and upgrading
/// a weak handle of it succeeds exactly while the tally is positive.
pub proof fn lemma_refcount_invariant(m: Map<u64, usize>, ops: Seq<HandleOp>, id: u64)
    requires
        m.contains_key(id),
        handle_ops_in_range(m, ops),
    ensures
        apply_handle_ops(m, ops).contains_key(id),
        apply_handle_ops(m, ops)[id] == m[id] + dups_of(ops, id) - releases_of(ops, id),
        id_released(apply_handle_ops(m, ops), id) <==> m[id] + dups_of(ops, id) - releases_of(
            ops,
            id,
        ) == 0,
        upgrade_succeeds(apply_handle_ops(m, ops), id) <==> m[id] + dups_of(ops, id) - releases_of(
            ops,
            id,
        ) > 0,
    decreases ops.len(),
{
    if ops.len() == 0 {
    } else {
        let m1 = apply_handle_op(m, ops[0]);
        assert(m1.contains_key(id));
        lemma_refcount_invariant(m1, ops.skip(1), id);
    }
}

} // verus!
