//! Bounded navigation history.
//!
//! Three capacity-bounded deques (backward, forward, closed) of
//! navigation entries, each tagged with a logical clock value and the
//! item it belongs to. Recording is mode-gated: while history is being
//! replayed (going back or forward) or disabled, entries land on the
//! matching stack or nowhere, so replaying never feeds back into itself.
//! When a deque is full its oldest entry is evicted.

use std::collections::HashMap;
use std::collections::VecDeque;

use vstd::prelude::*;

verus! {

broadcast use vstd::std_specs::hash::group_hash_axioms;

/// The most entries a navigation deque keeps; pushing onto a full deque
/// evicts the oldest entry.
pub const MAX_NAVIGATION_HISTORY_LEN: usize = 1024;

/// What recording a navigation step currently means.
#[derive(Clone, Copy, Debug, PartialEq, Eq, Structural)]
pub enum NavigationMode {
    /// Ordinary editing: steps push onto the backward stack and clear
    /// the forward stack.
    Normal,
    /// Replaying history backward: steps push onto the forward stack.
    GoingBack,
    /// Replaying history forward: steps push onto the backward stack.
    GoingForward,
    /// An item is being closed: steps push onto the closed stack.
    ClosingItem,
    /// Reopening a closed item: steps push onto the backward stack and
    /// clear the forward stack.
    ReopeningClosedItem,
    /// Nothing is recorded.
    Disabled,
}

impl Default for NavigationMode {
    /// Ordinary editing.
    fn default() -> (r: Self)
        ensures
            r == NavigationMode::Normal,
    {
        NavigationMode::Normal
    }
}

/// One step of navigation history: the item it happened in, the
/// navigation data the item stored, a logical clock value, and whether
/// the item was a preview tab.
#[derive(Clone, Copy, Debug, PartialEq, Eq, Structural)]
pub struct NavigationEntry {
    /// The item the step belongs to.
    pub item: u64,
    /// The item's own navigation data, if it stored any.
    pub data: Option<u64>,
    /// The logical clock value of the step.
    pub timestamp: usize,
    /// Whether the item was a preview tab at the time.
    pub is_preview: bool,
}

/// The paths remembered for a closed item, so its history entries can
/// still be listed.
#[derive(Debug)]
pub struct NavPaths {
    /// The project-relative path of the item.
    pub project_path: String,
    /// The absolute path, if known.
    pub abs_path: Option<String>,
}

/// The entries of `s` from position `i` on that do not belong to `item`.
pub open spec fn entries_without(s: Seq<NavigationEntry>, item: u64, i: int) -> Seq<
    NavigationEntry,
>
    decreases s.len() - i,
{
    if i < 0 || i >= s.len() {
        Seq::empty()
    } else {
        let rest = entries_without(s, item, i + 1);
        if s[i].item != item {
            seq![s[i]] + rest
        } else {
            rest
        }
    }
}

/// Navigation history for one pane: the three bounded deques, the
/// remembered paths of closed items, and the logical clock.
#[derive(Debug)]
pub struct NavHistory {
    /// What recording currently means.
    pub mode: NavigationMode,
    /// Steps that going back will replay, oldest first.
    pub backward_stack: VecDeque<NavigationEntry>,
    /// Steps that going forward will replay, oldest first.
    pub forward_stack: VecDeque<NavigationEntry>,
    /// Steps recorded when items were closed, oldest first.
    pub closed_stack: VecDeque<NavigationEntry>,
    /// The paths remembered per closed item.
    pub paths_by_item: HashMap<u64, NavPaths>,
    /// The next logical clock value.
    pub next_timestamp: usize,
}

impl NavHistory {
    /// An empty history in normal mode.
    pub fn new() -> (r: NavHistory)
        ensures
            r.mode == NavigationMode::Normal,
            r.backward_stack@ == Seq::<NavigationEntry>::empty(),
            r.forward_stack@ == Seq::<NavigationEntry>::empty(),
            r.closed_stack@ == Seq::<NavigationEntry>::empty(),
            (r.paths_by_item@ == Map::<u64, NavPaths>::empty()),
            r.next_timestamp == 0,
    {
        NavHistory {
            mode: NavigationMode::Normal,
            backward_stack: VecDeque::new(),
            forward_stack: VecDeque::new(),
            closed_stack: VecDeque::new(),
            paths_by_item: HashMap::new(),
            next_timestamp: 0,
        }
    }

    /// Sets what recording means.
    pub fn set_mode(&mut self, mode: NavigationMode)
        ensures
            *final(self) == (NavHistory { mode, ..*old(self) }),
    {
        self.mode = mode;
    }

    /// What recording currently means.
    pub fn mode(&self) -> (r: NavigationMode)
        ensures
            r == self.mode,
    {
        self.mode
    }

    /// Stops recording.
    pub fn disable(&mut self)
        ensures
            *final(self) == (NavHistory { mode: NavigationMode::Disabled, ..*old(self) }),
    {
        self.mode = NavigationMode::Disabled;
    }

    /// Resumes ordinary recording.
    pub fn enable(&mut self)
        ensures
            *final(self) == (NavHistory { mode: NavigationMode::Normal, ..*old(self) }),
    {
        self.mode = NavigationMode::Normal;
    }

    /// Takes the newest entry of the stack the given replay mode reads:
    /// backward when going back, forward when going forward, closed when
    /// reopening. Other modes read nothing.
    pub fn pop(&mut self, mode: NavigationMode) -> (r: Option<NavigationEntry>)
        ensures
            match mode {
                NavigationMode::GoingBack => {
                    &&& *final(self) == (NavHistory {
                        backward_stack: final(self).backward_stack,
                        ..*old(self)
                    })
                    &&& r == (if old(self).backward_stack@.len() == 0 {
                        Option::<NavigationEntry>::None
                    } else {
                        Option::Some(old(self).backward_stack@.last())
                    })
                    &&& final(self).backward_stack@ == drop_newest(old(self).backward_stack@)
                },
                NavigationMode::GoingForward => {
                    &&& *final(self) == (NavHistory {
                        forward_stack: final(self).forward_stack,
                        ..*old(self)
                    })
                    &&& r == (if old(self).forward_stack@.len() == 0 {
                        Option::<NavigationEntry>::None
                    } else {
                        Option::Some(old(self).forward_stack@.last())
                    })
                    &&& final(self).forward_stack@ == drop_newest(old(self).forward_stack@)
                },
                NavigationMode::ReopeningClosedItem => {
                    &&& *final(self) == (NavHistory {
                        closed_stack: final(self).closed_stack,
                        ..*old(self)
                    })
                    &&& r == (if old(self).closed_stack@.len() == 0 {
                        Option::<NavigationEntry>::None
                    } else {
                        Option::Some(old(self).closed_stack@.last())
                    })
                    &&& final(self).closed_stack@ == drop_newest(old(self).closed_stack@)
                },
                _ => r is None && *final(self) == *old(self),
            },
    {
        match mode {
            NavigationMode::GoingBack => self.backward_stack.pop_back(),
            NavigationMode::GoingForward => self.forward_stack.pop_back(),
            NavigationMode::ReopeningClosedItem => self.closed_stack.pop_back(),
            _ => None,
        }
    }

    /// Records one navigation step for an item, onto the stack the
    /// current mode selects; a full stack evicts its oldest entry, and
    /// ordinary (or reopening) steps clear the forward stack. Nothing is
    /// recorded while disabled.
    pub fn push(&mut self, data: Option<u64>, item: u64, is_preview: bool)
        requires
            old(self).next_timestamp < usize::MAX,
        ensures
            ({
                let entry = (NavigationEntry {
                    item,
                    data,
                    timestamp: old(self).next_timestamp,
                    is_preview,
                });
                match old(self).mode {
                    NavigationMode::Disabled => *final(self) == *old(self),
                    NavigationMode::Normal | NavigationMode::ReopeningClosedItem => {
                        &&& *final(self) == (NavHistory {
                            backward_stack: final(self).backward_stack,
                            forward_stack: final(self).forward_stack,
                            next_timestamp: (old(self).next_timestamp + 1) as usize,
                            ..*old(self)
                        })
                        &&& final(self).backward_stack@ == bounded_push(
                            old(self).backward_stack@,
                            entry,
                        )
                        &&& final(self).forward_stack@ == Seq::<NavigationEntry>::empty()
                    },
                    NavigationMode::GoingBack => {
                        &&& *final(self) == (NavHistory {
                            forward_stack: final(self).forward_stack,
                            next_timestamp: (old(self).next_timestamp + 1) as usize,
                            ..*old(self)
                        })
                        &&& final(self).forward_stack@ == bounded_push(
                            old(self).forward_stack@,
                            entry,
                        )
                    },
                    NavigationMode::GoingForward => {
                        &&& *final(self) == (NavHistory {
                            backward_stack: final(self).backward_stack,
                            next_timestamp: (old(self).next_timestamp + 1) as usize,
                            ..*old(self)
                        })
                        &&& final(self).backward_stack@ == bounded_push(
                            old(self).backward_stack@,
                            entry,
                        )
                    },
                    NavigationMode::ClosingItem => {
                        &&& *final(self) == (NavHistory {
                            closed_stack: final(self).closed_stack,
                            next_timestamp: (old(self).next_timestamp + 1) as usize,
                            ..*old(self)
                        })
                        &&& final(self).closed_stack@ == bounded_push(
                            old(self).closed_stack@,
                            entry,
                        )
                    },
                }
            }),
    {
        match self.mode {
            NavigationMode::Disabled => {},
            NavigationMode::Normal | NavigationMode::ReopeningClosedItem => {
                if self.backward_stack.len() >= MAX_NAVIGATION_HISTORY_LEN {
                    self.backward_stack.pop_front();
                }
                let entry = NavigationEntry {
                    item,
                    data,
                    timestamp: self.next_timestamp,
                    is_preview,
                };
                self.backward_stack.push_back(entry);
                self.next_timestamp = self.next_timestamp + 1;
                self.forward_stack.clear();
            },
            NavigationMode::GoingBack => {
                if self.forward_stack.len() >= MAX_NAVIGATION_HISTORY_LEN {
                    self.forward_stack.pop_front();
                }
                let entry = NavigationEntry {
                    item,
                    data,
                    timestamp: self.next_timestamp,
                    is_preview,
                };
                self.forward_stack.push_back(entry);
                self.next_timestamp = self.next_timestamp + 1;
            },
            NavigationMode::GoingForward => {
                if self.backward_stack.len() >= MAX_NAVIGATION_HISTORY_LEN {
                    self.backward_stack.pop_front();
                }
                let entry = NavigationEntry {
                    item,
                    data,
                    timestamp: self.next_timestamp,
                    is_preview,
                };
                self.backward_stack.push_back(entry);
                self.next_timestamp = self.next_timestamp + 1;
            },
            NavigationMode::ClosingItem => {
                if self.closed_stack.len() >= MAX_NAVIGATION_HISTORY_LEN {
                    self.closed_stack.pop_front();
                }
                let entry = NavigationEntry {
                    item,
                    data,
                    timestamp: self.next_timestamp,
                    is_preview,
                };
                self.closed_stack.push_back(entry);
                self.next_timestamp = self.next_timestamp + 1;
            },
        }
    }

    /// Forgets an item: its remembered paths and every entry of it on
    /// any stack.
    pub fn remove_item(&mut self, item_id: u64)
        ensures
            *final(self) == (NavHistory {
                backward_stack: final(self).backward_stack,
                forward_stack: final(self).forward_stack,
                closed_stack: final(self).closed_stack,
                paths_by_item: final(self).paths_by_item,
                ..*old(self)
            }),
            final(self).paths_by_item@ == old(self).paths_by_item@.remove(item_id),
            final(self).backward_stack@ == entries_without(old(self).backward_stack@, item_id, 0),
            final(self).forward_stack@ == entries_without(old(self).forward_stack@, item_id, 0),
            final(self).closed_stack@ == entries_without(old(self).closed_stack@, item_id, 0),
    {
        self.paths_by_item.remove(&item_id);
        let backward = without_item(&self.backward_stack, item_id, 0);
        self.backward_stack = backward;
        let forward = without_item(&self.forward_stack, item_id, 0);
        self.forward_stack = forward;
        let closed = without_item(&self.closed_stack, item_id, 0);
        self.closed_stack = closed;
    }

    /// Remembers the paths of an item, so its entries can still be
    /// listed after it closes.
    pub fn set_path_for_item(&mut self, item_id: u64, paths: NavPaths)
        ensures
            *final(self) == (NavHistory { paths_by_item: final(self).paths_by_item, ..*old(self) }),
            final(self).paths_by_item@ == old(self).paths_by_item@.insert(item_id, paths),
    {
        self.paths_by_item.insert(item_id, paths);
    }

    /// The paths remembered for an item, if any.
    pub fn path_for_item(&self, item_id: u64) -> (r: Option<NavPaths>)
        ensures
            r is Some <==> self.paths_by_item@.contains_key(item_id),
            r is Some ==> r->Some_0.project_path@
                == self.paths_by_item@[item_id].project_path@ && (r->Some_0.abs_path is Some
                <==> self.paths_by_item@[item_id].abs_path is Some) && (
            self.paths_by_item@[item_id].abs_path is Some ==> r->Some_0.abs_path->Some_0@
                == self.paths_by_item@[item_id].abs_path->Some_0@),
    {
        match self.paths_by_item.get(&item_id) {
            Option::Some(p) => Some(
                NavPaths {
                    project_path: p.project_path.clone(),
                    abs_path: match p.abs_path.as_ref() {
                        Option::Some(s) => Some(s.clone()),
                        Option::None => None,
                    },
                },
            ),
            Option::None => None,
        }
    }
}

/// A stack with its newest entry taken, or the empty stack as it was.
pub open spec fn drop_newest(s: Seq<NavigationEntry>) -> Seq<NavigationEntry> {
    if s.len() == 0 {
        s
    } else {
        s.drop_last()
    }
}

/// A push onto a bounded stack: a full stack first evicts its oldest
/// entry.
pub open spec fn bounded_push(s: Seq<NavigationEntry>, e: NavigationEntry) -> Seq<
    NavigationEntry,
> {
    if s.len() >= MAX_NAVIGATION_HISTORY_LEN {
        s.skip(1).push(e)
    } else {
        s.push(e)
    }
}

/// The entries of the deque from position `i` on that do not belong to
/// the item.
fn without_item(dq: &VecDeque<NavigationEntry>, item: u64, i: usize) -> (r: VecDeque<
    NavigationEntry,
>)
    requires
        i <= dq@.len(),
    ensures
        r@ == entries_without(dq@, item, i as int),
    decreases dq@.len() - i,
{
    if i == dq.len() {
        VecDeque::new()
    } else {
        let mut rest = without_item(dq, item, i + 1);
        let e = dq[i];
        if e.item != item {
            rest.push_front(e);
            proof {
                assert(rest@ =~= seq![dq@[i as int]] + entries_without(dq@, item, i + 1));
            }
        }
        rest
    }
}

} // verus!
