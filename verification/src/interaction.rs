//! Interaction sensor tracker.
//!
//! Each interactable entity keeps the live list of overlapping interactor
//! entities, fed by collision begin/end notifications from the physics
//! collaborator.  A repeated collision-begin without an intervening end
//! appends a duplicate entry; this mirrors the tracker's map-free design
//! and is deliberate, since collision-end removes exactly one entry per
//! notification.  A "try interact" request scans the interactables in
//! registration order and resolves against the first one that currently
//! overlaps the requester — exactly one resolves whenever any overlaps.

use vstd::prelude::*;

verus! {

/// Raised toward the interactable entity that won a `try_interact` scan.
pub struct InteractionEvent {
    pub interactor: u64,
}

/// A request by an interactor entity to interact with whatever it overlaps.
pub struct TryInteractingEvent;

/// Tag for entities whose overlap is worth tracking.
pub struct Interactor;

/// The live list of overlapping interactor entities, in arrival order.
pub struct Interactable {
    interactors: Vec<u64>,
}

impl View for Interactable {
    type V = Seq<u64>;

    closed spec fn view(&self) -> Seq<u64> {
        self.interactors@
    }
}

impl Interactable {
    pub fn new() -> (r: Interactable)
        ensures
            r@ == Seq::<u64>::empty(),
    {
        Interactable { interactors: Vec::new() }
    }

    /// A copy of the current overlap list.
    pub fn interactors(&self) -> (r: Vec<u64>)
        ensures
            r@ == self@,
    {
        self.interactors.clone()
    }

    /// A collision-begin against an interactor appends it; anything else
    /// is ignored.  Duplicates are kept deliberately (see module doc).
    pub fn on_collision_start(&mut self, other: u64, other_is_interactor: bool)
        ensures
            other_is_interactor ==> final(self)@ == old(self)@.push(other),
            !other_is_interactor ==> final(self)@ == old(self)@,
    {
        if other_is_interactor {
            self.interactors.push(other);
        }
    }

    /// A collision-end against an interactor removes the first matching
    /// entry, if any.
    pub fn on_collision_end(&mut self, other: u64, other_is_interactor: bool)
        ensures
            !other_is_interactor || !old(self)@.contains(other) ==> final(self)@ == old(self)@,
            other_is_interactor && old(self)@.contains(other) ==> exists|i: int|
                {
                    &&& 0 <= i < old(self)@.len()
                    &&& old(self)@[i] == other
                    &&& (forall|k: int| 0 <= k < i ==> old(self)@[k] != other)
                    &&& final(self)@ == old(self)@.remove(i)
                },
    {
        if !other_is_interactor {
            return ;
        }
        let n = self.interactors.len();
        let mut i: usize = 0;
        while i < n
            invariant
                n == self.interactors.len(),
                *self == *old(self),
                other_is_interactor,
                i <= n,
                forall|k: int| 0 <= k < i ==> self@[k] != other,
            decreases n - i,
        {
            if self.interactors[i] == other {
                proof {
                    assert(0 <= i as int && (i as int) < old(self)@.len());
                    assert(old(self)@[i as int] == other);
                    assert(old(self)@.contains(other));
                }
                self.interactors.remove(i);
                proof {
                    assert(self@ == old(self)@.remove(i as int));
                }
                return ;
            }
            i += 1;
        }
    }
}

impl Default for Interactable {
    fn default() -> (r: Interactable)
        ensures
            r@ == Seq::<u64>::empty(),
    {
        Interactable { interactors: Vec::new() }
    }
}

/// Whether the interactable at index `i` is the first in the registry that
/// currently overlaps `by`.
pub open spec fn first_overlapping(
    registry: Seq<(u64, Interactable)>,
    by: u64,
    i: int,
) -> bool {
    &&& 0 <= i < registry.len()
    &&& registry[i].1@.contains(by)
    &&& forall|k: int| 0 <= k < i ==> !(#[trigger] registry[k]).1@.contains(by)
}

/// Resolve a "try interact" request: scan the interactables in
/// registration order and raise an event at the first one overlapping
/// `by`; at most one interaction resolves per request.
pub fn try_interact(registry: &Vec<(u64, Interactable)>, by: u64) -> (r: Option<
    (u64, InteractionEvent),
>)
    ensures
        match r {
            Some((target, ev)) => {
                &&& ev.interactor == by
                &&& exists|i: int|
                    #[trigger] first_overlapping(registry@, by, i) && registry@[i].0 == target
            },
            None => forall|i: int|
                0 <= i < registry@.len() ==> !(#[trigger] registry@[i]).1@.contains(by),
        },
{
    let n = registry.len();
    let mut i: usize = 0;
    while i < n
        invariant
            n == registry.len(),
            i <= n,
            forall|k: int| 0 <= k < i ==> !(#[trigger] registry@[k]).1@.contains(by),
        decreases n - i,
    {
        let entry = &registry[i];
        if contains_id(&entry.1.interactors, by) {
            proof {
                assert(first_overlapping(registry@, by, i as int));
            }
            return Some((entry.0, InteractionEvent { interactor: by }));
        }
        i += 1;
    }
    None
}

/// Interaction is exclusive: a single scan has a single winner — two
/// indices that both resolve first are the same index.
pub proof fn lemma_interaction_exclusive(
    registry: Seq<(u64, Interactable)>,
    by: u64,
    i1: int,
    i2: int,
)
    requires
        first_overlapping(registry, by, i1),
        first_overlapping(registry, by, i2),
    ensures
        i1 == i2,
{
    if i1 < i2 {
        assert(!registry[i1].1@.contains(by));
    } else if i2 < i1 {
        assert(!registry[i2].1@.contains(by));
    }
}

fn contains_id(v: &Vec<u64>, x: u64) -> (b: bool)
    ensures
        b == v@.contains(x),
{
    let n = v.len();
    let mut i: usize = 0;
    while i < n
        invariant
            n == v.len(),
            i <= n,
            forall|k: int| 0 <= k < i ==> v@[k] != x,
        decreases n - i,
    {
        if v[i] == x {
            return true;
        }
        i += 1;
    }
    false
}

} // verus!
