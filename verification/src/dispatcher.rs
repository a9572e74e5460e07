//! The invalidation dispatcher: drains a batch of change notifications,
//! maps each to the owning captured surface, and coalesces them so that
//! every distinct surface is refreshed exactly once per batch.
//!
//! The event loop blocks for one notification, then drains all further
//! queued ones into the same batch; this module processes the batch. Every
//! notification is acknowledged (the server stops delivering otherwise),
//! and duplicates are collapsed by set membership, not by count.

use vstd::prelude::*;

use crate::surface::CapturedSurface;

verus! {

/// Whether `i` is the index of the surface owning invalidation handle
/// `handle`: the first surface registered under that handle.
pub open spec fn resolves_to(surfaces: Seq<CapturedSurface>, handle: u32, i: int) -> bool {
    &&& 0 <= i < surfaces.len()
    &&& surfaces[i].invalidation_handle == Some(handle)
    &&& forall|j: int| 0 <= j < i ==> surfaces[j].invalidation_handle != Some(handle)
}

/// The owning index is unique for a given handle.
pub proof fn lemma_resolves_to_unique(surfaces: Seq<CapturedSurface>, handle: u32, i: int, j: int)
    requires
        resolves_to(surfaces, handle, i),
        resolves_to(surfaces, handle, j),
    ensures
        i == j,
{
}

/// Find the surface owning an invalidation handle: the first one whose
/// registration matches, or none.
pub fn resolve_surface(surfaces: &Vec<CapturedSurface>, handle: u32) -> (r: Option<usize>)
    ensures
        match r {
            Some(i) => resolves_to(surfaces@, handle, i as int),
            None => forall|j: int|
                0 <= j < surfaces@.len() ==> surfaces@[j].invalidation_handle != Some(handle),
        },
{
    let n = surfaces.len();
    for i in 0..n
        invariant
            n == surfaces@.len(),
            forall|j: int| 0 <= j < i ==> surfaces@[j].invalidation_handle != Some(handle),
    {
        if let Some(h) = surfaces[i].invalidation_handle {
            if h == handle {
                return Some(i);
            }
        }
    }
    None
}

/// The pending set of surfaces needing a refresh, deduplicated. The
/// dispatcher is idle while the set is empty and draining while
/// notifications are being added; taking the set ends the iteration.
pub struct InvalidationDispatcher {
    /// Indices of surfaces with at least one notification this batch, each
    /// at most once, in first-notification order.
    pub pending: Vec<usize>,
}

impl InvalidationDispatcher {
    /// The pending set never holds an index twice.
    pub open spec fn wf(self) -> bool {
        self.pending@.no_duplicates()
    }

    /// An idle dispatcher with nothing pending.
    pub fn new() -> (d: InvalidationDispatcher)
        ensures
            d.wf(),
            d.pending@ =~= Seq::<usize>::empty(),
    {
        InvalidationDispatcher { pending: Vec::new() }
    }

    /// Record that a surface needs a refresh. A surface already pending is
    /// not added again: repeats within a batch collapse to one entry.
    pub fn note(&mut self, surface_index: usize)
        requires
            old(self).wf(),
        ensures
            final(self).wf(),
            old(self).pending@.contains(surface_index) ==> final(self).pending@ == old(
                self,
            ).pending@,
            !old(self).pending@.contains(surface_index) ==> final(self).pending@ == old(
                self,
            ).pending@.push(surface_index),
            forall|i: usize|
                final(self).pending@.contains(i) <==> (old(self).pending@.contains(i) || i
                    == surface_index),
    {
        let n = self.pending.len();
        for k in 0..n
            invariant
                *self == *old(self),
                old(self).wf(),
                n == self.pending@.len(),
                forall|j: int| 0 <= j < k ==> self.pending@[j] != surface_index,
        {
            if self.pending[k] == surface_index {
                assert(self.pending@.contains(surface_index));
                return ;
            }
        }
        assert(!self.pending@.contains(surface_index));
        self.pending.push(surface_index);
        proof {
            assert forall|i: usize|
                self.pending@.contains(i) <==> (old(self).pending@.contains(i) || i
                    == surface_index) by {
                if self.pending@.contains(i) {
                    let w = choose|w: int| 0 <= w < self.pending@.len() && self.pending@[w] == i;
                    if w < old(self).pending@.len() {
                        assert(old(self).pending@[w] == i);
                    }
                }
                if old(self).pending@.contains(i) {
                    let w = choose|w: int|
                        0 <= w < old(self).pending@.len() && old(self).pending@[w] == i;
                    assert(self.pending@[w] == i);
                }
                if i == surface_index {
                    assert(self.pending@[self.pending@.len() - 1] == i);
                }
            }
        }
    }

    /// End the iteration: hand out the deduplicated set of surfaces to
    /// refresh and re-composite, and return to idle.
    pub fn take_pending(&mut self) -> (r: Vec<usize>)
        requires
            old(self).wf(),
        ensures
            final(self).wf(),
            r@ == old(self).pending@,
            r@.no_duplicates(),
            final(self).pending@ =~= Seq::<usize>::empty(),
    {
        let mut taken: Vec<usize> = Vec::new();
        core::mem::swap(&mut taken, &mut self.pending);
        taken
    }
}

/// The result of processing one drained batch of notifications.
pub struct BatchResult {
    /// Every notification's handle, to be acknowledged so the server keeps
    /// delivering.
    pub acks: Vec<u32>,
    /// The distinct surfaces to refresh once each and re-composite — only
    /// their rectangles, never the whole canvas.
    pub refresh: Vec<usize>,
}

/// Process a drained batch: resolve each notification to its owning
/// surface, acknowledge every notification, and collapse repeats so that
/// each distinct surface appears exactly once in the refresh set.
pub fn drain_batch(surfaces: &Vec<CapturedSurface>, events: &Vec<u32>) -> (r: BatchResult)
    ensures
        r.acks@ == events@,
        r.refresh@.no_duplicates(),
        forall|i: usize|
            r.refresh@.contains(i) <==> exists|k: int|
                0 <= k < events@.len() && resolves_to(surfaces@, events@[k], i as int),
        r.refresh@.len() <= events@.len(),
{
    let mut dispatcher = InvalidationDispatcher::new();
    let mut acks: Vec<u32> = Vec::new();
    let n = events.len();
    for k in 0..n
        invariant
            n == events@.len(),
            acks@ == events@.take(k as int),
            dispatcher.wf(),
            dispatcher.pending@.len() <= k,
            forall|i: usize|
                dispatcher.pending@.contains(i) <==> exists|e: int|
                    0 <= e < k && resolves_to(surfaces@, events@[e], i as int),
    {
        let handle = events[k];
        if let Some(idx) = resolve_surface(surfaces, handle) {
            dispatcher.note(idx);
        }
        acks.push(handle);
        proof {
            assert(acks@ =~= events@.take(k as int + 1));
            assert forall|i: usize|
                dispatcher.pending@.contains(i) <==> exists|e: int|
                    0 <= e < k + 1 && resolves_to(surfaces@, events@[e], i as int) by {
                if dispatcher.pending@.contains(i) {
                    if exists|e: int| 0 <= e < k && resolves_to(surfaces@, events@[e], i as int) {
                    } else {
                        assert(resolves_to(surfaces@, events@[k as int], i as int));
                    }
                }
            }
        }
    }
    proof {
        assert(acks@ =~= events@);
    }
    let refresh = dispatcher.take_pending();
    BatchResult { acks, refresh }
}

/// Law: any number of notifications that all belong to one surface within
/// one batch collapse to exactly one refresh of that surface.
pub proof fn lemma_batch_coalesces_one_surface(
    surfaces: Seq<CapturedSurface>,
    events: Seq<u32>,
    refresh: Seq<usize>,
    target: usize,
)
    requires
        events.len() > 0,
        forall|k: int| 0 <= k < events.len() ==> resolves_to(surfaces, events[k], target as int),
        refresh.no_duplicates(),
        forall|i: usize|
            refresh.contains(i) <==> exists|k: int|
                0 <= k < events.len() && resolves_to(surfaces, events[k], i as int),
    ensures
        refresh.len() == 1,
        refresh[0] == target,
{
    assert(resolves_to(surfaces, events[0], target as int));
    assert(refresh.contains(target));
    assert forall|w: int| 0 <= w < refresh.len() implies refresh[w] == target by {
        assert(refresh.contains(refresh[w]));
        let k = choose|k: int|
            0 <= k < events.len() && resolves_to(surfaces, events[k], refresh[w] as int);
        lemma_resolves_to_unique(surfaces, events[k], refresh[w] as int, target as int);
    }
    if refresh.len() > 1 {
        assert(refresh[0] == target && refresh[1] == target);
        assert(false);
    }
    let w = choose|w: int| 0 <= w < refresh.len() && refresh[w] == target;
    assert(refresh.len() == 1);
}

} // verus!
