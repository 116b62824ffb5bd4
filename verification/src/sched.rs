//! The scheduler's queue for one deferred callback, as far as the pipelines
//! rely on it: it holds one request at a time.
//!
//! A request made while one is pending is refused and changes nothing. The
//! slot is freed when the callback is dispatched, before its body runs, so a
//! request made from then on is accepted again.

use vstd::prelude::*;

verus! {

/// When a callback asked for at `now` with a delay of `delay` falls due. The
/// scheduler's time does not wrap: it holds at its maximum.
pub open spec fn due_at(now: u64, delay: u32) -> u64 {
    if now + delay > u64::MAX {
        u64::MAX
    } else {
        (now + delay) as u64
    }
}

/// Whether a slot that holds `pending` accepts a request.
pub open spec fn accepts(pending: Option<u64>) -> bool {
    pending is None
}

/// What the slot holds after a request at `now` for a delay of `delay`: the
/// new due time where it was free, what it held where it was not.
pub open spec fn offered(pending: Option<u64>, now: u64, delay: u32) -> Option<u64> {
    if pending is None {
        Some(due_at(now, delay))
    } else {
        pending
    }
}

/// Whether the callback is dispatched at `now`: one is pending and has fallen due.
pub open spec fn falls_due(pending: Option<u64>, now: u64) -> bool {
    pending matches Some(due) && due <= now
}

/// What the slot holds after the requests of a burst, made at the instants
/// `edges` in turn, each for a delay of `delay`, with no dispatch in between.
pub open spec fn after_burst(pending: Option<u64>, edges: Seq<u64>, delay: u32) -> Option<u64>
    decreases edges.len(),
{
    if edges.len() == 0 {
        pending
    } else {
        offered(after_burst(pending, edges.drop_last(), delay), edges.last(), delay)
    }
}

/// How many of the requests of a burst are accepted.
pub open spec fn accepted_in_burst(pending: Option<u64>, edges: Seq<u64>, delay: u32) -> nat
    decreases edges.len(),
{
    if edges.len() == 0 {
        0
    } else {
        let before = accepted_in_burst(pending, edges.drop_last(), delay);
        if accepts(after_burst(pending, edges.drop_last(), delay)) {
            before + 1
        } else {
            before
        }
    }
}

/// A queue of one slot.
pub struct OneSlot {
    pending: Option<u64>,
}

impl View for OneSlot {
    type V = Option<u64>;

    closed spec fn view(&self) -> Option<u64> {
        self.pending
    }
}

impl OneSlot {
    /// A free slot.
    pub fn new() -> (slot: Self)
        ensures
            slot@ is None,
    {
        OneSlot { pending: None }
    }

    /// When the pending callback falls due, if one is pending.
    pub fn pending(&self) -> (due: Option<u64>)
        ensures
            due == self@,
    {
        self.pending
    }

    /// Asks at `now` for the callback to run after `delay`. Returns whether
    /// the request was accepted, which it is exactly when the slot was free.
    pub fn spawn_after(&mut self, now: u64, delay: u32) -> (accepted: bool)
        ensures
            accepted == accepts(old(self)@),
            final(self)@ == offered(old(self)@, now, delay),
    {
        if self.pending.is_some() {
            false
        } else {
            self.pending = Some(now.saturating_add(delay as u64));
            true
        }
    }

    /// Dispatches the callback if it has fallen due at `now`, which frees
    /// the slot. Returns whether the callback is to run.
    pub fn dispatch(&mut self, now: u64) -> (run: bool)
        ensures
            run == falls_due(old(self)@, now),
            run ==> final(self)@ is None,
            !run ==> final(self)@ == old(self)@,
    {
        match self.pending {
            Some(due) => {
                if due <= now {
                    self.pending = None;
                    true
                } else {
                    false
                }
            },
            None => false,
        }
    }
}

/// Of the requests of a burst that finds the slot free, however many they
/// are, exactly one is accepted: the first. The callback falls due one delay
/// after the first edge, and no later edge moves it.
pub proof fn lemma_burst_takes_the_slot_once(edges: Seq<u64>, delay: u32)
    requires
        edges.len() >= 1,
    ensures
        accepted_in_burst(None, edges, delay) == 1,
        after_burst(None, edges, delay) == Some(due_at(edges[0], delay)),
    decreases edges.len(),
{
    if edges.len() == 1 {
        assert(edges.drop_last().len() == 0);
        assert(after_burst(None, edges.drop_last(), delay) == None::<u64>);
        assert(accepted_in_burst(None, edges.drop_last(), delay) == 0);
        assert(edges.last() == edges[0]);
    } else {
        lemma_burst_takes_the_slot_once(edges.drop_last(), delay);
        assert(edges.drop_last()[0] == edges[0]);
    }
}

/// Requests made while a callback is pending leave the slot as it is, and
/// none of them is accepted.
pub proof fn lemma_pending_slot_refuses(due: u64, edges: Seq<u64>, delay: u32)
    ensures
        accepted_in_burst(Some(due), edges, delay) == 0,
        after_burst(Some(due), edges, delay) == Some(due),
    decreases edges.len(),
{
    if edges.len() > 0 {
        lemma_pending_slot_refuses(due, edges.drop_last(), delay);
    }
}

} // verus!
