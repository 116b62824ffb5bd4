//! Debouncing of a mechanical contact.
//!
//! Every edge asks the scheduler for a re-check after the settle delay. The
//! scheduler holds one such request at a time (see [`crate::sched`]), so a
//! burst of edges leads to one re-check, one settle delay after its first
//! edge. When the re-check fires, the level sampled at that moment decides
//! what is reported, not the edge that led to it.

use vstd::prelude::*;
use crate::sched::{accepted_in_burst, after_burst, due_at, lemma_burst_takes_the_slot_once};
use crate::time::{elapsed, lemma_rescaled_truncates, rescaled, wrapped_diff, Instant};

verus! {

/// The settle delay, in milliseconds, that the contacts at hand were found to need.
pub const DEFAULT_SETTLE_MS: u32 = 30;

/// What a re-check reports.
#[derive(Clone, Copy, Debug, PartialEq, Eq, Structural)]
pub enum ButtonEvent {
    /// The contact was found closed at `at`.
    Pressed { at: Instant },
    /// The contact was found open, `held_ms` milliseconds after it was found closed.
    Released { held_ms: u32 },
}

/// What a debouncer holds.
pub struct DebounceState {
    /// The delay between an edge and the re-check that it asks for.
    pub settle_ms: u32,
    /// When the contact was last found closed, until a release consumes it.
    pub pressed_at: Option<Instant>,
}

/// The delay of the re-check that an edge in state `s` asks the scheduler for.
pub open spec fn requested(s: DebounceState) -> u32 {
    s.settle_ms
}

/// The state after a re-check at `now` that sampled `pressed`.
pub open spec fn rechecked(s: DebounceState, pressed: bool, now: Instant) -> DebounceState {
    DebounceState {
        settle_ms: s.settle_ms,
        pressed_at: if pressed {
            Some(now)
        } else {
            None
        },
    }
}

/// The release event for a hold of `ticks` ticks on a clock of `freq` ticks
/// per second: milliseconds truncated, none when they do not fit in 32 bits.
pub open spec fn release_of(ticks: u32, freq: u32) -> Option<ButtonEvent> {
    let ms = rescaled(ticks, freq, 1_000);
    if ms <= u32::MAX {
        Some(ButtonEvent::Released { held_ms: ms as u32 })
    } else {
        None
    }
}

/// What a re-check at `now` that sampled `pressed` reports in state `s`.
pub open spec fn sampled(s: DebounceState, pressed: bool, now: Instant, freq: u32) -> Option<
    ButtonEvent,
> {
    if pressed {
        Some(ButtonEvent::Pressed { at: now })
    } else {
        match s.pressed_at {
            Some(since) => release_of(wrapped_diff(since.ticks, now.ticks) as u32, freq),
            None => None,
        }
    }
}

/// Debounces one contact, timing holds on a clock of `FREQ` ticks per second.
pub struct Debouncer<const FREQ: u32> {
    settle_ms: u32,
    pressed_at: Option<Instant>,
}

impl<const FREQ: u32> View for Debouncer<FREQ> {
    type V = DebounceState;

    closed spec fn view(&self) -> DebounceState {
        DebounceState { settle_ms: self.settle_ms, pressed_at: self.pressed_at }
    }
}

impl<const FREQ: u32> Debouncer<FREQ> {
    /// A debouncer that re-checks `settle_ms` milliseconds after an edge.
    pub fn new(settle_ms: u32) -> (d: Self)
        ensures
            d@ == (DebounceState { settle_ms, pressed_at: None }),
    {
        Debouncer { settle_ms, pressed_at: None }
    }

    /// Handles a raw edge: returns the delay in milliseconds after which the
    /// caller is to ask the scheduler for the re-check. Every edge asks, in
    /// whatever state; the edge itself reports nothing, samples nothing and
    /// leaves the debouncer as it is. A refusal by the scheduler needs no
    /// handling: it means that a re-check is pending already.
    pub fn on_edge(&self) -> (delay_ms: u32)
        ensures
            delay_ms == requested(self@),
    {
        self.settle_ms
    }

    /// Handles the re-check at `now`, `pressed` being the level sampled at
    /// this moment. A closed contact is reported and its instant kept; an open
    /// one is reported with the time it was held, if it was found closed
    /// before and the milliseconds fit in 32 bits.
    pub fn on_recheck(&mut self, pressed: bool, now: Instant) -> (event: Option<ButtonEvent>)
        requires
            FREQ > 0,
        ensures
            final(self)@ == rechecked(old(self)@, pressed, now),
            event == sampled(old(self)@, pressed, now, FREQ),
    {
        if pressed {
            self.pressed_at = Some(now);
            Some(ButtonEvent::Pressed { at: now })
        } else {
            match self.pressed_at.take() {
                Some(since) => match elapsed(since, now).to_millis::<FREQ>() {
                    Some(held_ms) => Some(ButtonEvent::Released { held_ms }),
                    None => None,
                },
                None => None,
            }
        }
    }
}

/// A burst of edges at the instants `edges`, each asking a free scheduler
/// slot for the re-check, gets exactly one request accepted: the re-check
/// falls due one settle delay after the first edge. That one re-check,
/// finding the contact closed, reports exactly one press, stamped with its
/// own instant.
pub proof fn lemma_burst_reports_one_press(
    s: DebounceState,
    edges: Seq<u64>,
    now: Instant,
    freq: u32,
)
    requires
        edges.len() >= 1,
    ensures
        accepted_in_burst(None, edges, requested(s)) == 1,
        after_burst(None, edges, requested(s)) == Some(due_at(edges[0], s.settle_ms)),
        sampled(s, true, now, freq) == Some(ButtonEvent::Pressed { at: now }),
        rechecked(s, true, now).pressed_at == Some(now),
        rechecked(s, true, now).settle_ms == s.settle_ms,
{
    lemma_burst_takes_the_slot_once(edges, requested(s));
}

/// The one re-check of such a burst that finds the contact open, after a
/// press at `since`, reports exactly one release with the hold in
/// milliseconds, truncated; with no press before it, it reports nothing.
/// Either way no press is left behind.
pub proof fn lemma_burst_reports_one_release(
    s: DebounceState,
    edges: Seq<u64>,
    now: Instant,
    freq: u32,
)
    requires
        edges.len() >= 1,
        freq >= 1_000,
    ensures
        accepted_in_burst(None, edges, requested(s)) == 1,
        after_burst(None, edges, requested(s)) == Some(due_at(edges[0], s.settle_ms)),
        s.pressed_at matches Some(since) ==> sampled(s, false, now, freq) == Some(
            ButtonEvent::Released {
                held_ms: rescaled(wrapped_diff(since.ticks, now.ticks) as u32, freq, 1_000) as u32,
            },
        ),
        s.pressed_at is None ==> sampled(s, false, now, freq) is None,
        rechecked(s, false, now).pressed_at is None,
{
    lemma_burst_takes_the_slot_once(edges, requested(s));
    if let Some(since) = s.pressed_at {
        let width: u32 = wrapped_diff(since.ticks, now.ticks) as u32;
        lemma_rescaled_truncates(width, freq, 1_000);
        let q: int = rescaled(width, freq, 1_000);
        assert(q <= width) by (nonlinear_arith)
            requires
                q * freq <= width * 1_000,
                freq >= 1_000,
                width >= 0,
                q >= 0,
        ;
    }
}

} // verus!
