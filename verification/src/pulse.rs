//! Pulse-width timing: an active edge starts the clock, the next inactive
//! edge stops it and yields the width of the pulse.

use vstd::prelude::*;
use crate::time::{
    distance_cm, elapsed, half_range, lemma_elapsed_is_true_elapsed, lemma_rescaled_truncates,
    reading_at, rescaled, spec_distance_cm, wrapped_diff, Duration, Instant, MICROS_PER_CM,
};

verus! {

/// A measured pulse: its width in ticks and in microseconds, and the
/// distance that an echo of that width stands for.
#[derive(Clone, Copy, Debug, PartialEq, Eq, Structural)]
pub struct Measurement {
    pub ticks: u32,
    pub micros: u32,
    pub centimeters: u32,
}

/// What a pulse timer holds: the start of the pulse under way, if any, and
/// how many edges were dropped without a measurement.
pub struct PulseState {
    /// The instant of the last active edge that no inactive edge has consumed.
    pub pending: Option<Instant>,
    /// Active edges that replaced a start still waiting for its stop.
    pub superseded: u32,
    /// Inactive edges that found no start to pair with.
    pub unmatched: u32,
}

/// A counter of dropped edges after one more, holding at its maximum.
pub open spec fn bumped(count: u32) -> u32 {
    if count == u32::MAX {
        count
    } else {
        (count + 1) as u32
    }
}

/// The measurement for a pulse of `ticks` ticks on a clock of `freq` ticks per
/// second: microseconds truncated, centimetres truncated again. There is none
/// when the microseconds do not fit in 32 bits.
pub open spec fn measurement_of(ticks: u32, freq: u32) -> Option<Measurement> {
    let micros = rescaled(ticks, freq, 1_000_000);
    if micros <= u32::MAX {
        Some(
            Measurement {
                ticks,
                micros: micros as u32,
                centimeters: spec_distance_cm(micros as u32) as u32,
            },
        )
    } else {
        None
    }
}

/// The state after an active edge at `now`: `now` becomes the pending start,
/// and a start that was still pending is counted as superseded.
pub open spec fn started(s: PulseState, now: Instant) -> PulseState {
    PulseState {
        pending: Some(now),
        superseded: if s.pending is Some {
            bumped(s.superseded)
        } else {
            s.superseded
        },
        unmatched: s.unmatched,
    }
}

/// The state after an inactive edge: the pending start is gone, and an edge
/// that found none is counted as unmatched.
pub open spec fn stopped(s: PulseState) -> PulseState {
    PulseState {
        pending: None,
        superseded: s.superseded,
        unmatched: if s.pending is Some {
            s.unmatched
        } else {
            bumped(s.unmatched)
        },
    }
}

/// What an inactive edge at `now` reports: the measurement from the pending
/// start to `now`, or nothing where no start is pending.
pub open spec fn reported(s: PulseState, now: Instant, freq: u32) -> Option<Measurement> {
    match s.pending {
        Some(start) => measurement_of(wrapped_diff(start.ticks, now.ticks) as u32, freq),
        None => None,
    }
}

/// Times pulses on a clock of `FREQ` ticks per second.
pub struct PulseTimer<const FREQ: u32> {
    pending: Option<Instant>,
    superseded: u32,
    unmatched: u32,
}

impl<const FREQ: u32> View for PulseTimer<FREQ> {
    type V = PulseState;

    closed spec fn view(&self) -> PulseState {
        PulseState { pending: self.pending, superseded: self.superseded, unmatched: self.unmatched }
    }
}

/// The measurement for a pulse that lasted `width` on a clock of `FREQ` ticks
/// per second.
pub fn measure<const FREQ: u32>(width: Duration) -> (r: Option<Measurement>)
    requires
        FREQ > 0,
    ensures
        r == measurement_of(width.ticks, FREQ),
{
    match width.to_micros::<FREQ>() {
        Some(micros) => Some(
            Measurement { ticks: width.ticks, micros, centimeters: distance_cm(micros) },
        ),
        None => None,
    }
}

/// What a hardware timer of one tick per microsecond reports for a pulse
/// that it timed by itself: the measurement of `micros` where the timer was
/// started by an active edge, nothing where no such edge came before the
/// inactive one.
pub open spec fn reported_by_timer(started: bool, micros: u32) -> Option<Measurement> {
    if started {
        Some(
            Measurement {
                ticks: micros,
                micros,
                centimeters: spec_distance_cm(micros) as u32,
            },
        )
    } else {
        None
    }
}

/// The report for an inactive edge of a pulse that a hardware timer of one
/// tick per microsecond timed without software in between. `started` says
/// whether an active edge started the timer since the last report, `micros`
/// is what the stopped timer reads.
pub fn timed_by_hardware(started: bool, micros: u32) -> (r: Option<Measurement>)
    ensures
        r == reported_by_timer(started, micros),
        !started ==> r is None,
{
    if started {
        Some(Measurement { ticks: micros, micros, centimeters: distance_cm(micros) })
    } else {
        None
    }
}

impl<const FREQ: u32> PulseTimer<FREQ> {
    /// A timer with no pulse under way.
    pub fn new() -> (t: Self)
        ensures
            t@ == (PulseState { pending: None, superseded: 0, unmatched: 0 }),
    {
        PulseTimer { pending: None, superseded: 0, unmatched: 0 }
    }

    /// Whether a pulse is under way.
    pub fn is_timing(&self) -> (timing: bool)
        ensures
            timing == self@.pending is Some,
    {
        self.pending.is_some()
    }

    /// How many starts were replaced before their stop came.
    pub fn superseded(&self) -> (count: u32)
        ensures
            count == self@.superseded,
    {
        self.superseded
    }

    /// How many stops came with no start to pair with.
    pub fn unmatched(&self) -> (count: u32)
        ensures
            count == self@.unmatched,
    {
        self.unmatched
    }

    /// Records `now` as the start of a pulse, replacing a start that was
    /// still waiting for its stop.
    pub fn start(&mut self, now: Instant)
        ensures
            final(self)@ == started(old(self)@, now),
    {
        if self.pending.is_some() {
            self.superseded = self.superseded.saturating_add(1);
        }
        self.pending = Some(now);
    }

    /// Ends the pulse at `now`: takes the pending start and reports the
    /// measurement from it. Reports nothing where no start was pending or
    /// where the width in microseconds does not fit in 32 bits.
    pub fn stop(&mut self, now: Instant) -> (r: Option<Measurement>)
        requires
            FREQ > 0,
        ensures
            final(self)@ == stopped(old(self)@),
            r == reported(old(self)@, now, FREQ),
            old(self)@.pending is None ==> r is None,
    {
        match self.pending.take() {
            Some(start) => measure::<FREQ>(elapsed(start, now)),
            None => {
                self.unmatched = self.unmatched.saturating_add(1);
                None
            },
        }
    }

    /// Handles an edge seen at `now`: an edge to the active level starts a
    /// pulse, an edge to the inactive level stops it.
    pub fn on_edge(&mut self, active: bool, now: Instant) -> (r: Option<Measurement>)
        requires
            FREQ > 0,
        ensures
            active ==> final(self)@ == started(old(self)@, now) && r is None,
            !active ==> final(self)@ == stopped(old(self)@) && r == reported(old(self)@, now, FREQ),
            !active && old(self)@.pending is None ==> r is None,
    {
        if active {
            self.start(now);
            None
        } else {
            self.stop(now)
        }
    }
}

/// An active edge at `t0` followed by an inactive edge at `t1`, with no wrap
/// of the counter between them, reports a width of exactly `t1 - t0` ticks,
/// and that width in microseconds by truncating division. On a clock of at
/// least one tick per microsecond there always is such a report.
pub proof fn lemma_pulse_reports_width(s: PulseState, t0: Instant, t1: Instant, freq: u32)
    requires
        freq > 0,
        t0.ticks <= t1.ticks,
    ensures
        reported(started(s, t0), t1, freq) == measurement_of((t1.ticks - t0.ticks) as u32, freq),
        reported(started(s, t0), t1, freq) matches Some(m) ==> {
            &&& m.ticks == t1.ticks - t0.ticks
            &&& m.micros == ((t1.ticks - t0.ticks) * 1_000_000) / (freq as int)
            &&& m.centimeters == m.micros / MICROS_PER_CM
        },
        freq >= 1_000_000 ==> reported(started(s, t0), t1, freq) is Some,
        stopped(started(s, t0)).pending is None,
{
    let width: u32 = (t1.ticks - t0.ticks) as u32;
    lemma_rescaled_truncates(width, freq, 1_000_000);
    if freq >= 1_000_000 {
        let q: int = rescaled(width, freq, 1_000_000);
        assert(q <= width) by (nonlinear_arith)
            requires
                q * freq <= width * 1_000_000,
                freq >= 1_000_000,
                width >= 0,
                q >= 0,
        ;
    }
}

/// The same holds across a wrap of the counter: edges that are `t1 - t0` true
/// ticks apart, fewer than half the counter range, report exactly that width.
pub proof fn lemma_pulse_reports_width_across_wrap(s: PulseState, t0: nat, t1: nat, freq: u32)
    requires
        freq > 0,
        t0 <= t1,
        t1 - t0 < half_range(),
    ensures
        reported(started(s, Instant { ticks: reading_at(t0) }), Instant { ticks: reading_at(t1) }, freq)
            == measurement_of((t1 - t0) as u32, freq),
{
    lemma_elapsed_is_true_elapsed(t0, t1);
}

/// An inactive edge with no active edge before it reports nothing and leaves
/// no start behind; it is counted, nothing else changes.
pub proof fn lemma_unmatched_stop_reports_nothing(s: PulseState, now: Instant, freq: u32)
    requires
        s.pending is None,
    ensures
        reported(s, now, freq) is None,
        stopped(s).pending is None,
        stopped(s).superseded == s.superseded,
        stopped(s).unmatched == bumped(s.unmatched),
{
}

/// A second active edge before the inactive one discards the first start:
/// the report is the one that the second edge alone would have led to.
pub proof fn lemma_second_start_supersedes(
    s: PulseState,
    first: Instant,
    second: Instant,
    end: Instant,
    freq: u32,
)
    ensures
        started(started(s, first), second).pending == Some(second),
        reported(started(started(s, first), second), end, freq) == measurement_of(
            wrapped_diff(second.ticks, end.ticks) as u32,
            freq,
        ),
        reported(started(started(s, first), second), end, freq) == reported(
            started(s, second),
            end,
            freq,
        ),
        started(started(s, first), second).superseded == bumped(started(s, first).superseded),
{
}

} // verus!
