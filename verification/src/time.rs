//! Instants and durations of a free-running 32-bit tick counter.
//!
//! The counter wraps to zero after `2^32` ticks. Wrapping is part of the
//! model: the span between two readings is their difference modulo the
//! counter range, and it equals the ticks that really passed as long as
//! fewer than half the range did.

use vstd::prelude::*;

verus! {

/// Microseconds of echo round trip that stand for one centimetre of distance.
pub const MICROS_PER_CM: u32 = 58;

/// How many distinct readings the counter has before it wraps to zero.
pub open spec fn counter_range() -> int {
    0x1_0000_0000
}

/// The spans below this bound are the ones two readings resolve without ambiguity.
pub open spec fn half_range() -> int {
    0x8000_0000
}

/// The tick count from reading `from` to reading `to`, going forward around the counter.
pub open spec fn wrapped_diff(from: u32, to: u32) -> int {
    if to >= from {
        to - from
    } else {
        to + counter_range() - from
    }
}

/// What the counter shows once `t` ticks have passed since it started from zero.
pub open spec fn reading_at(t: nat) -> u32 {
    (t as int % counter_range()) as u32
}

/// A tick count taken at `from_hz` ticks per second, expressed at `to_hz`
/// ticks per second and truncated to a whole number.
pub open spec fn rescaled(ticks: u32, from_hz: u32, to_hz: u32) -> int {
    (ticks as int * to_hz as int) / (from_hz as int)
}

/// Whole centimetres for an echo round trip of `micros` microseconds.
pub open spec fn spec_distance_cm(micros: u32) -> int {
    micros as int / MICROS_PER_CM as int
}

/// A captured counter reading.
#[derive(Clone, Copy, Debug, PartialEq, Eq, Structural)]
pub struct Instant {
    pub ticks: u32,
}

/// A tick count between two instants.
#[derive(Clone, Copy, Debug, PartialEq, Eq, Structural)]
pub struct Duration {
    pub ticks: u32,
}

/// `fugit::Instant::checked_duration_since` on two `u32` readings of one clock.
///
/// fugit compares the wrapped difference `later - earlier` with half the
/// counter range: below it the difference is returned, at or above it the
/// answer is `None`.
#[verifier::external_body]
fn duration_since(later: u32, earlier: u32) -> (r: Option<u32>)
    ensures
        wrapped_diff(earlier, later) < half_range() ==> r == Some(
            wrapped_diff(earlier, later) as u32,
        ),
        wrapped_diff(earlier, later) >= half_range() ==> r is None,
{
    let a = fugit::Instant::<u32, 1, 1>::from_ticks(later);
    let b = fugit::Instant::<u32, 1, 1>::from_ticks(earlier);
    match a.checked_duration_since(b) {
        Some(d) => Some(d.ticks()),
        None => None,
    }
}

/// `fugit::Duration::const_try_into` from `FROM_HZ` ticks per second to `TO_HZ`.
///
/// fugit multiplies the ticks by `TO_HZ / g` and divides by `FROM_HZ / g` in
/// 64 bits, `g` being the greatest common divisor of the two rates, which is
/// the truncated quotient `ticks * TO_HZ / FROM_HZ`. It answers `None` when
/// that quotient does not fit in 32 bits. A rate of zero does not compile.
#[verifier::external_body]
fn rescale_ticks<const FROM_HZ: u32, const TO_HZ: u32>(ticks: u32) -> (r: Option<u32>)
    requires
        FROM_HZ > 0,
        TO_HZ > 0,
    ensures
        rescaled(ticks, FROM_HZ, TO_HZ) <= u32::MAX ==> r == Some(
            rescaled(ticks, FROM_HZ, TO_HZ) as u32,
        ),
        rescaled(ticks, FROM_HZ, TO_HZ) > u32::MAX ==> r is None,
{
    let d = fugit::Duration::<u32, 1, FROM_HZ>::from_ticks(ticks);
    match d.const_try_into::<1, TO_HZ>() {
        Some(out) => Some(out.ticks()),
        None => None,
    }
}

/// The ticks from `start` to `end`, by wrapping subtraction over the counter width.
///
/// Spans of half the counter range or more cannot be told from shorter ones
/// that wrapped; the wrapped count is returned for them all the same.
pub fn elapsed(start: Instant, end: Instant) -> (d: Duration)
    ensures
        d.ticks == wrapped_diff(start.ticks, end.ticks),
{
    match duration_since(end.ticks, start.ticks) {
        Some(ticks) => Duration { ticks },
        None => Duration { ticks: end.ticks.wrapping_sub(start.ticks) },
    }
}

/// Whole centimetres for an echo round trip of `micros` microseconds.
pub fn distance_cm(micros: u32) -> (cm: u32)
    ensures
        cm == spec_distance_cm(micros),
{
    micros / MICROS_PER_CM
}

impl Instant {
    /// The instant at which the counter read `ticks`.
    pub fn from_ticks(ticks: u32) -> (i: Self)
        ensures
            i.ticks == ticks,
    {
        Instant { ticks }
    }

    /// The counter reading.
    pub fn ticks(&self) -> (ticks: u32)
        ensures
            ticks == self.ticks,
    {
        self.ticks
    }
}

impl Duration {
    /// A span of `ticks` ticks.
    pub fn from_ticks(ticks: u32) -> (d: Self)
        ensures
            d.ticks == ticks,
    {
        Duration { ticks }
    }

    /// The span in ticks.
    pub fn ticks(&self) -> (ticks: u32)
        ensures
            ticks == self.ticks,
    {
        self.ticks
    }

    /// The span in whole microseconds, for a clock of `FREQ` ticks per second.
    /// `None` when the count does not fit in 32 bits.
    pub fn to_micros<const FREQ: u32>(self) -> (r: Option<u32>)
        requires
            FREQ > 0,
        ensures
            rescaled(self.ticks, FREQ, 1_000_000) <= u32::MAX ==> r == Some(
                rescaled(self.ticks, FREQ, 1_000_000) as u32,
            ),
            rescaled(self.ticks, FREQ, 1_000_000) > u32::MAX ==> r is None,
    {
        rescale_ticks::<FREQ, 1_000_000>(self.ticks)
    }

    /// The span in whole milliseconds, for a clock of `FREQ` ticks per second.
    /// `None` when the count does not fit in 32 bits.
    pub fn to_millis<const FREQ: u32>(self) -> (r: Option<u32>)
        requires
            FREQ > 0,
        ensures
            rescaled(self.ticks, FREQ, 1_000) <= u32::MAX ==> r == Some(
                rescaled(self.ticks, FREQ, 1_000) as u32,
            ),
            rescaled(self.ticks, FREQ, 1_000) > u32::MAX ==> r is None,
    {
        rescale_ticks::<FREQ, 1_000>(self.ticks)
    }
}

/// Two readings taken `t1 - t0` ticks apart, with fewer than half the counter
/// range between them, differ by exactly that many ticks, whether or not the
/// counter wrapped in between.
pub proof fn lemma_elapsed_is_true_elapsed(t0: nat, t1: nat)
    requires
        t0 <= t1,
        t1 - t0 < half_range(),
    ensures
        wrapped_diff(reading_at(t0), reading_at(t1)) == t1 - t0,
{
}

/// A rescaled count never exceeds the exact ratio and is less than one unit below it.
pub proof fn lemma_rescaled_truncates(ticks: u32, from_hz: u32, to_hz: u32)
    requires
        from_hz > 0,
    ensures
        rescaled(ticks, from_hz, to_hz) * from_hz <= ticks * to_hz,
        ticks * to_hz < (rescaled(ticks, from_hz, to_hz) + 1) * from_hz,
        rescaled(ticks, from_hz, to_hz) >= 0,
{
    let n: int = ticks as int * to_hz as int;
    let d: int = from_hz as int;
    assert(0 <= n) by (nonlinear_arith)
        requires
            n == ticks as int * to_hz as int,
    ;
    vstd::arithmetic::div_mod::lemma_fundamental_div_mod(n, d);
    vstd::arithmetic::div_mod::lemma_mod_bound(n, d);
    vstd::arithmetic::div_mod::lemma_div_pos_is_pos(n, d);
    assert((n / d) * d == d * (n / d)) by (nonlinear_arith);
    assert((n / d + 1) * d == d * (n / d) + d) by (nonlinear_arith);
}

} // verus!
