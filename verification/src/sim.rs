//! A simulated timer instance, for running the clock without hardware.
//!
//! The simulated timer is not free-running: time passes only when
//! [`SimTimer::advance`] is called. The counter wraps at its configured
//! width, and a compare event is set at the tick at which the counter
//! becomes equal to the channel's compare register.

use vstd::prelude::*;
use crate::mono::{Instance32, TimerRegs, CHANNELS};

verus! {

/// How many values a counter of the given width runs through.
pub open spec fn modulus(full_width: bool) -> int {
    if full_width {
        0x1_0000_0000
    } else {
        0x1_0000
    }
}

/// The counter after `ticks` ticks from `counter`.
pub open spec fn counter_after(counter: u32, ticks: u32, full_width: bool) -> u32 {
    ((counter + ticks) % modulus(full_width)) as u32
}

/// Whether the counter equals `target`, as far as its width goes, once `k`
/// ticks have passed from `counter`.
pub open spec fn equals_at(counter: u32, target: u32, k: int, full_width: bool) -> bool {
    (counter + k) % modulus(full_width) == target as int % modulus(full_width)
}

/// Whether the counter comes to equal `target` at one of the next `ticks`
/// ticks from `counter`. The tick at which the register is written does not
/// count: a target equal to the counter is reached a full turn later.
pub open spec fn reaches(counter: u32, target: u32, ticks: u32, full_width: bool) -> bool {
    let ahead = (target - counter) % modulus(full_width);
    if ahead == 0 {
        ticks >= modulus(full_width)
    } else {
        ahead <= ticks
    }
}

/// How many ticks pass from `counter` until the counter equals `target`:
/// the distance ahead, or a full turn where the two are equal already.
pub open spec fn ticks_to_match(counter: u32, target: u32, full_width: bool) -> int {
    let ahead = (target - counter) % modulus(full_width);
    if ahead == 0 {
        modulus(full_width)
    } else {
        ahead
    }
}

/// A timer instance held in memory.
pub struct SimTimer {
    prescaler: u8,
    full_width: bool,
    running: bool,
    counter: u32,
    cc: [u32; 4],
    events: [bool; 4],
    irq: [bool; 4],
}

impl Instance32 for SimTimer {
    open spec fn free_running(&self) -> bool {
        false
    }

    closed spec fn regs(&self) -> TimerRegs {
        TimerRegs {
            prescaler: self.prescaler,
            full_width: self.full_width,
            running: self.running,
            cc: self.cc,
            compare_irq: self.irq,
        }
    }

    closed spec fn counter(&self) -> u32 {
        self.counter
    }

    closed spec fn compare_events(&self) -> [bool; 4] {
        self.events
    }

    fn write_prescaler(&mut self, exponent: u8) {
        self.prescaler = exponent;
    }

    fn select_full_width(&mut self) {
        self.full_width = true;
    }

    fn enable_compare_interrupt(&mut self, channel: usize) {
        self.irq[channel] = true;
    }

    fn task_clear(&mut self) {
        self.counter = 0;
    }

    fn task_start(&mut self) {
        self.running = true;
    }

    fn task_capture(&mut self, channel: usize) {
        self.cc[channel] = self.counter;
    }

    fn read_cc(&self, channel: usize) -> (value: u32) {
        self.cc[channel]
    }

    fn write_cc(&mut self, channel: usize, value: u32) {
        self.cc[channel] = value;
    }

    fn clear_compare_event(&mut self, channel: usize) {
        self.events[channel] = false;
    }
}

impl SimTimer {
    /// A timer as it is after power-up: stopped at zero, 16 bits wide,
    /// nothing configured and no event set.
    pub fn new() -> (t: Self)
        ensures
            t.regs() == (TimerRegs {
                prescaler: 0,
                full_width: false,
                running: false,
                cc: [0u32, 0u32, 0u32, 0u32],
                compare_irq: [false, false, false, false],
            }),
            t.counter() == 0,
            t.compare_events() == [false, false, false, false],
    {
        SimTimer {
            prescaler: 0,
            full_width: false,
            running: false,
            counter: 0,
            cc: [0, 0, 0, 0],
            events: [false, false, false, false],
            irq: [false, false, false, false],
        }
    }

    /// The prescaler exponent that was written.
    pub fn prescaler(&self) -> (exponent: u8)
        ensures
            exponent == self.regs().prescaler,
    {
        self.prescaler
    }

    /// Whether the counter is 32 bits wide.
    pub fn is_full_width(&self) -> (full: bool)
        ensures
            full == self.regs().full_width,
    {
        self.full_width
    }

    /// Whether the counter is counting.
    pub fn is_running(&self) -> (running: bool)
        ensures
            running == self.regs().running,
    {
        self.running
    }

    /// Whether the compare event of `channel` raises the interrupt.
    pub fn compare_interrupt_enabled(&self, channel: usize) -> (enabled: bool)
        requires
            channel < CHANNELS,
        ensures
            enabled == self.regs().compare_irq@[channel as int],
    {
        self.irq[channel]
    }

    /// The value of the counter.
    pub fn count(&self) -> (c: u32)
        ensures
            c == self.counter(),
    {
        self.counter
    }

    /// Whether the compare event of `channel` is set.
    pub fn event(&self, channel: usize) -> (set: bool)
        requires
            channel < CHANNELS,
        ensures
            set == self.compare_events()@[channel as int],
    {
        self.events[channel]
    }

    /// Whether `channel` raises the interrupt: its compare event is set and
    /// its interrupt enabled.
    pub open spec fn raises(&self, channel: int) -> bool {
        self.compare_events()@[channel] && self.regs().compare_irq@[channel]
    }

    /// Whether the timer raises its interrupt, which it does when one of its
    /// channels does.
    pub fn interrupt_pending(&self) -> (pending: bool)
        ensures
            pending == (self.raises(0) || self.raises(1) || self.raises(2) || self.raises(3)),
    {
        (self.events[0] && self.irq[0]) || (self.events[1] && self.irq[1]) || (self.events[2]
            && self.irq[2]) || (self.events[3] && self.irq[3])
    }

    /// Lets `ticks` ticks pass. A stopped timer does not change. A running
    /// one counts on, wrapping at its width, and sets the compare event of
    /// each channel whose register the counter comes to equal on the way.
    pub fn advance(&mut self, ticks: u32)
        ensures
            final(self).regs() == old(self).regs(),
            !old(self).regs().running ==> *final(self) == *old(self),
            old(self).regs().running ==> final(self).counter() == counter_after(
                old(self).counter(),
                ticks,
                old(self).regs().full_width,
            ),
            old(self).regs().running ==> forall|ch: int|
                0 <= ch < CHANNELS ==> #[trigger] final(self).compare_events()@[ch] == (old(
                    self,
                ).compare_events()@[ch] || reaches(
                    old(self).counter(),
                    old(self).regs().cc@[ch],
                    ticks,
                    old(self).regs().full_width,
                )),
    {
        if !self.running {
            return ;
        }
        let m: u64 = if self.full_width {
            0x1_0000_0000
        } else {
            0x1_0000
        };
        let from: u64 = self.counter as u64 % m;
        let mut ch: usize = 0;
        while ch < CHANNELS
            invariant
                ch <= CHANNELS,
                m == modulus(self.full_width),
                from == self.counter as int % modulus(self.full_width),
                self.regs() == old(self).regs(),
                self.counter == old(self).counter,
                forall|i: int|
                    0 <= i < ch ==> #[trigger] self.events@[i] == (old(self).events@[i] || reaches(
                        self.counter,
                        self.cc@[i],
                        ticks,
                        self.full_width,
                    )),
                forall|i: int| ch <= i < CHANNELS ==> #[trigger] self.events@[i] == old(self).events@[i],
            decreases CHANNELS - ch,
        {
            let target: u64 = self.cc[ch] as u64 % m;
            let ahead: u64 = (target + m - from) % m;
            assert(ahead == (self.cc@[ch as int] - self.counter) % modulus(self.full_width));
            let hit = if ahead == 0 {
                ticks as u64 >= m
            } else {
                ahead <= ticks as u64
            };
            if hit {
                self.events[ch] = true;
            }
            ch += 1;
        }
        self.counter = ((self.counter as u64 + ticks as u64) % m) as u32;
    }
}

/// A compare register is matched after at least one tick and at most a full
/// turn of the counter, wherever the counter stands: no target is so far
/// behind that it is never reached. The match is at `ticks_to_match` ticks
/// and at no tick before.
pub proof fn lemma_match_within_one_turn(counter: u32, target: u32, full_width: bool)
    ensures
        1 <= ticks_to_match(counter, target, full_width) <= modulus(full_width),
        equals_at(counter, target, ticks_to_match(counter, target, full_width), full_width),
        forall|k: int|
            1 <= k < ticks_to_match(counter, target, full_width) ==> !#[trigger] equals_at(
                counter,
                target,
                k,
                full_width,
            ),
{
    if full_width {
        assert(modulus(full_width) == 0x1_0000_0000);
    } else {
        assert(modulus(full_width) == 0x1_0000);
    }
}

/// The compare event is set by `ticks` ticks exactly when the match falls
/// among them, that is when the counter equals the target at one of the
/// ticks `1..=ticks`.
pub proof fn lemma_reaches_is_match(counter: u32, target: u32, ticks: u32, full_width: bool)
    ensures
        reaches(counter, target, ticks, full_width) <==> ticks_to_match(counter, target, full_width)
            <= ticks,
        reaches(counter, target, ticks, full_width) <==> exists|k: int|
            1 <= k <= ticks && #[trigger] equals_at(counter, target, k, full_width),
{
    lemma_match_within_one_turn(counter, target, full_width);
    let first = ticks_to_match(counter, target, full_width);
    if first <= ticks {
        assert(1 <= first <= ticks && equals_at(counter, target, first, full_width));
    }
}

/// On a counter of full width the distance to the match is the wrapped
/// difference from the counter to the target, so an alarm set to an instant
/// `d` ticks ahead is raised after exactly `d` ticks, and one set to an
/// instant that lies behind is raised when the counter has come round to it.
pub proof fn lemma_alarm_after_wrapped_diff(counter: u32, target: u32, ticks: u32)
    ensures
        target != counter ==> ticks_to_match(counter, target, true) == crate::time::wrapped_diff(
            counter,
            target,
        ),
        target != counter ==> (reaches(counter, target, ticks, true) <==> ticks
            >= crate::time::wrapped_diff(counter, target)),
        target == counter ==> !reaches(counter, target, ticks, true),
{
}

} // verus!
