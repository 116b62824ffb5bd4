//! A monotonic clock on a hardware timer run at one tick per microsecond.
//!
//! The timer is reached through [`Instance32`], a register-level interface
//! that a peripheral's register block, or a simulation of one, implements.

use vstd::prelude::*;
use vstd::arithmetic::power2::{lemma2_to64, pow2};
use crate::sim::{counter_after, reaches, SimTimer};
use crate::time::Instant;

verus! {

/// Capture/compare channels of a timer instance.
pub const CHANNELS: usize = 4;

/// The channel whose compare register holds the alarm.
pub const COMPARE_CHANNEL: usize = 0;

/// The channel that latches the counter for a reading.
pub const CAPTURE_CHANNEL: usize = 1;

/// The prescaler exponent that divides the base clock down to one tick per microsecond.
pub const PRESCALER: u8 = 4;

/// The largest prescaler exponent that the hardware takes.
pub const MAX_PRESCALER: u8 = 9;

/// Ticks per second of the clock.
pub const TICK_HZ: u32 = 1_000_000;

/// Ticks per second of the timer's base clock, before the prescaler.
pub const BASE_HZ: u32 = 16_000_000;

/// Ticks per second of a timer whose prescaler exponent is `prescaler`.
pub open spec fn tick_hz(prescaler: u8) -> int {
    BASE_HZ as int / (pow2(prescaler as nat) as int)
}

/// The registers of a timer that only software writes, but for the capture
/// registers, which the capture task fills.
pub struct TimerRegs {
    /// The exponent of the divider of the base clock.
    pub prescaler: u8,
    /// Whether the counter is 32 bits wide; it is 16 bits wide otherwise.
    pub full_width: bool,
    /// Whether the counter is counting.
    pub running: bool,
    /// The capture/compare registers, one for each channel.
    pub cc: [u32; 4],
    /// For each channel, whether its compare event raises the interrupt.
    pub compare_irq: [bool; 4],
}

/// A timer instance that can count over 32 bits, at the level of its registers.
///
/// `regs` is what software has configured. `counter` and `compare_events` are
/// what the hardware drives by itself: on a free-running timer time passes
/// while an operation runs, so what an operation says of them holds at the
/// moment it returns, and what it does not mention is open. A timer that is
/// not free-running, such as a simulated one, moves only when an operation
/// moves it.
///
/// Every implementation says what its four views are. One within this crate
/// is verified against the contracts below. One that drives real registers
/// is held to them by reading only: for it they state what the clock relies
/// on.
pub trait Instance32 {
    /// Whether the counter and the compare events move by themselves.
    spec fn free_running(&self) -> bool;

    /// The configuration registers.
    spec fn regs(&self) -> TimerRegs;

    /// The value of the counter.
    spec fn counter(&self) -> u32;

    /// The compare events, one for each channel.
    spec fn compare_events(&self) -> [bool; 4];

    /// Writes the prescaler register.
    fn write_prescaler(&mut self, exponent: u8)
        requires
            exponent <= MAX_PRESCALER,
        ensures
            final(self).regs() == (TimerRegs { prescaler: exponent, ..old(self).regs() }),
            final(self).free_running() == old(self).free_running(),
            !old(self).free_running() ==> final(self).counter() == old(self).counter(),
            !old(self).free_running() ==> final(self).compare_events() == old(self).compare_events(),
    ;

    /// Selects the 32-bit counter width.
    fn select_full_width(&mut self)
        ensures
            final(self).regs() == (TimerRegs { full_width: true, ..old(self).regs() }),
            final(self).free_running() == old(self).free_running(),
            !old(self).free_running() ==> final(self).counter() == old(self).counter(),
            !old(self).free_running() ==> final(self).compare_events() == old(self).compare_events(),
    ;

    /// Lets the compare event of `channel` raise the interrupt.
    fn enable_compare_interrupt(&mut self, channel: usize)
        requires
            channel < CHANNELS,
        ensures
            final(self).regs().compare_irq@ == old(self).regs().compare_irq@.update(
                channel as int,
                true,
            ),
            final(self).regs() == (TimerRegs {
                compare_irq: final(self).regs().compare_irq,
                ..old(self).regs()
            }),
            final(self).free_running() == old(self).free_running(),
            !old(self).free_running() ==> final(self).counter() == old(self).counter(),
            !old(self).free_running() ==> final(self).compare_events() == old(self).compare_events(),
    ;

    /// Triggers the clear task: the counter goes back to zero.
    fn task_clear(&mut self)
        ensures
            final(self).regs() == old(self).regs(),
            final(self).counter() == 0,
            final(self).free_running() == old(self).free_running(),
            !old(self).free_running() ==> final(self).compare_events() == old(self).compare_events(),
    ;

    /// Triggers the start task. A counter that stood still starts from the
    /// value it held.
    fn task_start(&mut self)
        ensures
            final(self).regs() == (TimerRegs { running: true, ..old(self).regs() }),
            !old(self).regs().running ==> final(self).counter() == old(self).counter(),
            final(self).free_running() == old(self).free_running(),
            !old(self).free_running() ==> final(self).counter() == old(self).counter(),
            !old(self).free_running() ==> final(self).compare_events() == old(self).compare_events(),
    ;

    /// Triggers the capture task of `channel`: its register latches the counter.
    fn task_capture(&mut self, channel: usize)
        requires
            channel < CHANNELS,
        ensures
            final(self).regs().cc@ == old(self).regs().cc@.update(
                channel as int,
                final(self).counter(),
            ),
            final(self).regs() == (TimerRegs { cc: final(self).regs().cc, ..old(self).regs() }),
            final(self).free_running() == old(self).free_running(),
            !old(self).free_running() ==> final(self).counter() == old(self).counter(),
            !old(self).free_running() ==> final(self).compare_events() == old(self).compare_events(),
    ;

    /// Reads the capture/compare register of `channel`.
    fn read_cc(&self, channel: usize) -> (value: u32)
        requires
            channel < CHANNELS,
        ensures
            value == self.regs().cc@[channel as int],
    ;

    /// Writes the capture/compare register of `channel`.
    fn write_cc(&mut self, channel: usize, value: u32)
        requires
            channel < CHANNELS,
        ensures
            final(self).regs().cc@ == old(self).regs().cc@.update(channel as int, value),
            final(self).regs() == (TimerRegs { cc: final(self).regs().cc, ..old(self).regs() }),
            final(self).free_running() == old(self).free_running(),
            !old(self).free_running() ==> final(self).counter() == old(self).counter(),
            !old(self).free_running() ==> final(self).compare_events() == old(self).compare_events(),
    ;

    /// Acknowledges the compare event of `channel`.
    fn clear_compare_event(&mut self, channel: usize)
        requires
            channel < CHANNELS,
        ensures
            final(self).regs() == old(self).regs(),
            !final(self).compare_events()@[channel as int],
            final(self).free_running() == old(self).free_running(),
            !old(self).free_running() ==> final(self).counter() == old(self).counter(),
            !old(self).free_running() ==> final(self).compare_events()@ == old(
                self,
            ).compare_events()@.update(channel as int, false),
    ;
}

/// An operation that is not given time leaves the counter where it was.
pub open spec fn counter_kept<T: Instance32>(before: T, after: T) -> bool {
    !before.free_running() ==> after.counter() == before.counter()
}

/// An operation that is not given time leaves the compare events as they were.
pub open spec fn events_kept<T: Instance32>(before: T, after: T) -> bool {
    !before.free_running() ==> after.compare_events() == before.compare_events()
}

/// A monotonic clock of one tick per microsecond on a timer instance.
///
/// The clock sets the tick rate and the counter width when it takes the
/// timer, and nothing it offers changes them afterwards.
pub struct MonoTimer<T: Instance32>(T);

impl<T: Instance32> MonoTimer<T> {
    /// The timer that the clock runs on.
    pub closed spec fn timer(&self) -> T {
        self.0
    }

    /// Whether the timer is set to count microseconds over 32 bits.
    pub open spec fn configured(&self) -> bool {
        self.timer().regs().prescaler == PRESCALER && self.timer().regs().full_width
    }

    /// Takes the timer and sets it to count microseconds over 32 bits.
    pub fn new(timer: T) -> (clock: Self)
        ensures
            clock.timer().regs() == (TimerRegs {
                prescaler: PRESCALER,
                full_width: true,
                ..timer.regs()
            }),
            clock.configured(),
            tick_hz(clock.timer().regs().prescaler) == TICK_HZ,
            clock.timer().free_running() == timer.free_running(),
            counter_kept(timer, clock.timer()),
            events_kept(timer, clock.timer()),
    {
        let mut timer = timer;
        timer.write_prescaler(PRESCALER);
        timer.select_full_width();
        proof {
            lemma_prescaler_gives_micros();
        }
        MonoTimer(timer)
    }

    /// The timer, to read what the clock itself does not show.
    pub fn peek(&self) -> (timer: &T)
        ensures
            *timer == self.timer(),
    {
        &self.0
    }

    /// Gives the timer back, configured as it is.
    pub fn release(self) -> (timer: T)
        ensures
            timer == self.timer(),
    {
        self.0
    }

    /// Reads the clock: latches the counter and returns what was latched,
    /// which is the value of the counter at the moment of the return.
    pub fn now(&mut self) -> (now: Instant)
        ensures
            now.ticks == final(self).timer().counter(),
            final(self).timer().regs().cc@ == old(self).timer().regs().cc@.update(
                CAPTURE_CHANNEL as int,
                now.ticks,
            ),
            final(self).timer().regs() == (TimerRegs {
                cc: final(self).timer().regs().cc,
                ..old(self).timer().regs()
            }),
            final(self).timer().free_running() == old(self).timer().free_running(),
            counter_kept(old(self).timer(), final(self).timer()),
            events_kept(old(self).timer(), final(self).timer()),
            final(self).configured() == old(self).configured(),
    {
        self.0.task_capture(CAPTURE_CHANNEL);
        Instant { ticks: self.0.read_cc(CAPTURE_CHANNEL) }
    }

    /// Starts the clock from zero, with the alarm interrupt enabled.
    pub fn reset(&mut self)
        ensures
            final(self).timer().regs().compare_irq@ == old(self).timer().regs().compare_irq@.update(
                COMPARE_CHANNEL as int,
                true,
            ),
            final(self).timer().regs() == (TimerRegs {
                running: true,
                compare_irq: final(self).timer().regs().compare_irq,
                ..old(self).timer().regs()
            }),
            !old(self).timer().regs().running || !old(self).timer().free_running()
                ==> final(self).timer().counter() == 0,
            final(self).timer().free_running() == old(self).timer().free_running(),
            events_kept(old(self).timer(), final(self).timer()),
            final(self).configured() == old(self).configured(),
    {
        self.0.enable_compare_interrupt(COMPARE_CHANNEL);
        self.0.task_clear();
        self.0.task_start();
    }

    /// Sets the alarm to `instant`, replacing the one set before. The compare
    /// register is written whether or not `instant` lies ahead, so that the
    /// alarm is raised when the counter next equals it.
    pub fn set_compare(&mut self, instant: Instant)
        ensures
            final(self).timer().regs().cc@ == old(self).timer().regs().cc@.update(
                COMPARE_CHANNEL as int,
                instant.ticks,
            ),
            final(self).timer().regs() == (TimerRegs {
                cc: final(self).timer().regs().cc,
                ..old(self).timer().regs()
            }),
            final(self).timer().free_running() == old(self).timer().free_running(),
            counter_kept(old(self).timer(), final(self).timer()),
            events_kept(old(self).timer(), final(self).timer()),
            final(self).configured() == old(self).configured(),
    {
        self.0.write_cc(COMPARE_CHANNEL, instant.ticks);
    }

    /// Acknowledges the alarm, so that its interrupt is not raised again at once.
    pub fn clear_compare_flag(&mut self)
        ensures
            final(self).timer().regs() == old(self).timer().regs(),
            !final(self).timer().compare_events()@[COMPARE_CHANNEL as int],
            final(self).timer().free_running() == old(self).timer().free_running(),
            counter_kept(old(self).timer(), final(self).timer()),
            !old(self).timer().free_running() ==> final(self).timer().compare_events()@ == old(
                self,
            ).timer().compare_events()@.update(COMPARE_CHANNEL as int, false),
            final(self).configured() == old(self).configured(),
    {
        self.0.clear_compare_event(COMPARE_CHANNEL);
    }
}

impl MonoTimer<SimTimer> {
    /// Lets `ticks` ticks pass on the simulated timer under the clock.
    pub fn advance(&mut self, ticks: u32)
        ensures
            final(self).timer().regs() == old(self).timer().regs(),
            final(self).configured() == old(self).configured(),
            !old(self).timer().regs().running ==> final(self).timer() == old(self).timer(),
            old(self).timer().regs().running ==> final(self).timer().counter() == counter_after(
                old(self).timer().counter(),
                ticks,
                old(self).timer().regs().full_width,
            ),
            old(self).timer().regs().running ==> forall|ch: int|
                0 <= ch < CHANNELS ==> #[trigger] final(self).timer().compare_events()@[ch] == (old(
                    self,
                ).timer().compare_events()@[ch] || reaches(
                    old(self).timer().counter(),
                    old(self).timer().regs().cc@[ch],
                    ticks,
                    old(self).timer().regs().full_width,
                )),
    {
        self.0.advance(ticks);
    }
}

/// A configured clock ticks once a microsecond: the prescaler that the clock
/// writes divides the base clock down to that rate.
pub proof fn lemma_configured_clock_counts_micros<T: Instance32>(clock: MonoTimer<T>)
    requires
        clock.configured(),
    ensures
        tick_hz(clock.timer().regs().prescaler) == TICK_HZ,
        TICK_HZ == 1_000_000,
{
    lemma_prescaler_gives_micros();
}

/// The clock's prescaler divides the base clock by sixteen.
proof fn lemma_prescaler_gives_micros()
    ensures
        tick_hz(PRESCALER) == TICK_HZ,
{
    lemma2_to64();
    assert(pow2(PRESCALER as nat) == 16);
    assert(BASE_HZ as int / 16 == TICK_HZ);
}

} // verus!
