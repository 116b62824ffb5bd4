//! The stimulus whose echo is measured: a short pulse on an output pin,
//! repeated at a fixed period.
//!
//! The trigger does not touch the pin. It hands out, one at a time, the
//! steps that the caller is to perform.

use vstd::prelude::*;

verus! {

/// Cycles of busy-waiting that keep the pin high for the width of one pulse.
pub const PULSE_CYCLES: u32 = 640;

/// Milliseconds from one pulse to the next.
pub const PERIOD_MS: u32 = 100;

/// The level of a pin.
#[derive(Clone, Copy, Debug, PartialEq, Eq, Structural)]
pub enum Level {
    Low,
    High,
}

impl Level {
    /// The other level.
    pub open spec fn spec_toggled(self) -> Level {
        match self {
            Level::Low => Level::High,
            Level::High => Level::Low,
        }
    }

    /// The level of a pin that reads high or not.
    pub fn from_high(high: bool) -> (level: Level)
        ensures
            level == (if high {
                Level::High
            } else {
                Level::Low
            }),
    {
        if high {
            Level::High
        } else {
            Level::Low
        }
    }

    /// Whether this is the high level.
    pub fn is_high(self) -> (high: bool)
        ensures
            high == (self == Level::High),
    {
        match self {
            Level::High => true,
            Level::Low => false,
        }
    }

    /// The other level.
    #[verifier::when_used_as_spec(spec_toggled)]
    pub fn toggled(self) -> (level: Level)
        ensures
            level == self.spec_toggled(),
    {
        match self {
            Level::Low => Level::High,
            Level::High => Level::Low,
        }
    }
}

/// One thing for the caller to do.
#[derive(Clone, Copy, Debug, PartialEq, Eq, Structural)]
pub enum TriggerStep {
    /// Drive the pin to the level.
    Drive(Level),
    /// Spin for the number of cycles, without giving up the processor.
    BusyWait { cycles: u32 },
    /// Schedule the next pulse after the delay.
    Rearm { after_ms: u32 },
}

/// How far the pulse under way has got.
#[derive(Clone, Copy, Debug, PartialEq, Eq, Structural)]
pub enum Phase {
    /// No pulse is under way.
    Idle,
    /// The pin was driven high.
    Raised,
    /// The pulse width has been waited out.
    Held,
    /// The pin was driven low again.
    Lowered,
    /// The next pulse was asked for.
    Rearmed,
}

/// What a trigger holds.
pub struct TriggerState {
    /// Cycles to keep the pin high.
    pub pulse_cycles: u32,
    /// The period after which the pulse repeats; `None` for a single pulse.
    pub period_ms: Option<u32>,
    /// How far the pulse under way has got.
    pub phase: Phase,
}

/// The step that a trigger in state `s` hands out next; `None` ends the pulse.
pub open spec fn step_of(s: TriggerState) -> Option<TriggerStep> {
    match s.phase {
        Phase::Idle => Some(TriggerStep::Drive(Level::High)),
        Phase::Raised => Some(TriggerStep::BusyWait { cycles: s.pulse_cycles }),
        Phase::Held => Some(TriggerStep::Drive(Level::Low)),
        Phase::Lowered => match s.period_ms {
            Some(after_ms) => Some(TriggerStep::Rearm { after_ms }),
            None => None,
        },
        Phase::Rearmed => None,
    }
}

/// The state of a trigger once it has handed out its next step.
pub open spec fn stepped(s: TriggerState) -> TriggerState {
    TriggerState {
        phase: match s.phase {
            Phase::Idle => Phase::Raised,
            Phase::Raised => Phase::Held,
            Phase::Held => Phase::Lowered,
            Phase::Lowered => if s.period_ms is Some {
                Phase::Rearmed
            } else {
                Phase::Idle
            },
            Phase::Rearmed => Phase::Idle,
        },
        ..s
    }
}

/// Generates trigger pulses.
pub struct Trigger {
    pulse_cycles: u32,
    period_ms: Option<u32>,
    phase: Phase,
}

impl View for Trigger {
    type V = TriggerState;

    closed spec fn view(&self) -> TriggerState {
        TriggerState { pulse_cycles: self.pulse_cycles, period_ms: self.period_ms, phase: self.phase }
    }
}

impl Trigger {
    /// A trigger whose pulse is `pulse_cycles` wide and repeats every `period_ms`.
    pub fn periodic(pulse_cycles: u32, period_ms: u32) -> (t: Self)
        ensures
            t@ == (TriggerState { pulse_cycles, period_ms: Some(period_ms), phase: Phase::Idle }),
    {
        Trigger { pulse_cycles, period_ms: Some(period_ms), phase: Phase::Idle }
    }

    /// A trigger whose pulse is `pulse_cycles` wide and is not repeated.
    pub fn one_shot(pulse_cycles: u32) -> (t: Self)
        ensures
            t@ == (TriggerState { pulse_cycles, period_ms: None, phase: Phase::Idle }),
    {
        Trigger { pulse_cycles, period_ms: None, phase: Phase::Idle }
    }

    /// Hands out the next step of the pulse. After `None` the pulse is over
    /// and the next call begins a new one.
    pub fn next_step(&mut self) -> (step: Option<TriggerStep>)
        ensures
            step == step_of(old(self)@),
            final(self)@ == stepped(old(self)@),
    {
        match self.phase {
            Phase::Idle => {
                self.phase = Phase::Raised;
                Some(TriggerStep::Drive(Level::High))
            },
            Phase::Raised => {
                self.phase = Phase::Held;
                Some(TriggerStep::BusyWait { cycles: self.pulse_cycles })
            },
            Phase::Held => {
                self.phase = Phase::Lowered;
                Some(TriggerStep::Drive(Level::Low))
            },
            Phase::Lowered => match self.period_ms {
                Some(after_ms) => {
                    self.phase = Phase::Rearmed;
                    Some(TriggerStep::Rearm { after_ms })
                },
                None => {
                    self.phase = Phase::Idle;
                    None
                },
            },
            Phase::Rearmed => {
                self.phase = Phase::Idle;
                None
            },
        }
    }
}

/// A repeating trigger at rest hands out, in this order: pin high, the busy
/// wait of the pulse width, pin low, the request for the next pulse; then it
/// ends the pulse and is at rest again.
pub proof fn lemma_periodic_pulse(s: TriggerState, after_ms: u32)
    requires
        s.phase == Phase::Idle,
        s.period_ms == Some(after_ms),
    ensures
        step_of(s) == Some(TriggerStep::Drive(Level::High)),
        step_of(stepped(s)) == Some(TriggerStep::BusyWait { cycles: s.pulse_cycles }),
        step_of(stepped(stepped(s))) == Some(TriggerStep::Drive(Level::Low)),
        step_of(stepped(stepped(stepped(s)))) == Some(TriggerStep::Rearm { after_ms }),
        step_of(stepped(stepped(stepped(stepped(s))))) is None,
        stepped(stepped(stepped(stepped(stepped(s))))) == s,
{
}

/// A single-pulse trigger at rest hands out pin high, the busy wait and pin
/// low, asks for no further pulse, and is at rest again.
pub proof fn lemma_single_pulse(s: TriggerState)
    requires
        s.phase == Phase::Idle,
        s.period_ms is None,
    ensures
        step_of(s) == Some(TriggerStep::Drive(Level::High)),
        step_of(stepped(s)) == Some(TriggerStep::BusyWait { cycles: s.pulse_cycles }),
        step_of(stepped(stepped(s))) == Some(TriggerStep::Drive(Level::Low)),
        step_of(stepped(stepped(stepped(s)))) is None,
        stepped(stepped(stepped(stepped(s)))) == s,
{
}

} // verus!
