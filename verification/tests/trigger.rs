use nrf_play::trigger::{Level, Trigger, TriggerStep, PERIOD_MS, PULSE_CYCLES};

fn pulse_of(trigger: &mut Trigger) -> Vec<TriggerStep> {
    let mut steps = Vec::new();
    while let Some(step) = trigger.next_step() {
        steps.push(step);
        assert!(steps.len() <= 4);
    }
    steps
}

#[test]
fn periodic_pulse_is_high_wait_low_rearm() {
    let mut trigger = Trigger::periodic(PULSE_CYCLES, PERIOD_MS);
    let expected = vec![
        TriggerStep::Drive(Level::High),
        TriggerStep::BusyWait { cycles: 640 },
        TriggerStep::Drive(Level::Low),
        TriggerStep::Rearm { after_ms: 100 },
    ];
    assert_eq!(pulse_of(&mut trigger), expected);
    assert_eq!(pulse_of(&mut trigger), expected);
}

#[test]
fn single_pulse_is_high_wait_low() {
    let mut trigger = Trigger::one_shot(320);
    let expected = vec![
        TriggerStep::Drive(Level::High),
        TriggerStep::BusyWait { cycles: 320 },
        TriggerStep::Drive(Level::Low),
    ];
    assert_eq!(pulse_of(&mut trigger), expected);
    assert_eq!(pulse_of(&mut trigger), expected);
}

#[test]
fn pulse_constants() {
    assert_eq!(PULSE_CYCLES, 640);
    assert_eq!(PERIOD_MS, 100);
}

#[test]
fn level_toggles() {
    assert_eq!(Level::Low.toggled(), Level::High);
    assert_eq!(Level::High.toggled(), Level::Low);
    assert_eq!(Level::High.toggled().toggled(), Level::High);
    assert_eq!(Level::from_high(true), Level::High);
    assert_eq!(Level::from_high(false), Level::Low);
    assert!(Level::High.is_high());
    assert!(!Level::Low.is_high());
}
