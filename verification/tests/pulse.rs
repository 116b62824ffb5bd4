use nrf_play::pulse::{measure, timed_by_hardware, Measurement, PulseTimer};
use nrf_play::time::{Duration, Instant};

fn at(ticks: u32) -> Instant {
    Instant::from_ticks(ticks)
}

#[test]
fn echo_of_580_micros_is_ten_centimetres() {
    let mut timer = PulseTimer::<1_000_000>::new();
    assert_eq!(timer.on_edge(true, at(1000)), None);
    assert!(timer.is_timing());
    let report = timer.on_edge(false, at(1580));
    assert_eq!(report, Some(Measurement { ticks: 580, micros: 580, centimeters: 10 }));
    assert!(!timer.is_timing());
}

#[test]
fn pulse_across_the_wrap_is_eighty_ticks() {
    let mut timer = PulseTimer::<1_000_000>::new();
    assert_eq!(timer.on_edge(true, at(u32::MAX - 49)), None);
    let report = timer.on_edge(false, at(30)).unwrap();
    assert_eq!(report.ticks, 80);
    assert_eq!(report.micros, 80);
    assert_eq!(report.centimeters, 1);
}

#[test]
fn width_is_converted_by_truncating_division() {
    let mut timer = PulseTimer::<64_000_000>::new();
    timer.on_edge(true, at(100));
    let report = timer.on_edge(false, at(100 + 37_183)).unwrap();
    assert_eq!(report, Measurement { ticks: 37_183, micros: 580, centimeters: 10 });

    timer.on_edge(true, at(5));
    let report = timer.on_edge(false, at(5 + 63)).unwrap();
    assert_eq!(report, Measurement { ticks: 63, micros: 0, centimeters: 0 });
}

#[test]
fn stop_without_start_reports_nothing() {
    let mut timer = PulseTimer::<1_000_000>::new();
    assert_eq!(timer.on_edge(false, at(500)), None);
    assert!(!timer.is_timing());
    assert_eq!(timer.unmatched(), 1);
    assert_eq!(timer.superseded(), 0);
    assert_eq!(timer.on_edge(false, at(600)), None);
    assert_eq!(timer.unmatched(), 2);
}

#[test]
fn stop_consumes_the_start() {
    let mut timer = PulseTimer::<1_000_000>::new();
    timer.on_edge(true, at(10));
    assert!(timer.on_edge(false, at(20)).is_some());
    assert_eq!(timer.on_edge(false, at(30)), None);
    assert_eq!(timer.unmatched(), 1);
}

#[test]
fn second_start_discards_the_first() {
    let mut timer = PulseTimer::<1_000_000>::new();
    assert_eq!(timer.on_edge(true, at(1000)), None);
    assert_eq!(timer.on_edge(true, at(1400)), None);
    assert_eq!(timer.superseded(), 1);
    let report = timer.on_edge(false, at(1580)).unwrap();
    assert_eq!(report.ticks, 180);
    assert_eq!(report.micros, 180);
    assert_eq!(report.centimeters, 3);
    assert_eq!(timer.unmatched(), 0);
}

#[test]
fn width_that_does_not_fit_is_dropped() {
    let mut timer = PulseTimer::<1_000>::new();
    timer.on_edge(true, at(0));
    assert_eq!(timer.on_edge(false, at(4_294_968)), None);
    assert!(!timer.is_timing());
    assert_eq!(timer.unmatched(), 0);

    timer.on_edge(true, at(0));
    let report = timer.on_edge(false, at(4_294_967)).unwrap();
    assert_eq!(report.micros, 4_294_967_000);
    assert_eq!(report.centimeters, 74_051_155);
}

#[test]
fn start_and_stop_time_a_round_trip() {
    let mut timer = PulseTimer::<64_000_000>::new();
    timer.start(at(640));
    let report = timer.stop(at(640 + 64 * 1_160)).unwrap();
    assert_eq!(report.micros, 1_160);
    assert_eq!(report.centimeters, 20);
    assert_eq!(timer.stop(at(1_000_000)), None);
}

#[test]
fn zero_width_pulse_is_reported_as_zero() {
    let mut timer = PulseTimer::<1_000_000>::new();
    timer.on_edge(true, at(9));
    assert_eq!(
        timer.on_edge(false, at(9)),
        Some(Measurement { ticks: 0, micros: 0, centimeters: 0 })
    );
}

#[test]
fn measure_gives_micros_and_centimetres() {
    assert_eq!(
        measure::<1_000_000>(Duration::from_ticks(580)),
        Some(Measurement { ticks: 580, micros: 580, centimeters: 10 })
    );
    assert_eq!(
        measure::<16_000_000>(Duration::from_ticks(1_000)),
        Some(Measurement { ticks: 1_000, micros: 62, centimeters: 1 })
    );
    assert_eq!(measure::<1>(Duration::from_ticks(5_000)), None);
}

#[test]
fn hardware_timed_pulse_is_reported_in_centimetres() {
    assert_eq!(
        timed_by_hardware(true, 580),
        Some(Measurement { ticks: 580, micros: 580, centimeters: 10 })
    );
    assert_eq!(
        timed_by_hardware(true, 0),
        Some(Measurement { ticks: 0, micros: 0, centimeters: 0 })
    );
    assert_eq!(timed_by_hardware(true, u32::MAX).unwrap().centimeters, 74_051_160);
}

#[test]
fn hardware_timed_stop_without_start_reports_nothing() {
    assert_eq!(timed_by_hardware(false, 580), None);
    assert_eq!(timed_by_hardware(false, 0), None);
}
