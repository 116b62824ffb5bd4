use nrf_play::time::{distance_cm, elapsed, Duration, Instant, MICROS_PER_CM};

fn span(from: u32, to: u32) -> u32 {
    elapsed(Instant::from_ticks(from), Instant::from_ticks(to)).ticks()
}

#[test]
fn elapsed_without_wrap_is_the_difference() {
    assert_eq!(span(1000, 1580), 580);
    assert_eq!(span(0, u32::MAX), u32::MAX);
}

#[test]
fn elapsed_of_equal_instants_is_zero() {
    assert_eq!(span(0, 0), 0);
    assert_eq!(span(77, 77), 0);
    assert_eq!(span(u32::MAX, u32::MAX), 0);
}

#[test]
fn elapsed_across_the_wrap_counts_on() {
    assert_eq!(span(u32::MAX - 49, 30), 80);
    assert_eq!(span(u32::MAX, 0), 1);
}

#[test]
fn elapsed_at_the_edge_of_half_range() {
    assert_eq!(span(0, 0x7fff_ffff), 0x7fff_ffff);
    assert_eq!(span(0, 0x8000_0000), 0x8000_0000);
    assert_eq!(span(5, 0x8000_0004), 0x7fff_ffff);
    assert_eq!(span(5, 0x8000_0005), 0x8000_0000);
}

#[test]
fn elapsed_beyond_half_range_is_the_wrapped_count() {
    assert_eq!(span(10, 5), u32::MAX - 4);
    assert_eq!(span(1, 0), u32::MAX);
    assert_eq!(span(0x9000_0000, 0x1000_0000), 0x8000_0000);
}

#[test]
fn elapsed_equals_the_true_tick_count_below_half_range() {
    let starts: [u64; 6] = [0, 1, 0x7fff_ffff, 0xffff_ffce, 0xffff_ffff, 0x3_0000_0010];
    let spans: [u64; 6] = [0, 1, 80, 0x1_0000, 0x7fff_fffe, 0x7fff_ffff];
    for t0 in starts {
        for d in spans {
            let t1 = t0 + d;
            assert_eq!(span(t0 as u32, t1 as u32) as u64, d);
        }
    }
}

#[test]
fn elapsed_agrees_with_the_instants_of_fugit() {
    let pairs: [(u32, u32); 5] =
        [(0, 0), (1000, 1580), (u32::MAX - 49, 30), (7, 0x8000_0006), (u32::MAX, 0)];
    for (from, to) in pairs {
        let a = fugit::Instant::<u32, 1, 1_000_000>::from_ticks(from);
        let b = fugit::Instant::<u32, 1, 1_000_000>::from_ticks(to);
        assert_eq!(span(from, to), (b - a).ticks());
    }
}

#[test]
fn micros_at_one_megahertz_are_the_ticks() {
    assert_eq!(Duration::from_ticks(580).to_micros::<1_000_000>(), Some(580));
    assert_eq!(Duration::from_ticks(u32::MAX).to_micros::<1_000_000>(), Some(u32::MAX));
    assert_eq!(Duration::from_ticks(0).to_micros::<1_000_000>(), Some(0));
}

#[test]
fn micros_at_sixty_four_megahertz_truncate() {
    assert_eq!(Duration::from_ticks(640).to_micros::<64_000_000>(), Some(10));
    assert_eq!(Duration::from_ticks(127).to_micros::<64_000_000>(), Some(1));
    assert_eq!(Duration::from_ticks(63).to_micros::<64_000_000>(), Some(0));
    assert_eq!(Duration::from_ticks(37_120).to_micros::<64_000_000>(), Some(580));
    assert_eq!(Duration::from_ticks(u32::MAX).to_micros::<64_000_000>(), Some(67_108_863));
}

#[test]
fn micros_at_an_odd_rate_truncate() {
    // 7 ticks at 3 Hz are 2.333.. s
    assert_eq!(Duration::from_ticks(7).to_micros::<3>(), Some(2_333_333));
    assert_eq!(Duration::from_ticks(1).to_micros::<3>(), Some(333_333));
    assert_eq!(Duration::from_ticks(2).to_micros::<3>(), Some(666_666));
}

#[test]
fn micros_that_do_not_fit_are_refused() {
    assert_eq!(Duration::from_ticks(4_294_967).to_micros::<1_000>(), Some(4_294_967_000));
    assert_eq!(Duration::from_ticks(4_294_968).to_micros::<1_000>(), None);
    assert_eq!(Duration::from_ticks(u32::MAX).to_micros::<1_000>(), None);
    assert_eq!(Duration::from_ticks(4_295).to_micros::<1>(), None);
    assert_eq!(Duration::from_ticks(4_294).to_micros::<1>(), Some(4_294_000_000));
}

#[test]
fn millis_truncate() {
    assert_eq!(Duration::from_ticks(64_000).to_millis::<64_000_000>(), Some(1));
    assert_eq!(Duration::from_ticks(63_999).to_millis::<64_000_000>(), Some(0));
    assert_eq!(Duration::from_ticks(1_999).to_millis::<1_000_000>(), Some(1));
    assert_eq!(Duration::from_ticks(250).to_millis::<1_000>(), Some(250));
    assert_eq!(Duration::from_ticks(u32::MAX).to_millis::<1_000>(), Some(u32::MAX));
}

#[test]
fn millis_that_do_not_fit_are_refused() {
    assert_eq!(Duration::from_ticks(4_294_967).to_millis::<1>(), Some(4_294_967_000));
    assert_eq!(Duration::from_ticks(4_294_968).to_millis::<1>(), None);
}

#[test]
fn centimetres_are_micros_over_fifty_eight() {
    assert_eq!(MICROS_PER_CM, 58);
    assert_eq!(distance_cm(580), 10);
    assert_eq!(distance_cm(0), 0);
    assert_eq!(distance_cm(57), 0);
    assert_eq!(distance_cm(58), 1);
    assert_eq!(distance_cm(115), 1);
    assert_eq!(distance_cm(116), 2);
    assert_eq!(distance_cm(u32::MAX), 74_051_160);
}

#[test]
fn instants_and_durations_keep_their_ticks() {
    assert_eq!(Instant::from_ticks(42).ticks(), 42);
    assert_eq!(Duration::from_ticks(42).ticks(), 42);
    assert_eq!(Instant::from_ticks(42), Instant { ticks: 42 });
    assert_ne!(Instant::from_ticks(42), Instant::from_ticks(43));
}
