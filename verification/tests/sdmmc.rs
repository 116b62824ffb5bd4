use nrf_play::sdmmc::{SdMmcClock, Timestamp};

#[test]
fn files_are_stamped_with_the_epoch() {
    let clock = SdMmcClock;
    let expected = Timestamp {
        year_since_1970: 0,
        zero_indexed_month: 0,
        zero_indexed_day: 0,
        hours: 0,
        minutes: 0,
        seconds: 0,
    };
    assert_eq!(clock.get_timestamp(), expected);
    assert_eq!(clock.get_timestamp(), clock.get_timestamp());
}
