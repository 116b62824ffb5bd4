//! The time that files on the SD card are stamped with.

use vstd::prelude::*;

verus! {

/// A calendar time as the card's file system counts it.
#[derive(Clone, Copy, Debug, PartialEq, Eq, Structural)]
pub struct Timestamp {
    /// Years since 1970.
    pub year_since_1970: u8,
    /// The month, counted from zero.
    pub zero_indexed_month: u8,
    /// The day of the month, counted from zero.
    pub zero_indexed_day: u8,
    /// Hours past midnight.
    pub hours: u8,
    /// Minutes past the hour.
    pub minutes: u8,
    /// Seconds past the minute.
    pub seconds: u8,
}

/// The first instant that the file system can name: midnight of 1 January 1970.
pub open spec fn epoch() -> Timestamp {
    Timestamp {
        year_since_1970: 0,
        zero_indexed_month: 0,
        zero_indexed_day: 0,
        hours: 0,
        minutes: 0,
        seconds: 0,
    }
}

/// The time source of a board that has no calendar clock: it is always the epoch.
pub struct SdMmcClock;

impl SdMmcClock {
    /// The time to stamp a file with.
    pub fn get_timestamp(&self) -> (now: Timestamp)
        ensures
            now == epoch(),
    {
        Timestamp {
            year_since_1970: 0,
            zero_indexed_month: 0,
            zero_indexed_day: 0,
            hours: 0,
            minutes: 0,
            seconds: 0,
        }
    }
}

} // verus!
