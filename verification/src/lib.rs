//! Timing support for small interrupt-driven firmware: a 32-bit monotonic
//! tick clock and the pipelines that turn raw pin edges into debounced
//! presses and measured pulse widths.
//!
//! - [`time`]: instants and durations of a wrapping tick counter, the span
//!   between two readings, and its conversion to microseconds, milliseconds
//!   and centimetres of echo distance.
//! - [`mono`]: the clock on a hardware timer, with its alarm.
//! - [`sim`]: a timer held in memory, to run the clock without hardware.
//! - [`pulse`]: pulse-width timing from an active edge to the inactive one.
//! - [`debounce`]: one report for a burst of edges from a contact.
//! - [`sched`]: the one-slot queue of the scheduler that the debouncer asks.
//! - [`trigger`]: the steps of the stimulus pulse.
//! - [`line`]: telling apart two inputs that share an interrupt.
//! - [`sdmmc`]: the time that files on the SD card are stamped with.
//!
//! Nothing here touches a pin or a scheduler. Handlers hand in what they
//! sampled and the instant they read, and get back what to report and what
//! to ask the scheduler for. State that a handler and a scheduled callback
//! share goes behind whatever exclusion the surrounding framework offers:
//! every operation that changes it takes it by `&mut`.

pub mod debounce;
pub mod line;
pub mod mono;
pub mod pulse;
pub mod sched;
pub mod sdmmc;
pub mod sim;
pub mod time;
pub mod trigger;
