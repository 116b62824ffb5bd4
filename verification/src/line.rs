//! An interrupt line that the echo input and the button share.

use vstd::prelude::*;

verus! {

/// Which input an interrupt on the shared line is handled for.
#[derive(Clone, Copy, Debug, PartialEq, Eq, Structural)]
pub enum Source {
    /// The echo input changed level.
    Echo,
    /// The button contact moved.
    Button,
}

/// The input to handle, given the event flag of the echo's channel.
pub open spec fn spec_dispatch(echo_event: bool) -> Source {
    if echo_event {
        Source::Echo
    } else {
        Source::Button
    }
}

/// Tells the two inputs of the line apart by the event flag of the echo's
/// channel, read before any flag is cleared: a set flag means the echo, a
/// clear one leaves only the button. Every interrupt is handled for exactly
/// one of the two. The caller clears the flag of the source returned; where
/// it clears no other, a button edge that came together with the echo keeps
/// the line raised and is handled by the next entry.
pub fn dispatch(echo_event: bool) -> (source: Source)
    ensures
        source == spec_dispatch(echo_event),
{
    if echo_event {
        Source::Echo
    } else {
        Source::Button
    }
}

} // verus!
