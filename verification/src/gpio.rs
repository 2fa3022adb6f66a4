//! Pins.

use vstd::prelude::*;

verus! {

/// A pin that a driver has claimed, by its pad number.
#[derive(Debug, Copy, Clone, PartialEq, Eq, Structural)]
pub struct AnyPin {
    /// The number of the pin's pad.
    pub pin_pad: u16,
}

} // verus!
