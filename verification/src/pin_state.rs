//! Digital pin levels.

use vstd::prelude::*;

verus! {

/// A digital pin level.
#[derive(Clone, Copy, Debug, PartialEq, Eq, Structural)]
pub enum PinState {
    /// Low pin level.
    Low,
    /// High pin level.
    High,
}

impl PinState {
    /// The level for a boolean, `true` being high.
    pub fn from_bool(value: bool) -> (state: PinState)
        ensures
            state == (if value { PinState::High } else { PinState::Low }),
    {
        if value {
            PinState::High
        } else {
            PinState::Low
        }
    }

    /// Whether the level is high.
    pub fn is_high(self) -> (high: bool)
        ensures
            high == (self == PinState::High),
    {
        match self {
            PinState::High => true,
            PinState::Low => false,
        }
    }

    /// The opposite level.
    pub fn inverted(self) -> (state: PinState)
        ensures
            state != self,
    {
        match self {
            PinState::High => PinState::Low,
            PinState::Low => PinState::High,
        }
    }
}

} // verus!
