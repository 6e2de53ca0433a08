//! The board's user LED, driven from its dedicated pin.

use vstd::prelude::*;
use crate::pins::{PinHandle, PinMode};

verus! {

/// The user LED. Owns its pin exclusively, reconfigured as a push-pull
/// output.
pub struct LedUser {
    pin: PinHandle,
    lit: bool,
}

impl LedUser {
    /// The LED pin is the documented one (port C, pin 7), held in output
    /// mode.
    pub open spec fn wf(self) -> bool {
        &&& self.pin_spec().port_spec() == 2
        &&& self.pin_spec().index_spec() == 7
        &&& self.pin_spec().mode_spec() == PinMode::Output
    }

    /// The pin the LED drives.
    pub closed spec fn pin_spec(self) -> PinHandle {
        self.pin
    }

    /// Whether the LED is currently driven on.
    pub closed spec fn is_lit(self) -> bool {
        self.lit
    }

    /// Takes ownership of the LED pin and reconfigures it as an output,
    /// initially off.
    pub fn new(pin: PinHandle) -> (r: LedUser)
        requires
            pin.port_spec() == 2,
            pin.index_spec() == 7,
        ensures
            r.wf(),
            !r.is_lit(),
    {
        LedUser { pin: pin.into_push_pull_output(), lit: false }
    }

    /// Drives the LED on.
    pub fn on(&mut self)
        ensures
            final(self).is_lit(),
            final(self).pin_spec() == old(self).pin_spec(),
    {
        self.lit = true;
    }

    /// Drives the LED off.
    pub fn off(&mut self)
        ensures
            !final(self).is_lit(),
            final(self).pin_spec() == old(self).pin_spec(),
    {
        self.lit = false;
    }

    /// Whether the LED is currently driven on.
    pub fn lit(&self) -> (r: bool)
        ensures
            r == self.is_lit(),
    {
        self.lit
    }
}

/// All of the board's LEDs.
#[allow(non_snake_case)]
pub struct Leds {
    pub USER: LedUser,
}

} // verus!
