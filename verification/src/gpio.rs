//! The LED output: which pin a LED sits on, and which bit of the pin's
//! set/reset register drives it to a level.

use vstd::prelude::*;

verus! {

/// Index of the pin that the green LED is wired to.
pub const GREEN_LED_PIN: u8 = 1;

/// The LEDs of the board.
#[derive(Clone, Copy, Debug, PartialEq, Eq, Structural)]
pub enum Led {
    /// The green user LED.
    GreenLed,
}

/// A write to the set/reset register of a LED's pin.
#[derive(Clone, Copy, Debug, PartialEq, Eq, Structural)]
pub enum PinWrite {
    /// Write the pin's "set" bit: the output goes high.
    High(Led),
    /// Write the pin's "reset" bit: the output goes low.
    Low(Led),
}

/// The pins of the board.
#[derive(Clone, Copy, Debug, PartialEq, Eq, Structural)]
pub struct GpioPins {}

impl Led {
    /// The index of the pin that this LED is wired to.
    pub open spec fn spec_pin(self) -> u8 {
        match self {
            Led::GreenLed => GREEN_LED_PIN,
        }
    }

    /// Returns the index of the pin that this LED is wired to.
    pub fn pin(self) -> (p: u8)
        ensures
            p == self.spec_pin(),
    {
        match self {
            Led::GreenLed => GREEN_LED_PIN,
        }
    }

    /// Finds the LED that is wired to pin `pin`, if there is one.
    pub fn from_pin(pin: u8) -> (led: Option<Led>)
        ensures
            led is Some <==> pin == GREEN_LED_PIN,
            led matches Some(l) ==> l.spec_pin() == pin,
    {
        if pin == GREEN_LED_PIN {
            Some(Led::GreenLed)
        } else {
            None
        }
    }
}

impl GpioPins {
    /// The register write that drives pin `pin` to `value`.
    pub open spec fn spec_output(pin: u8, value: bool) -> PinWrite {
        if value {
            PinWrite::High(Led::GreenLed)
        } else {
            PinWrite::Low(Led::GreenLed)
        }
    }

    /// Returns the register write that drives pin `pin` to `value`. Only the
    /// pin of a LED can be driven.
    pub fn output(pin: u8, value: bool) -> (write: PinWrite)
        requires
            pin == GREEN_LED_PIN,
        ensures
            write == Self::spec_output(pin, value),
    {
        if value {
            PinWrite::High(Led::GreenLed)
        } else {
            PinWrite::Low(Led::GreenLed)
        }
    }
}

} // verus!
