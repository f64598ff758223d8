//! One GPIO output pin: port clock gate, mode-select field, output-data bit.

use vstd::prelude::*;

verus! {

/// Register-level state of one GPIO pin.
pub struct GpioPin {
    /// Port clock gate; registers may be touched only while it is open.
    pub clock_enabled: bool,
    /// Mode-select field: true once the pin is configured as an output.
    pub mode_output: bool,
    /// Output-data bit.
    pub odr: bool,
}

impl GpioPin {
    /// Reset state: clock gated, pin not an output, data bit low.
    pub open spec fn is_reset(self) -> bool {
        &&& !self.clock_enabled
        &&& !self.mode_output
        &&& !self.odr
    }

    /// The level the pin drives externally: observable only once the pin is
    /// configured as an output, the data bit before that has no effect.
    pub open spec fn driven_level(self) -> Option<bool> {
        if self.mode_output {
            Some(self.odr)
        } else {
            None
        }
    }

    /// Construct a pin in its reset state.
    pub fn at_reset() -> (p: GpioPin)
        ensures
            p.is_reset(),
    {
        GpioPin { clock_enabled: false, mode_output: false, odr: false }
    }

    /// Open the port's bus clock gate; must precede every register access.
    pub fn enable_clock(&mut self)
        ensures
            *final(self) == (GpioPin { clock_enabled: true, ..*old(self) }),
    {
        self.clock_enabled = true;
    }

    /// Configure the pin as an output, after which the data bit drives it.
    pub fn set_mode_output(&mut self)
        requires
            old(self).clock_enabled,
        ensures
            *final(self) == (GpioPin { mode_output: true, ..*old(self) }),
    {
        self.mode_output = true;
    }

    /// Read-modify-write toggle: write back the complement of the current
    /// output-data bit.
    pub fn toggle(&mut self)
        requires
            old(self).clock_enabled,
        ensures
            *final(self) == (GpioPin { odr: !old(self).odr, ..*old(self) }),
    {
        self.odr = !self.odr;
    }

    /// Current value of the output-data bit.
    pub fn is_high(&self) -> (b: bool)
        ensures
            b == self.odr,
    {
        self.odr
    }
}

} // verus!
