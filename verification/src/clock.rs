//! Clock tree: PLL configuration arithmetic, the register-level state of the
//! clock controller, and the startup routine that brings the system clock
//! from the internal oscillator to the PLL.

use vstd::prelude::*;
use crate::flash::{min_wait_states, required_wait_states, VoltageRange};

verus! {

/// Frequency of the internal high-speed oscillator that feeds the PLL.
pub const HSI_FREQ_HZ: u32 = 16_000_000;

/// Fixed divider between the oscillator and the PLL's phase comparator.
pub const PLL_INPUT_DIV: u32 = 16;

/// Rated maximum system-clock frequency of the part.
pub const SYSCLK_MAX_HZ: u32 = 84_000_000;

/// Rated maximum frequency of the low-speed peripheral bus (APB1).
pub const APB1_MAX_HZ: u32 = 42_000_000;

/// System-clock source, both as requested by the selector field and as
/// confirmed by its status mirror.
#[derive(Clone, Copy, Debug, PartialEq, Eq, Structural)]
pub enum ClockSource {
    /// The internal high-speed oscillator (the reset source).
    Hsi,
    /// The PLL output.
    Pll,
}

/// PLL output frequency: (input / input-divider) * multiplier / output-divider.
pub open spec fn pll_output_hz(mult: nat, out_div: nat) -> nat
    recommends
        out_div > 0,
{
    (HSI_FREQ_HZ as nat / PLL_INPUT_DIV as nat) * mult / out_div
}

/// The documented numeric ranges of the PLL multiplier and output-divider
/// fields. Values outside them leave the hardware undefined or clamped.
pub open spec fn legal_pll_fields(mult: nat, out_div: nat) -> bool {
    &&& 50 <= mult <= 432
    &&& (out_div == 2 || out_div == 4 || out_div == 6 || out_div == 8)
}

/// The division factors the APB1 prescaler field can encode.
pub open spec fn legal_apb1_div(apb1_div: nat) -> bool {
    apb1_div == 1 || apb1_div == 2 || apb1_div == 4 || apb1_div == 8 || apb1_div == 16
}

/// A (multiplier, output-divider, bus-prescaler) combination the configurator
/// accepts: every field within its documented range, and the derived core and
/// bus frequencies within the device's ratings.
pub open spec fn accepted_config(mult: nat, out_div: nat, apb1_div: nat) -> bool {
    &&& legal_pll_fields(mult, out_div)
    &&& legal_apb1_div(apb1_div)
    &&& pll_output_hz(mult, out_div) <= SYSCLK_MAX_HZ
    &&& pll_output_hz(mult, out_div) / apb1_div <= APB1_MAX_HZ
}

/// Input clock of the timers hanging off APB1: the bus clock itself when the
/// bus is undivided, twice the bus clock otherwise (the hardware feeds APB1
/// timers at 2x the bus clock whenever the prescaler is not 1).
pub open spec fn apb1_timer_clock_hz(sysclk: nat, apb1_div: nat) -> nat
    recommends
        apb1_div > 0,
{
    if apb1_div == 1 {
        sysclk
    } else {
        2 * (sysclk / apb1_div)
    }
}

/// Timer input clock that an accepted configuration yields once the PLL is
/// the system clock.
pub open spec fn target_timer_clock_hz(mult: nat, out_div: nat, apb1_div: nat) -> nat
    recommends
        out_div > 0,
        apb1_div > 0,
{
    apb1_timer_clock_hz(pll_output_hz(mult, out_div), apb1_div)
}

/// Validated PLL frequency computation: `Some` exactly on the accepted
/// configurations, and then the formula's value, within both ratings.
pub fn compute_sysclk(mult: u32, out_div: u32, apb1_div: u32) -> (r: Option<u32>)
    ensures
        r is Some <==> accepted_config(mult as nat, out_div as nat, apb1_div as nat),
        r matches Some(hz) ==> {
            &&& hz == pll_output_hz(mult as nat, out_div as nat)
            &&& hz <= SYSCLK_MAX_HZ
            &&& hz as nat / apb1_div as nat <= APB1_MAX_HZ
        },
{
    let legal: bool = 50 <= mult && mult <= 432
        && (out_div == 2 || out_div == 4 || out_div == 6 || out_div == 8)
        && (apb1_div == 1 || apb1_div == 2 || apb1_div == 4 || apb1_div == 8 || apb1_div == 16);
    if !legal {
        return None;
    }
    let vco_in: u32 = HSI_FREQ_HZ / PLL_INPUT_DIV;
    let sysclk: u32 = vco_in * mult / out_div;
    if sysclk > SYSCLK_MAX_HZ {
        return None;
    }
    if sysclk / apb1_div > APB1_MAX_HZ {
        return None;
    }
    Some(sysclk)
}

/// Every accepted configuration yields a frequency that is exactly the PLL
/// formula's value and falls within the rated maxima of core and bus.
pub proof fn lemma_accepted_config_within_rating(mult: nat, out_div: nat, apb1_div: nat)
    requires
        accepted_config(mult, out_div, apb1_div),
    ensures
        pll_output_hz(mult, out_div) <= SYSCLK_MAX_HZ,
        pll_output_hz(mult, out_div) / apb1_div <= APB1_MAX_HZ,
{
}

/// Register-level state of the clock controller and the flash interface's
/// wait-state field, plus the board's supply-voltage band (fixed at power-on,
/// needed to key the wait-state table).
pub struct ClockTree {
    /// PLL multiplier field.
    pub pll_mult: u32,
    /// PLL output-divider field.
    pub pll_out_div: u32,
    /// APB1 prescaler division factor.
    pub apb1_div: u32,
    /// PLL enable bit.
    pub pll_on: bool,
    /// PLL ready (locked) flag; set by hardware once the PLL locks.
    pub pll_ready: bool,
    /// System-clock source selector (what software requested).
    pub sysclk_switch: ClockSource,
    /// System-clock source status (what hardware confirmed).
    pub sysclk_status: ClockSource,
    /// Programmed flash wait-state count.
    pub flash_wait_states: u8,
    /// Supply-voltage band of the board.
    pub voltage: VoltageRange,
}

impl ClockTree {
    /// The PLL output frequency the current register fields encode.
    pub open spec fn pll_configured_hz(self) -> nat {
        pll_output_hz(self.pll_mult as nat, self.pll_out_div as nat)
    }

    /// The system-clock frequency actually in effect, by the confirmed source.
    pub open spec fn sysclk_hz(self) -> nat {
        if self.sysclk_status == ClockSource::Pll {
            self.pll_configured_hz()
        } else {
            HSI_FREQ_HZ as nat
        }
    }

    /// APB1 bus frequency in effect.
    pub open spec fn apb1_hz(self) -> nat {
        self.sysclk_hz() / self.apb1_div as nat
    }

    /// Input-clock frequency of the timers on APB1.
    pub open spec fn timer_clock_hz(self) -> nat {
        apb1_timer_clock_hz(self.sysclk_hz(), self.apb1_div as nat)
    }

    /// Power-on reset state: oscillator selected and confirmed, PLL off,
    /// zero wait states.
    pub open spec fn is_reset(self) -> bool {
        &&& !self.pll_on
        &&& !self.pll_ready
        &&& self.sysclk_switch == ClockSource::Hsi
        &&& self.sysclk_status == ClockSource::Hsi
        &&& self.flash_wait_states == 0
        &&& self.apb1_div == 1
    }

    /// Safety invariant of the clock switch. The selector may point at the
    /// PLL only once the PLL has locked, with register fields in range, the
    /// resulting frequency within rating, and the flash wait states already
    /// sufficient for it (a switch before any of these risks a dead or
    /// fetch-corrupting core); the status mirror can confirm only what was
    /// selected.
    pub open spec fn wf(self) -> bool {
        &&& self.apb1_div > 0
        &&& self.sysclk_switch == ClockSource::Pll ==> {
            &&& self.pll_ready
            &&& self.pll_on
            &&& legal_pll_fields(self.pll_mult as nat, self.pll_out_div as nat)
            &&& self.pll_configured_hz() <= SYSCLK_MAX_HZ
            &&& self.flash_wait_states >= min_wait_states(self.pll_configured_hz(), self.voltage)
        }
        &&& self.sysclk_status == ClockSource::Pll ==> self.sysclk_switch == ClockSource::Pll
    }

    /// Construct the power-on reset state for a board in voltage band `v`.
    pub fn power_on_reset(v: VoltageRange) -> (c: ClockTree)
        ensures
            c.is_reset(),
            c.wf(),
            c.voltage == v,
    {
        ClockTree {
            pll_mult: 192,
            pll_out_div: 2,
            apb1_div: 1,
            pll_on: false,
            pll_ready: false,
            sysclk_switch: ClockSource::Hsi,
            sysclk_status: ClockSource::Hsi,
            flash_wait_states: 0,
            voltage: v,
        }
    }

    /// Program the PLL multiplier and output divider. The PLL must be off
    /// (hardware forbids reprogramming a running PLL) and the system clock
    /// must still be on the oscillator.
    pub fn set_pll_dividers(&mut self, mult: u32, out_div: u32)
        requires
            !old(self).pll_on,
            old(self).sysclk_switch == ClockSource::Hsi,
            old(self).sysclk_status == ClockSource::Hsi,
            legal_pll_fields(mult as nat, out_div as nat),
        ensures
            *final(self) == (ClockTree { pll_mult: mult, pll_out_div: out_div, ..*old(self) }),
    {
        self.pll_mult = mult;
        self.pll_out_div = out_div;
    }

    /// Program the APB1 prescaler so the derived bus clock stays within the
    /// bus's rated maximum once the PLL becomes the system clock.
    pub fn set_apb1_prescaler(&mut self, apb1_div: u32)
        requires
            legal_apb1_div(apb1_div as nat),
            old(self).pll_configured_hz() / apb1_div as nat <= APB1_MAX_HZ,
        ensures
            *final(self) == (ClockTree { apb1_div: apb1_div, ..*old(self) }),
    {
        self.apb1_div = apb1_div;
    }

    /// Turn the PLL on.
    pub fn enable_pll(&mut self)
        ensures
            *final(self) == (ClockTree { pll_on: true, ..*old(self) }),
    {
        self.pll_on = true;
    }

    /// Hardware oscillator model: one observation step, in which an enabled
    /// PLL locks. The simulated PLL locks on the first observation after
    /// enable; real hardware may take arbitrarily many.
    pub fn hw_pll_lock_step(&mut self)
        ensures
            *final(self) == (ClockTree {
                pll_ready: old(self).pll_ready || old(self).pll_on,
                ..*old(self)
            }),
    {
        if self.pll_on {
            self.pll_ready = true;
        }
    }

    /// Busy-wait on the PLL-ready flag. Deliberately without a timeout: no
    /// fallback clock path exists, so a PLL that never locks leaves the
    /// device spinning here (fail-stop).
    pub fn wait_pll_ready(&mut self)
        requires
            old(self).pll_on,
        ensures
            *final(self) == (ClockTree { pll_ready: true, ..*old(self) }),
    {
        while !self.pll_ready
            invariant
                *self == (ClockTree { pll_ready: self.pll_ready, ..*old(self) }),
                self.pll_on,
            decreases (if self.pll_ready { 0int } else { 1int }),
        {
            self.hw_pll_lock_step();
        }
    }

    /// The PLL output frequency the register fields encode, computed in
    /// executable code.
    pub fn pll_output(&self) -> (hz: u32)
        requires
            legal_pll_fields(self.pll_mult as nat, self.pll_out_div as nat),
        ensures
            hz == self.pll_configured_hz(),
    {
        let vco_in: u32 = HSI_FREQ_HZ / PLL_INPUT_DIV;
        vco_in * self.pll_mult / self.pll_out_div
    }

    /// Input-clock frequency of the APB1 timers, computed in executable
    /// code once the PLL is the confirmed system clock.
    pub fn timer_input_clock(&self) -> (hz: u32)
        requires
            self.wf(),
            self.sysclk_status == ClockSource::Pll,
            legal_apb1_div(self.apb1_div as nat),
        ensures
            hz == self.timer_clock_hz(),
    {
        let sysclk: u32 = self.pll_output();
        if self.apb1_div == 1 {
            sysclk
        } else {
            2 * (sysclk / self.apb1_div)
        }
    }

    /// Program the flash wait states required for the configured PLL
    /// frequency in this board's voltage band, consulting the wait-state
    /// table; done ahead of the switch so fetches stay correct at speed.
    pub fn set_flash_latency(&mut self)
        requires
            legal_pll_fields(old(self).pll_mult as nat, old(self).pll_out_div as nat),
            old(self).pll_configured_hz() <= SYSCLK_MAX_HZ,
        ensures
            *final(self) == (ClockTree {
                flash_wait_states: final(self).flash_wait_states,
                ..*old(self)
            }),
            final(self).flash_wait_states == min_wait_states(
                old(self).pll_configured_hz(),
                old(self).voltage,
            ),
    {
        let hz: u32 = self.pll_output();
        let ws: u8 = required_wait_states(hz, self.voltage);
        self.flash_wait_states = ws;
    }

    /// Switch the system-clock source selector to the PLL. The preconditions
    /// are the safety invariant's demands: locked PLL, fields in range,
    /// frequency within rating, wait states already sufficient.
    pub fn select_pll(&mut self)
        requires
            old(self).pll_on,
            old(self).pll_ready,
            legal_pll_fields(old(self).pll_mult as nat, old(self).pll_out_div as nat),
            old(self).pll_configured_hz() <= SYSCLK_MAX_HZ,
            old(self).flash_wait_states >= min_wait_states(
                old(self).pll_configured_hz(),
                old(self).voltage,
            ),
        ensures
            *final(self) == (ClockTree { sysclk_switch: ClockSource::Pll, ..*old(self) }),
    {
        self.sysclk_switch = ClockSource::Pll;
    }

    /// Hardware clock-switch model: one observation step, in which a
    /// requested source whose readiness condition holds becomes the
    /// confirmed source.
    pub fn hw_switch_step(&mut self)
        ensures
            *final(self) == (ClockTree {
                sysclk_status: (if old(self).sysclk_switch == ClockSource::Pll
                        && old(self).pll_ready {
                    ClockSource::Pll
                } else if old(self).sysclk_switch == ClockSource::Hsi {
                    ClockSource::Hsi
                } else {
                    old(self).sysclk_status
                }),
                ..*old(self)
            }),
    {
        if self.sysclk_switch == ClockSource::Pll {
            if self.pll_ready {
                self.sysclk_status = ClockSource::Pll;
            }
        } else {
            self.sysclk_status = ClockSource::Hsi;
        }
    }

    /// Busy-wait until the status field confirms the PLL as system clock.
    /// Deliberately without a timeout, like the PLL-ready wait.
    pub fn wait_sysclk_is_pll(&mut self)
        requires
            old(self).sysclk_switch == ClockSource::Pll,
            old(self).pll_ready,
        ensures
            *final(self) == (ClockTree { sysclk_status: ClockSource::Pll, ..*old(self) }),
    {
        while !(self.sysclk_status == ClockSource::Pll)
            invariant
                *self == (ClockTree { sysclk_status: self.sysclk_status, ..*old(self) }),
                self.sysclk_switch == ClockSource::Pll,
                self.pll_ready,
            decreases (if self.sysclk_status == ClockSource::Pll { 0int } else { 1int }),
        {
            self.hw_switch_step();
        }
    }

    /// The whole clock-configuration startup routine, from the reset state:
    /// program PLL fields and bus prescaler, enable the PLL and spin until
    /// it locks, program the flash wait states from the table, switch the
    /// system clock to the PLL and spin until the switch is confirmed.
    pub fn configure_clock(&mut self, mult: u32, out_div: u32, apb1_div: u32)
        requires
            old(self).is_reset(),
            accepted_config(mult as nat, out_div as nat, apb1_div as nat),
        ensures
            final(self).pll_mult == mult,
            final(self).pll_out_div == out_div,
            final(self).apb1_div == apb1_div,
            final(self).pll_on,
            final(self).pll_ready,
            final(self).sysclk_switch == ClockSource::Pll,
            final(self).sysclk_status == ClockSource::Pll,
            final(self).voltage == old(self).voltage,
            final(self).flash_wait_states == min_wait_states(
                pll_output_hz(mult as nat, out_div as nat),
                old(self).voltage,
            ),
            final(self).sysclk_hz() == pll_output_hz(mult as nat, out_div as nat),
            final(self).sysclk_hz() <= SYSCLK_MAX_HZ,
            final(self).apb1_hz() <= APB1_MAX_HZ,
            final(self).wf(),
    {
        self.set_pll_dividers(mult, out_div);
        self.set_apb1_prescaler(apb1_div);
        self.enable_pll();
        self.wait_pll_ready();
        self.set_flash_latency();
        self.select_pll();
        self.wait_sysclk_is_pll();
    }
}

} // verus!
