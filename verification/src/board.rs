//! The whole device: clock tree, timer, output pin and the interrupt
//! controller's mask bit, with the startup sequence, the timer interrupt
//! handler, and a simulated delivery of update events.

use vstd::prelude::*;
use crate::clock::{
    accepted_config, legal_apb1_div, pll_output_hz, target_timer_clock_hz, ClockSource, ClockTree,
};
use crate::flash::{min_wait_states, VoltageRange};
use crate::gpio::GpioPin;
use crate::timer::{tick_rate_hz, Timer};

verus! {

/// Process-wide hardware state: one clock tree, one timer, one output pin,
/// and the timer's unmask bit at the interrupt controller. Owned in one
/// place and passed by reference, so the handler stays the pin's only
/// writer after startup.
pub struct Board {
    /// Clock controller and flash wait-state field.
    pub clock: ClockTree,
    /// The periodic timer.
    pub tim: Timer,
    /// The toggled output pin.
    pub pin: GpioPin,
    /// Whether the timer's line at the interrupt controller is unmasked.
    pub tim_irq_unmasked: bool,
}

impl Board {
    /// Power-on state: every block at its reset values, interrupt masked.
    pub open spec fn is_power_on(self) -> bool {
        &&& self.clock.is_reset()
        &&& self.tim.is_reset()
        &&& self.pin.is_reset()
        &&& !self.tim_irq_unmasked
    }

    /// The armed steady state after startup: clock switched to the PLL (and
    /// its safety invariant intact), timer counting with its update
    /// interrupt enabled and unmasked, pin an output with its port clock on.
    pub open spec fn running(self) -> bool {
        &&& self.clock.wf()
        &&& self.clock.sysclk_status == ClockSource::Pll
        &&& self.tim.clock_enabled
        &&& self.tim.uie
        &&& self.tim.cen
        &&& self.tim_irq_unmasked
        &&& self.pin.clock_enabled
        &&& self.pin.mode_output
    }

    /// Construct a board at power-on, in voltage band `v`.
    pub fn power_on(v: VoltageRange) -> (b: Board)
        ensures
            b.is_power_on(),
            b.clock.voltage == v,
    {
        Board {
            clock: ClockTree::power_on_reset(v),
            tim: Timer::at_reset(),
            pin: GpioPin::at_reset(),
            tim_irq_unmasked: false,
        }
    }

    /// Unmask the timer's line at the interrupt controller.
    pub fn unmask_timer_interrupt(&mut self)
        ensures
            *final(self) == (Board { tim_irq_unmasked: true, ..*old(self) }),
    {
        self.tim_irq_unmasked = true;
    }

    /// Arm the periodic timer off the configured timer clock. The interrupt
    /// line must already be unmasked: update events raised while the line
    /// is masked are silently dropped by the controller, not deferred, so
    /// unmask-before-counter-enable is a startup-ordering invariant; it is
    /// enforced here as a precondition.
    pub fn arm_timer(&mut self, tick_hz: u32, period_s: u32)
        requires
            old(self).tim_irq_unmasked,
            old(self).clock.wf(),
            old(self).clock.sysclk_status == ClockSource::Pll,
            legal_apb1_div(old(self).clock.apb1_div as nat),
            0 < tick_hz <= old(self).clock.timer_clock_hz(),
            old(self).clock.timer_clock_hz() % tick_hz as nat == 0,
            1 <= tick_hz * period_s <= u32::MAX,
        ensures
            final(self).clock == old(self).clock,
            final(self).pin == old(self).pin,
            final(self).tim_irq_unmasked == old(self).tim_irq_unmasked,
            final(self).tim.clock_enabled,
            final(self).tim.uie,
            final(self).tim.cen,
            final(self).tim.uif == old(self).tim.uif,
            final(self).tim.psc == old(self).clock.timer_clock_hz() / tick_hz as nat - 1,
            final(self).tim.arr == tick_hz * period_s - 1,
            tick_rate_hz(old(self).clock.timer_clock_hz(), final(self).tim.psc as nat)
                == tick_hz,
            final(self).tim.period_input_ticks() == old(self).clock.timer_clock_hz() * period_s,
    {
        let bus_hz: u32 = self.clock.timer_input_clock();
        self.tim.arm_periodic(bus_hz, tick_hz, period_s);
    }

    /// Configure the output pin: open the port's clock gate, then select
    /// output mode, so the data bit drives the pin.
    pub fn configure_pin(&mut self)
        ensures
            *final(self) == (Board {
                pin: (GpioPin {
                    clock_enabled: true,
                    mode_output: true,
                    odr: old(self).pin.odr,
                }),
                ..*old(self)
            }),
    {
        self.pin.enable_clock();
        self.pin.set_mode_output();
    }

    /// The whole startup sequence, in the order its invariants demand:
    /// unmask the timer's interrupt line, run the clock configurator, arm
    /// the periodic timer off the new timer clock, configure the output
    /// pin. After it the board is running: the system clock is the PLL at
    /// the requested frequency, the timer raises an update event every
    /// `period_s` seconds, and the pin is an output driving low.
    pub fn startup(&mut self, mult: u32, out_div: u32, apb1_div: u32, tick_hz: u32, period_s: u32)
        requires
            old(self).is_power_on(),
            accepted_config(mult as nat, out_div as nat, apb1_div as nat),
            0 < tick_hz <= target_timer_clock_hz(mult as nat, out_div as nat, apb1_div as nat),
            target_timer_clock_hz(mult as nat, out_div as nat, apb1_div as nat)
                % tick_hz as nat == 0,
            1 <= tick_hz * period_s <= u32::MAX,
        ensures
            final(self).running(),
            final(self).clock.voltage == old(self).clock.voltage,
            final(self).clock.sysclk_hz() == pll_output_hz(mult as nat, out_div as nat),
            final(self).clock.flash_wait_states == min_wait_states(
                pll_output_hz(mult as nat, out_div as nat),
                old(self).clock.voltage,
            ),
            final(self).clock.timer_clock_hz() == target_timer_clock_hz(
                mult as nat,
                out_div as nat,
                apb1_div as nat,
            ),
            tick_rate_hz(final(self).clock.timer_clock_hz(), final(self).tim.psc as nat)
                == tick_hz,
            final(self).tim.arr == tick_hz * period_s - 1,
            final(self).tim.period_input_ticks()
                == final(self).clock.timer_clock_hz() * period_s,
            !final(self).tim.uif,
            final(self).pin.driven_level() == Some(false),
    {
        self.unmask_timer_interrupt();
        self.clock.configure_clock(mult, out_div, apb1_div);
        self.arm_timer(tick_hz, period_s);
        self.configure_pin();
    }

    /// Timer interrupt handler. First action, unconditionally: clear the
    /// update-pending flag — left set, the interrupt would re-raise the
    /// moment the handler returns and re-enter forever. Second action:
    /// write back the complement of the output-data bit.
    pub fn on_timer_update(&mut self)
        requires
            old(self).tim.clock_enabled,
            old(self).pin.clock_enabled,
        ensures
            *final(self) == (Board {
                tim: old(self).tim.with_pending_cleared(),
                pin: (GpioPin { odr: !old(self).pin.odr, ..old(self).pin }),
                ..*old(self)
            }),
    {
        self.tim.clear_pending();
        self.pin.toggle();
    }

    /// Spec-level effect of one delivered update event on the board: the
    /// pending flag ends cleared and the pin toggled once; nothing else
    /// moves.
    pub open spec fn after_update_event(self) -> Board {
        Board {
            tim: self.tim.with_pending_cleared(),
            pin: GpioPin { odr: !self.pin.odr, ..self.pin },
            ..self
        }
    }

    /// Spec-level effect of `n` consecutive update events.
    pub open spec fn after_update_events(self, n: nat) -> Board
        decreases n,
    {
        if n == 0 {
            self
        } else {
            self.after_update_events((n - 1) as nat).after_update_event()
        }
    }

    /// One full update-event round trip on a running board: the running
    /// counter raises the update event, the enabled and unmasked interrupt
    /// fires, and the handler clears the pending flag and toggles the pin
    /// exactly once.
    pub fn deliver_update_event(&mut self)
        requires
            old(self).running(),
        ensures
            *final(self) == old(self).after_update_event(),
            final(self).running(),
            final(self).pin.odr == !old(self).pin.odr,
            !final(self).tim.uif,
    {
        self.tim.hw_update_event();
        self.on_timer_update();
    }

    /// Law: over `n` consecutive update events, the output-data bit equals
    /// its initial value XOR'd with the parity of `n`; from the first event
    /// on the pending flag ends cleared; and a running board stays running.
    pub proof fn lemma_update_event_parity(b: Board, n: nat)
        ensures
            b.after_update_events(n).pin.odr == (b.pin.odr != (n % 2 == 1)),
            n > 0 ==> !b.after_update_events(n).tim.uif,
            b.running() ==> b.after_update_events(n).running(),
        decreases n,
    {
        if n > 0 {
            Self::lemma_update_event_parity(b, (n - 1) as nat);
        }
    }

    /// Deliver `n` simulated update events in a row to a running board.
    pub fn run_update_events(&mut self, n: u32)
        requires
            old(self).running(),
        ensures
            *final(self) == old(self).after_update_events(n as nat),
            final(self).running(),
            final(self).pin.odr == (old(self).pin.odr != (n % 2 == 1)),
    {
        let mut i: u32 = 0;
        while i < n
            invariant
                i <= n,
                self.running(),
                *self == old(self).after_update_events(i as nat),
            decreases n - i,
        {
            self.deliver_update_event();
            i = i + 1;
        }
        proof {
            Self::lemma_update_event_parity(*old(self), n as nat);
        }
    }
}

} // verus!
