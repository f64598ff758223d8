//! Hardware timer: prescaler/reload arithmetic and the register-level state
//! of one general-purpose timer, with the driver routine that arms it to
//! raise a periodic update interrupt.

use vstd::prelude::*;

verus! {

/// Counter tick rate derived from an input clock of `bus_hz` through a
/// prescaler register value of `psc` (the hardware divides by psc + 1).
pub open spec fn tick_rate_hz(bus_hz: nat, psc: nat) -> nat {
    bus_hz / (psc + 1)
}

/// The effective tick frequency of a prescaled counter.
pub fn tick_frequency(bus_hz: u32, psc: u32) -> (hz: u32)
    requires
        psc < u32::MAX,
    ensures
        hz == tick_rate_hz(bus_hz as nat, psc as nat),
{
    bus_hz / (psc + 1)
}

/// Prescaler register value that derives `tick_hz` from `bus_hz`:
/// bus_hz / tick_hz - 1. Demands an exact divisor, so the derived rate is
/// exactly the one asked for.
pub fn prescaler_value(bus_hz: u32, tick_hz: u32) -> (psc: u32)
    requires
        0 < tick_hz <= bus_hz,
        bus_hz as nat % tick_hz as nat == 0,
    ensures
        psc == bus_hz as nat / tick_hz as nat - 1,
        tick_rate_hz(bus_hz as nat, psc as nat) == tick_hz,
{
    proof {
        let b = bus_hz as int;
        let t = tick_hz as int;
        let q = b / t;
        vstd::arithmetic::div_mod::lemma_fundamental_div_mod(b, t);
        assert(b == t * q);
        assert(q > 0) by (nonlinear_arith)
            requires
                b == t * q,
                0 < t,
                t <= b,
        ;
        assert(q * t == t * q) by (nonlinear_arith);
        vstd::arithmetic::div_mod::lemma_div_multiples_vanish(t, q);
        assert(b / q == t);
    }
    bus_hz / tick_hz - 1
}

/// Checked form of `prescaler_value`: `Some` exactly when the desired tick
/// rate is nonzero, no faster than the input clock, and divides it evenly.
pub fn prescaler_for(bus_hz: u32, tick_hz: u32) -> (r: Option<u32>)
    ensures
        r is Some <==> (0 < tick_hz <= bus_hz && bus_hz as nat % tick_hz as nat == 0),
        r matches Some(psc) ==> {
            &&& psc == bus_hz as nat / tick_hz as nat - 1
            &&& tick_rate_hz(bus_hz as nat, psc as nat) == tick_hz
        },
{
    if 0 < tick_hz && tick_hz <= bus_hz && bus_hz % tick_hz == 0 {
        Some(prescaler_value(bus_hz, tick_hz))
    } else {
        None
    }
}

/// Auto-reload register value for an update event every `period_s` seconds
/// at `tick_hz` ticks per second: tick_hz * period_s - 1, so the counter
/// counts exactly tick_hz * period_s ticks per period.
pub fn reload_value(tick_hz: u32, period_s: u32) -> (arr: u32)
    requires
        1 <= tick_hz * period_s <= u32::MAX,
    ensures
        arr == tick_hz * period_s - 1,
        arr + 1 == tick_hz * period_s,
{
    tick_hz * period_s - 1
}

/// Checked form of `reload_value`: `Some` exactly when the tick count per
/// period is nonzero and fits the register.
pub fn reload_for(tick_hz: u32, period_s: u32) -> (r: Option<u32>)
    ensures
        r is Some <==> (1 <= tick_hz * period_s <= u32::MAX),
        r matches Some(arr) ==> arr == tick_hz * period_s - 1,
{
    proof {
        vstd::arithmetic::mul::lemma_mul_upper_bound(
            tick_hz as int,
            u32::MAX as int,
            period_s as int,
            u32::MAX as int,
        );
    }
    let ticks: u64 = (tick_hz as u64) * (period_s as u64);
    if 1 <= ticks && ticks <= u32::MAX as u64 {
        Some((ticks - 1) as u32)
    } else {
        None
    }
}

/// Register-level state of one general-purpose timer.
pub struct Timer {
    /// Bus clock gate of the timer. Registers may be touched only while it
    /// is open: access to a clock-gated peripheral is undefined behaviour.
    pub clock_enabled: bool,
    /// Prescaler register (the counter ticks every psc + 1 input cycles).
    pub psc: u32,
    /// Auto-reload register (an update event every arr + 1 ticks).
    pub arr: u32,
    /// Update-interrupt enable flag.
    pub uie: bool,
    /// Counter enable flag.
    pub cen: bool,
    /// Update-interrupt pending flag: set by hardware on each update event,
    /// cleared by software.
    pub uif: bool,
}

impl Timer {
    /// Input-clock cycles between update events: (psc + 1) * (arr + 1).
    pub open spec fn period_input_ticks(self) -> nat {
        ((self.psc + 1) * (self.arr + 1)) as nat
    }

    /// Reset state: clock gated, registers zero, nothing enabled or pending.
    pub open spec fn is_reset(self) -> bool {
        &&& !self.clock_enabled
        &&& self.psc == 0
        &&& self.arr == 0
        &&& !self.uie
        &&& !self.cen
        &&& !self.uif
    }

    /// The same state with the pending flag cleared.
    pub open spec fn with_pending_cleared(self) -> Timer {
        Timer { uif: false, ..self }
    }

    /// Construct a timer in its reset state.
    pub fn at_reset() -> (t: Timer)
        ensures
            t.is_reset(),
    {
        Timer {
            clock_enabled: false,
            psc: 0,
            arr: 0,
            uie: false,
            cen: false,
            uif: false,
        }
    }

    /// Open the timer's bus clock gate; must precede every register access.
    pub fn enable_clock(&mut self)
        ensures
            *final(self) == (Timer { clock_enabled: true, ..*old(self) }),
    {
        self.clock_enabled = true;
    }

    /// Program the prescaler register.
    pub fn set_prescaler(&mut self, psc: u32)
        requires
            old(self).clock_enabled,
        ensures
            *final(self) == (Timer { psc: psc, ..*old(self) }),
    {
        self.psc = psc;
    }

    /// Program the auto-reload register.
    pub fn set_reload(&mut self, arr: u32)
        requires
            old(self).clock_enabled,
        ensures
            *final(self) == (Timer { arr: arr, ..*old(self) }),
    {
        self.arr = arr;
    }

    /// Enable the update interrupt, so each update event raises a request.
    pub fn enable_update_interrupt(&mut self)
        requires
            old(self).clock_enabled,
        ensures
            *final(self) == (Timer { uie: true, ..*old(self) }),
    {
        self.uie = true;
    }

    /// Enable the counter; from here the timer free-runs.
    pub fn enable_counter(&mut self)
        requires
            old(self).clock_enabled,
        ensures
            *final(self) == (Timer { cen: true, ..*old(self) }),
    {
        self.cen = true;
    }

    /// Clear the update-pending flag, leaving every other field alone. The
    /// flag ends cleared whatever it held before, so clearing twice in a row
    /// is the same as clearing once.
    pub fn clear_pending(&mut self)
        requires
            old(self).clock_enabled,
        ensures
            *final(self) == old(self).with_pending_cleared(),
    {
        self.uif = false;
    }

    /// Hardware counter model: one update event elapses, which sets the
    /// pending flag if the counter is running.
    pub fn hw_update_event(&mut self)
        ensures
            *final(self) == (Timer { uif: old(self).uif || old(self).cen, ..*old(self) }),
    {
        if self.cen {
            self.uif = true;
        }
    }

    /// The whole timer driver: open the clock gate, program prescaler and
    /// reload so an update event fires every `period_s` seconds at `tick_hz`
    /// counter ticks per second off the `bus_hz` input clock, enable the
    /// update interrupt, and start the counter.
    pub fn arm_periodic(&mut self, bus_hz: u32, tick_hz: u32, period_s: u32)
        requires
            0 < tick_hz <= bus_hz,
            bus_hz as nat % tick_hz as nat == 0,
            1 <= tick_hz * period_s <= u32::MAX,
        ensures
            final(self).clock_enabled,
            final(self).uie,
            final(self).cen,
            final(self).uif == old(self).uif,
            final(self).psc == bus_hz as nat / tick_hz as nat - 1,
            final(self).arr == tick_hz * period_s - 1,
            tick_rate_hz(bus_hz as nat, final(self).psc as nat) == tick_hz,
            final(self).period_input_ticks() == bus_hz * period_s,
    {
        self.enable_clock();
        let psc: u32 = prescaler_value(bus_hz, tick_hz);
        self.set_prescaler(psc);
        let arr: u32 = reload_value(tick_hz, period_s);
        self.set_reload(arr);
        self.enable_update_interrupt();
        self.enable_counter();
        proof {
            let q = bus_hz as int / tick_hz as int;
            vstd::arithmetic::div_mod::lemma_fundamental_div_mod(bus_hz as int, tick_hz as int);
            assert(q * (tick_hz as int * period_s as int) == (q * tick_hz as int) * period_s as int)
                by (nonlinear_arith);
            assert(q * tick_hz as int == tick_hz as int * q) by (nonlinear_arith);
        }
    }
}

/// Clearing the pending flag is idempotent: clearing an already-cleared
/// state changes nothing, so two clears in a row equal one.
pub proof fn lemma_clear_pending_idempotent(t: Timer)
    ensures
        t.with_pending_cleared().with_pending_cleared() == t.with_pending_cleared(),
{
}

} // verus!
