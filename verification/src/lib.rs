//! Model of a small bare-metal control loop: a clock tree brought from the
//! internal oscillator to a PLL-derived system clock, a hardware timer armed
//! to raise a periodic update event, and an interrupt handler that toggles one
//! GPIO output pin on every event.
//!
//! Hardware registers are modelled as plain fields of the state structs;
//! transitions that real hardware performs on its own (a PLL locking, a clock
//! switch taking effect, a counter raising its update event) are explicit
//! methods so the polling loops and the interrupt delivery can be simulated
//! and reasoned about.

pub mod board;
pub mod clock;
pub mod flash;
pub mod gpio;
pub mod timer;
