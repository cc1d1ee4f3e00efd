//! An interrupt-driven button-to-LED control path for a microcontroller,
//! modelled and verified at the register level.
//!
//! One GPIO pin drives an LED as a digital output, another reads a pushbutton
//! as a digital input, and an edge-triggered external interrupt line toggles
//! the LED from its handler based on the button's level. The true state lives
//! in memory-mapped peripheral registers; this crate models those registers as
//! plain 32-bit values and proves the configuration and handler logic against
//! that model. The surrounding platform layer performs the actual volatile
//! accesses, handing each register's current value to the pure functions here
//! and writing back what they compute.

pub mod handler;
pub mod heartbeat;
pub mod regs;
pub mod setup;
