//! Hardware abstraction layer for the NXP LPC11UXX family of
//! microcontrollers.
//!
//! The heart of the crate is the clock-tree configuration engine in
//! [`clock`]: a declarative request for clock sources and target
//! frequencies is resolved into a fully determined plan (PLL multiplier
//! and post-divider, watchdog-oscillator band, system-clock divider,
//! flash wait-states) or rejected with a structured error, before any
//! hardware register is touched.

pub mod clock;
pub mod gpio;
