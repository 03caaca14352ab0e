//! GPIO pin-function marker types.
//!
//! Pin multiplexing itself is register work performed outside this
//! library; these zero-sized types tag each pin with the function and
//! input mode it was configured for, so that peripheral constructors
//! can demand the right pins at compile time.

use vstd::prelude::*;

verus! {

/// Splits a GPIO register block into its individual pins.
pub trait GpioExt {
    /// The set of pins the block splits into.
    type Parts;

    /// Consumes the register block and hands out its pins.
    fn split(self) -> Self::Parts;
}

/// Input mode: no pull resistor.
pub struct Floating;

/// Input mode: pull-down resistor enabled.
pub struct PullDown;

/// Input mode: pull-up resistor enabled.
pub struct PullUp;

/// A pin configured as an input with the given mode.
pub struct Input<MODE> {
    _mode: core::marker::PhantomData<MODE>,
}

// SSP pin functions.
pub struct SCK0;

pub struct SSEL0;

pub struct MOSI0;

pub struct MISO0;

pub struct SCK1;

pub struct SSEL1;

pub struct MOSI1;

pub struct MISO1;

// I2C pin functions.
pub struct SCL;

pub struct SDA;

// USART pin functions.
pub struct RXD;

pub struct TXD;

pub struct CTS;

pub struct RTS;

pub struct DTR;

pub struct DSR;

pub struct DCD;

pub struct RI;

} // verus!
