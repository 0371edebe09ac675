//! The error taxonomy of the driver core.

use vstd::prelude::*;

verus! {

/// A name did not match any variant of the enumeration it was parsed as.
/// The message lists the accepted names.
#[derive(Debug, Clone, PartialEq, Eq)]
pub struct InvalidVariantError {
    pub variants: String,
}

impl InvalidVariantError {
    /// Wrap the list of accepted variant names.
    pub fn new(variants: String) -> (r: InvalidVariantError)
        ensures
            r.variants == variants,
    {
        InvalidVariantError { variants }
    }
}

/// Conflicting peripheral state found while claiming the GPIO pins.
#[derive(Debug, Clone, Copy, PartialEq, Eq)]
pub enum GpioInitializationError {
    /// The one-wire protocol is enabled and would fight over GPIO 4.
    OneWireProtocolEnabled,
    /// The on-board sound module is loaded and owns the PWM hardware.
    SoundModuleLoaded,
}

/// Why the controller could not be brought up.
#[derive(Debug, Clone, PartialEq, Eq)]
pub enum MatrixCreationError {
    ChipDeterminationError,
    TooManyParallelChains(usize),
    InvalidDitherBits(usize),
    ThreadTimedOut,
    GpioError(GpioInitializationError),
    MemoryAccessError,
    PixelMapperError(String),
}

} // verus!
