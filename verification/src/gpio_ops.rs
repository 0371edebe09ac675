//! The operations the refresh engine asks the GPIO layer to perform.
//!
//! The engine computes, for every frame, the exact sequence of register
//! operations to emit; the thin layer that owns the memory-mapped registers
//! plays such a sequence back verbatim. A masked write clears the mask's
//! zero bits of the value and sets its one bits; set and clear drive the
//! set/clear registers directly; the two pulse operations start the hardware
//! Output-Enable pulse of one bit-plane and wait for the previous one.

use vstd::prelude::*;

verus! {

/// One GPIO-layer operation.
#[derive(Clone, Copy, Debug, PartialEq, Eq, Structural)]
pub enum GpioOp {
    /// Drive the masked pins high.
    SetBits(u32),
    /// Drive the masked pins low.
    ClearBits(u32),
    /// Within `mask`, drive the pins of `value` high and the others low.
    WriteMaskedBits { value: u32, mask: u32 },
    /// Start the Output-Enable pulse of the given bit-plane.
    SendPulse(usize),
    /// Wait until the running Output-Enable pulse has finished.
    WaitPulseFinished,
}

} // verus!
