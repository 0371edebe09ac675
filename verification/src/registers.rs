//! The pure register-word computations of the peripheral layer: function
//! select fields, the system-timer word, PWM control words and the clock
//! manager's password-protected words. The volatile accesses that carry
//! these words to the hardware live outside this crate.

use vstd::prelude::*;

verus! {

/// The function of one GPIO pin.
#[derive(Clone, Copy, Debug, PartialEq, Eq)]
pub enum GPIOFunction {
    Input,
    Output,
    Alt0,
    Alt1,
    Alt2,
    Alt3,
    Alt4,
    Alt5,
}

impl GPIOFunction {
    pub open spec fn spec_bits(self) -> u32 {
        match self {
            GPIOFunction::Input => 0b000u32,
            GPIOFunction::Output => 0b001u32,
            GPIOFunction::Alt0 => 0b100u32,
            GPIOFunction::Alt1 => 0b101u32,
            GPIOFunction::Alt2 => 0b110u32,
            GPIOFunction::Alt3 => 0b111u32,
            GPIOFunction::Alt4 => 0b011u32,
            GPIOFunction::Alt5 => 0b010u32,
        }
    }

    /// The three-bit field value of this function.
    pub fn bits(self) -> (r: u32)
        ensures
            r == self.spec_bits(),
    {
        match self {
            GPIOFunction::Input => 0b000,
            GPIOFunction::Output => 0b001,
            GPIOFunction::Alt0 => 0b100,
            GPIOFunction::Alt1 => 0b101,
            GPIOFunction::Alt2 => 0b110,
            GPIOFunction::Alt3 => 0b111,
            GPIOFunction::Alt4 => 0b011,
            GPIOFunction::Alt5 => 0b010,
        }
    }
}

/// The new value of a function-select register: the pin's three-bit field is
/// replaced by the function's bits.
pub fn fsel_update_word(value_before: u32, pin: u8, function: GPIOFunction) -> (r: u32)
    ensures
        r == ((value_before & !(0b111u32 << (((pin % 10) * 3) as u32))) | (function.spec_bits()
            << (((pin % 10) * 3) as u32))),
{
    let shift: u32 = ((pin % 10) * 3) as u32;
    let clear = !(0b111u32 << shift);
    let set = function.bits() << shift;
    (value_before & clear) | set
}

/// The index of the function-select register that holds a pin's field.
pub fn fsel_register_index(pin: u8) -> (r: usize)
    ensures
        r == pin as int / 10,
{
    (pin / 10) as usize
}

/// The 64-bit system-timer value from its two halves.
pub fn time_register_u64(low: u32, high: u32) -> (r: u64)
    ensures
        r == ((high as u64) << 32u64) | (low as u64),
{
    ((high as u64) << 32u64) | (low as u64)
}

/// CH1 Enable | Polarity (1=low, 0=high) | Use FIFO: the PWM control word
/// that starts a pulse.
pub fn pwm_enable_word() -> (r: u32)
    ensures
        r == 0x31u32,
{
    proof {
        assert(0x20u32 | 0x10u32 | 0x1u32 == 0x31u32) by (bit_vector);
    }
    // Use FIFO (bit 5) | Polarity (bit 4) | Enable (bit 0).
    0x20 | 0x10 | 0x1
}

/// Use FIFO | Polarity | Clear FIFO: the PWM control word that resets the
/// channel.
pub fn pwm_reset_word() -> (r: u32)
    ensures
        r == 0x70u32,
{
    proof {
        assert(0x20u32 | 0x10u32 | 0x40u32 == 0x70u32) by (bit_vector);
    }
    // Use FIFO (bit 5) | Polarity (bit 4) | Clear FIFO (bit 6).
    0x20 | 0x10 | 0x40
}

/// Whether a PWM status word reports the FIFO empty.
pub fn pwm_fifo_empty(status: u32) -> (r: bool)
    ensures
        r == ((status & 2u32) != 0),
{
    (status & 0x2) != 0
}

/// The clock source field of a clock-manager control word.
pub fn cm_ctl_src(x: u32) -> (r: u32)
    ensures
        r == x,
{
    // Bits 3..0, at offset zero.
    x
}

/// The fractional-divider field of a clock-manager divider word.
pub fn cm_div_divf(x: u32) -> (r: u32)
    ensures
        r == x,
{
    // Bits 11..0, at offset zero.
    x
}

/// The integer-divider field of a clock-manager divider word.
pub fn cm_div_divi(x: u32) -> (r: u32)
    requires
        x < 4096,
    ensures
        r == x << 12u32,
{
    // Bits 23..12.
    x << 12u32
}

/// The four password-protected words that configure the PWM clock: kill the
/// clock, select the 500 MHz source, set the integer divider, enable.
pub fn pwm_clock_init_words(divider: u32) -> (r: [u32; 4])
    requires
        divider < 4096,
    ensures
        r[0] == (0x5Au32 << 24u32) | 0x20u32,
        r[1] == (0x5Au32 << 24u32) | 6u32,
        r[2] == ((0x5Au32 << 24u32) | (divider << 12u32)),
        r[3] == (0x5Au32 << 24u32) | 0x10u32 | 6u32,
{
    let passwd: u32 = 0x5A << 24u32;
    let kill: u32 = 0x1 << 5u32;
    let enab: u32 = 0x1 << 4u32;
    let src_plld = cm_ctl_src(6);
    proof {
        assert(0x1u32 << 5u32 == 0x20u32 && 0x1u32 << 4u32 == 0x10u32) by (bit_vector);
        assert((0x5Au32 << 24u32) | ((divider << 12u32) | 0u32) == (0x5Au32 << 24u32) | (divider
            << 12u32)) by (bit_vector);
    }
    [
        passwd | kill,
        passwd | src_plld,
        passwd | (cm_div_divi(divider) | cm_div_divf(0)),
        passwd | enab | src_plld,
    ]
}

} // verus!
