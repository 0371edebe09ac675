//! The pin-claiming plan of the GPIO layer: which pins become outputs,
//! which are reserved, and the conflicts with other users of the header.

use vstd::prelude::*;
use crate::error::GpioInitializationError;
use crate::registers::GPIOFunction;

verus! {

/// The decisions of GPIO initialization: every pin the display drives, the
/// pins reserved against conflicting drivers, and the function selections
/// to apply in order.
pub struct GpioInitPlan {
    /// The pins driven as outputs.
    pub output_bits: u32,
    /// Pins kept as inputs because the hardware ties them to an output.
    pub reserved_bits: u32,
    /// The function selections to apply, in order.
    pub fsel: Vec<(u8, GPIOFunction)>,
}

/// Refuse to claim the pins while a conflicting kernel driver holds them:
/// the on-board sound owns the PWM hardware, and the one-wire protocol owns
/// GPIO 4 when that pin is among the outputs.
pub fn check_gpio_conflicts(sound_module_loaded: bool, one_wire_loaded: bool, output_bits: u32) -> (r:
    Result<(), GpioInitializationError>)
    ensures
        sound_module_loaded ==> r == Err::<(), GpioInitializationError>(
            GpioInitializationError::SoundModuleLoaded,
        ),
        !sound_module_loaded && one_wire_loaded && output_bits & (1u32 << 4u32) != 0 ==> r == Err::<
            (),
            GpioInitializationError,
        >(GpioInitializationError::OneWireProtocolEnabled),
        !sound_module_loaded && !(one_wire_loaded && output_bits & (1u32 << 4u32) != 0) ==> r
            == Ok::<(), GpioInitializationError>(()),
{
    if sound_module_loaded {
        return Err(GpioInitializationError::SoundModuleLoaded);
    }
    if one_wire_loaded && (output_bits & (1u32 << 4u32)) != 0 {
        return Err(GpioInitializationError::OneWireProtocolEnabled);
    }
    Ok(())
}

/// Plan the pin claiming for the display's used bits. GPIO 4 and GPIO 18
/// are first forced to inputs so the two Output-Enable wirings cannot fight
/// each other; GPIO 4 stays reserved when the display does not drive it;
/// every used pin becomes an output.
pub fn plan_gpio_init(all_used_bits: u32) -> (r: GpioInitPlan)
    ensures
        r.reserved_bits == (1u32 << 4u32) & !all_used_bits,
        r.output_bits == all_used_bits,
        r.fsel@.len() >= 2,
        r.fsel@[0] == (4u8, GPIOFunction::Input),
        r.fsel@[1] == (18u8, GPIOFunction::Input),
        forall|i: int|
            2 <= i < r.fsel@.len() ==> ((#[trigger] r.fsel@[i]).1 == GPIOFunction::Output
                && all_used_bits & (1u32 << (r.fsel@[i].0 as u32)) != 0),
        forall|b: u32|
            b < 32 && all_used_bits & (1u32 << b) != 0 ==> exists|i: int|
                2 <= i < r.fsel@.len() && (#[trigger] r.fsel@[i]).0 == b as u8,
{
    let reserved_bits = (1u32 << 4u32) & !all_used_bits;
    let ghost used = all_used_bits;
    proof {
        assert(used & !(0u32 | ((1u32 << 4u32) & !used)) == used) by (bit_vector);
    }
    let output_bits = all_used_bits & !(0u32 | reserved_bits);
    let mut fsel: Vec<(u8, GPIOFunction)> = Vec::new();
    fsel.push((4, GPIOFunction::Input));
    fsel.push((18, GPIOFunction::Input));
    let mut b: u32 = 0;
    while b < 32
        invariant
            0 <= b <= 32,
            output_bits == used,
            fsel@.len() >= 2,
            fsel@[0] == (4u8, GPIOFunction::Input),
            fsel@[1] == (18u8, GPIOFunction::Input),
            forall|i: int|
                2 <= i < fsel@.len() ==> ((#[trigger] fsel@[i]).1 == GPIOFunction::Output && used
                    & (1u32 << (fsel@[i].0 as u32)) != 0),
            forall|bb: u32|
                bb < b && used & (1u32 << bb) != 0 ==> exists|i: int|
                    2 <= i < fsel@.len() && (#[trigger] fsel@[i]).0 == bb as u8,
        decreases 32 - b,
    {
        let ghost pre = fsel@;
        if (output_bits & (1u32 << b)) != 0 {
            fsel.push((b as u8, GPIOFunction::Output));
            proof {
                assert(b as u8 as u32 == b) by (bit_vector)
                    requires
                        b < 32,
                ;
                assert(fsel@[pre.len() as int].0 == b as u8);
            }
        }
        proof {
            assert forall|bb: u32| bb < b + 1 && used & (1u32 << bb) != 0 implies exists|i: int|
                2 <= i < fsel@.len() && (#[trigger] fsel@[i]).0 == bb as u8 by {
                if bb < b {
                    let i0 = choose|i: int| 2 <= i < pre.len() && (#[trigger] pre[i]).0 == bb
                        as u8;
                    assert(fsel@[i0] == pre[i0]);
                    assert(2 <= i0 < fsel@.len() && fsel@[i0].0 == bb as u8);
                } else {
                    assert(fsel@[pre.len() as int].0 == bb as u8);
                }
            }
        }
        b = b + 1;
    }
    GpioInitPlan { output_bits, reserved_bits, fsel }
}

/// Which of the requested input pins are actually free: those not already
/// used as outputs, inputs or reserved; each becomes an input.
pub fn plan_enabled_inputs(
    requested: u32,
    output_bits: u32,
    input_bits: u32,
    reserved_bits: u32,
) -> (r: (u32, Vec<(u8, GPIOFunction)>))
    ensures
        r.0 == requested & !(output_bits | input_bits | reserved_bits),
        forall|i: int|
            0 <= i < r.1@.len() ==> ((#[trigger] r.1@[i]).1 == GPIOFunction::Input && r.0 & (1u32
                << (r.1@[i].0 as u32)) != 0),
        forall|b: u32|
            b < 32 && r.0 & (1u32 << b) != 0 ==> exists|i: int|
                0 <= i < r.1@.len() && (#[trigger] r.1@[i]).0 == b as u8,
{
    let enabled = requested & !(output_bits | input_bits | reserved_bits);
    let mut fsel: Vec<(u8, GPIOFunction)> = Vec::new();
    let mut b: u32 = 0;
    while b < 32
        invariant
            0 <= b <= 32,
            forall|i: int|
                0 <= i < fsel@.len() ==> ((#[trigger] fsel@[i]).1 == GPIOFunction::Input && enabled
                    & (1u32 << (fsel@[i].0 as u32)) != 0),
            forall|bb: u32|
                bb < b && enabled & (1u32 << bb) != 0 ==> exists|i: int|
                    0 <= i < fsel@.len() && (#[trigger] fsel@[i]).0 == bb as u8,
        decreases 32 - b,
    {
        let ghost pre = fsel@;
        if (enabled & (1u32 << b)) != 0 {
            fsel.push((b as u8, GPIOFunction::Input));
            proof {
                assert(b as u8 as u32 == b) by (bit_vector)
                    requires
                        b < 32,
                ;
                assert(fsel@[pre.len() as int].0 == b as u8);
            }
        }
        proof {
            assert forall|bb: u32| bb < b + 1 && enabled & (1u32 << bb) != 0 implies exists|i: int|
                0 <= i < fsel@.len() && (#[trigger] fsel@[i]).0 == bb as u8 by {
                if bb < b {
                    let i0 = choose|i: int| 0 <= i < pre.len() && (#[trigger] pre[i]).0 == bb
                        as u8;
                    assert(fsel@[i0] == pre[i0]);
                    assert(0 <= i0 < fsel@.len() && fsel@[i0].0 == bb as u8);
                } else {
                    assert(fsel@[pre.len() as int].0 == bb as u8);
                }
            }
        }
        b = b + 1;
    }
    (enabled, fsel)
}

} // verus!
