//! Panel driver ICs that need a register initialization sequence before the
//! first frame.
//!
//! The FM6126 and FM6127 take 16-bit configuration words: one bit pattern is
//! clocked across all columns, replicated per 16-column group, with the
//! strobe raised only during the last clocks so the word lands in the right
//! register.

use vstd::prelude::*;
use vstd::string::StringSliceAdditionalSpecFns;
use crate::config::RGBMatrixConfig;
use crate::error::InvalidVariantError;
use crate::gpio_ops::GpioOp;
use crate::hardware_mapping::HardwareMapping;

verus! {

/// The panel driver ICs with a known initialization sequence.
#[derive(Debug, Clone, Copy, PartialEq, Eq, Hash)]
pub enum PanelType {
    FM6126,
    FM6127,
}

/// The panel type an exact name selects.
pub open spec fn spec_panel_type_of(bytes: Seq<u8>) -> Option<PanelType> {
    // The names are FM6126 and FM6127.
    if bytes =~= seq![70u8, 77u8, 54u8, 49u8, 50u8, 54u8] {
        Some(PanelType::FM6126)
    } else if bytes =~= seq![70u8, 77u8, 54u8, 49u8, 50u8, 55u8] {
        Some(PanelType::FM6127)
    } else {
        None
    }
}

impl PanelType {
    /// Parse a panel type name such as `FM6126`.
    pub fn parse(s: &str) -> (r: Result<PanelType, InvalidVariantError>)
        ensures
            match spec_panel_type_of(s.spec_bytes()) {
                Some(v) => r == Ok::<PanelType, InvalidVariantError>(v),
                None => r is Err,
            },
    {
        let bytes = s.as_bytes();
        if bytes.len() != 6 {
            proof {
                assert(!(s.spec_bytes() =~= seq![70u8, 77u8, 54u8, 49u8, 50u8, 54u8]));
                assert(!(s.spec_bytes() =~= seq![70u8, 77u8, 54u8, 49u8, 50u8, 55u8]));
            }
            return Err(InvalidVariantError::new("FM6126 FM6127".to_owned()));
        }
        let head_ok = bytes[0] == 70 && bytes[1] == 77 && bytes[2] == 54 && bytes[3] == 49
            && bytes[4] == 50;
        if head_ok && bytes[5] == 54 {
            proof {
                assert(s.spec_bytes() =~= seq![70u8, 77u8, 54u8, 49u8, 50u8, 54u8]);
            }
            Ok(PanelType::FM6126)
        } else if head_ok && bytes[5] == 55 {
            proof {
                assert(s.spec_bytes() =~= seq![70u8, 77u8, 54u8, 49u8, 50u8, 55u8]);
            }
            Ok(PanelType::FM6127)
        } else {
            proof {
                assert(!(s.spec_bytes() =~= seq![70u8, 77u8, 54u8, 49u8, 50u8, 54u8]));
                assert(!(s.spec_bytes() =~= seq![70u8, 77u8, 54u8, 49u8, 50u8, 55u8]));
            }
            Err(InvalidVariantError::new("FM6126 FM6127".to_owned()))
        }
    }
}

/// The operations that stream one 16-bit register pattern across all
/// columns: per column a masked data write and a clock pulse, with the
/// strobe raised during the last `register` clocks, then the strobe is
/// dropped.
pub open spec fn spec_register_stream(
    columns: int,
    bits_on: u32,
    bits_off: u32,
    mask: u32,
    strobe: u32,
    clock: u32,
    pattern: u32,
    register: int,
) -> Seq<GpioOp> {
    Seq::new(
        (3 * columns + 1) as nat,
        |i: int|
            if i == 3 * columns {
                GpioOp::ClearBits(strobe)
            } else if i % 3 == 0 {
                let c = i / 3;
                let base = if pattern & (1u32 << ((c % 16) as u32)) == 0 {
                    bits_off
                } else {
                    bits_on
                };
                let value = if c > columns - register {
                    base | strobe
                } else {
                    base
                };
                GpioOp::WriteMaskedBits { value: value, mask: mask }
            } else if i % 3 == 1 {
                GpioOp::SetBits(clock)
            } else {
                GpioOp::ClearBits(clock)
            },
    )
}

/// Append the stream of one register pattern.
fn register_stream(
    ops: &mut Vec<GpioOp>,
    columns: usize,
    bits_on: u32,
    bits_off: u32,
    mask: u32,
    strobe: u32,
    clock: u32,
    pattern: u32,
    register: usize,
)
    requires
        register <= columns <= 0x1000_0000,
    ensures
        final(ops)@ == old(ops)@ + spec_register_stream(
            columns as int,
            bits_on,
            bits_off,
            mask,
            strobe,
            clock,
            pattern,
            register as int,
        ),
{
    let ghost start = ops@;
    let ghost total = spec_register_stream(
        columns as int,
        bits_on,
        bits_off,
        mask,
        strobe,
        clock,
        pattern,
        register as int,
    );
    let mut c: usize = 0;
    while c < columns
        invariant
            0 <= c <= columns,
            register <= columns <= 0x1000_0000,
            total == spec_register_stream(
                columns as int,
                bits_on,
                bits_off,
                mask,
                strobe,
                clock,
                pattern,
                register as int,
            ),
            ops@.len() == start.len() + 3 * c,
            forall|j: int| 0 <= j < start.len() ==> #[trigger] ops@[j] == start[j],
            forall|j: int|
                0 <= j < 3 * c ==> #[trigger] ops@[start.len() + j] == total[j],
        decreases columns - c,
    {
        let shift: u32 = (c % 16) as u32;
        let base: u32 = if pattern & (1u32 << shift) == 0 {
            bits_off
        } else {
            bits_on
        };
        let value: u32 = if c > columns - register {
            base | strobe
        } else {
            base
        };
        ops.push(GpioOp::WriteMaskedBits { value, mask });
        ops.push(GpioOp::SetBits(clock));
        ops.push(GpioOp::ClearBits(clock));
        c = c + 1;
    }
    let ghost mid = ops@;
    ops.push(GpioOp::ClearBits(strobe));
    proof {
        let cols = columns as int;
        assert(ops@.len() == start.len() + 3 * cols + 1);
        assert forall|i: int| 0 <= i < ops@.len() implies ops@[i] == (start + total)[i] by {
            if i < start.len() + 3 * cols {
                assert(ops@[i] == mid[i]);
                if i < start.len() {
                    assert(mid[i] == start[i]);
                } else {
                    assert(mid[start.len() + (i - start.len())] == total[i - start.len()]);
                }
            } else {
                assert(ops@[i] == GpioOp::ClearBits(strobe));
                assert(total[3 * cols] == GpioOp::ClearBits(strobe));
            }
        }
        assert(ops@ =~= start + total);
    }
}

impl PanelType {
    /// The operations of this IC's initialization sequence.
    pub fn run_init_sequence(self, hardware_mapping: &HardwareMapping, config: &RGBMatrixConfig) -> (r:
        Vec<GpioOp>)
        requires
            13 <= config.cols <= 0x1000_0000,
        ensures
            r@ == self.spec_init_sequence(*hardware_mapping, config.cols as int),
    {
        match self {
            PanelType::FM6126 => Self::init_fm6126(hardware_mapping, config),
            PanelType::FM6127 => Self::init_fm6127(hardware_mapping, config),
        }
    }

    /// The whole operation sequence of this IC: the clock and strobe are
    /// dropped, then each configuration register is streamed in.
    pub open spec fn spec_init_sequence(self, hm: HardwareMapping, columns: int) -> Seq<GpioOp> {
        match self {
            PanelType::FM6126 => {
                let bits_on = hm.panels.spec_used_bits() | hm.a;
                let bits_off = hm.a;
                let mask = bits_on | hm.strobe;
                seq![GpioOp::ClearBits(hm.clock | hm.strobe)] + spec_register_stream(
                    columns,
                    bits_on,
                    bits_off,
                    mask,
                    hm.strobe,
                    hm.clock,
                    0b0111_1111_1111_1111u32,
                    12,
                ) + spec_register_stream(
                    columns,
                    bits_on,
                    bits_off,
                    mask,
                    hm.strobe,
                    hm.clock,
                    0b0000_0000_0100_0000u32,
                    13,
                )
            },
            PanelType::FM6127 => {
                let bits_on = hm.panels.color_bits[0].spec_used_bits() | hm.a;
                let bits_off = 0u32;
                let mask = bits_on | hm.strobe;
                seq![GpioOp::ClearBits(hm.clock | hm.strobe)] + spec_register_stream(
                    columns,
                    bits_on,
                    bits_off,
                    mask,
                    hm.strobe,
                    hm.clock,
                    0b1111_1111_1100_1110u32,
                    12,
                ) + spec_register_stream(
                    columns,
                    bits_on,
                    bits_off,
                    mask,
                    hm.strobe,
                    hm.clock,
                    0b1110_0000_0110_0010u32,
                    13,
                ) + spec_register_stream(
                    columns,
                    bits_on,
                    bits_off,
                    mask,
                    hm.strobe,
                    hm.clock,
                    0b0101_1111_0000_0000u32,
                    11,
                )
            },
        }
    }

    /// Full-bright panel-on configuration of the FM6126.
    fn init_fm6126(hardware_mapping: &HardwareMapping, config: &RGBMatrixConfig) -> (r: Vec<
        GpioOp,
    >)
        requires
            13 <= config.cols <= 0x1000_0000,
        ensures
            r@ == PanelType::FM6126.spec_init_sequence(*hardware_mapping, config.cols as int),
    {
        let hm = hardware_mapping;
        let columns = config.cols;
        let bits_on = hm.panels.used_bits() | hm.a;
        let bits_off = hm.a;
        let mask = bits_on | hm.strobe;
        let mut ops: Vec<GpioOp> = Vec::new();
        ops.push(GpioOp::ClearBits(hm.clock | hm.strobe));
        let ghost after_first = ops@;
        register_stream(
            &mut ops,
            columns,
            bits_on,
            bits_off,
            mask,
            hm.strobe,
            hm.clock,
            0b0111_1111_1111_1111,
            12,
        );
        register_stream(
            &mut ops,
            columns,
            bits_on,
            bits_off,
            mask,
            hm.strobe,
            hm.clock,
            0b0000_0000_0100_0000,
            13,
        );
        proof {
            assert(after_first =~= seq![GpioOp::ClearBits(hm.clock | hm.strobe)]);
            assert(ops@ =~= PanelType::FM6126.spec_init_sequence(
                *hardware_mapping,
                config.cols as int,
            ));
        }
        ops
    }

    /// The FM6127 is close to the FM6126 but adds a third register for
    /// automatic bad-pixel suppression.
    fn init_fm6127(hardware_mapping: &HardwareMapping, config: &RGBMatrixConfig) -> (r: Vec<
        GpioOp,
    >)
        requires
            13 <= config.cols <= 0x1000_0000,
        ensures
            r@ == PanelType::FM6127.spec_init_sequence(*hardware_mapping, config.cols as int),
    {
        let hm = hardware_mapping;
        let columns = config.cols;
        let bits_on = hm.panels.color_bits[0].used_bits() | hm.a;
        let bits_off: u32 = 0;
        let mask = bits_on | hm.strobe;
        let mut ops: Vec<GpioOp> = Vec::new();
        ops.push(GpioOp::ClearBits(hm.clock | hm.strobe));
        let ghost after_first = ops@;
        register_stream(
            &mut ops,
            columns,
            bits_on,
            bits_off,
            mask,
            hm.strobe,
            hm.clock,
            0b1111_1111_1100_1110,
            12,
        );
        register_stream(
            &mut ops,
            columns,
            bits_on,
            bits_off,
            mask,
            hm.strobe,
            hm.clock,
            0b1110_0000_0110_0010,
            13,
        );
        register_stream(
            &mut ops,
            columns,
            bits_on,
            bits_off,
            mask,
            hm.strobe,
            hm.clock,
            0b0101_1111_0000_0000,
            11,
        );
        proof {
            assert(after_first =~= seq![GpioOp::ClearBits(hm.clock | hm.strobe)]);
            assert(ops@ =~= PanelType::FM6127.spec_init_sequence(
                *hardware_mapping,
                config.cols as int,
            ));
        }
        ops
    }
}

} // verus!
