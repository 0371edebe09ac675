//! Row-address setters: the five schemes panels use to select the active
//! sub-row. Each setter caches the last row it drove and emits no operation
//! when asked for the same row again.

use vstd::prelude::*;
use crate::config::RGBMatrixConfig;
use crate::gpio_ops::GpioOp;
use crate::hardware_mapping::HardwareMapping;

verus! {

/// Which row-address scheme the panel expects.
#[derive(Debug, Clone, Copy, PartialEq, Eq, Hash)]
pub enum RowAddressSetterType {
    /// Drive the A..E lines directly with the row number.
    Direct,
    /// Shift a single low bit through a register clocked on A with data on B.
    Shift,
    /// Shift a single low bit through a register clocked on A with data on C.
    ABCShift,
    /// One active-low line out of A..D for 1:4 multiplexed panels.
    DirectABCDLine,
    /// The SM5266 shifter: ABC drive an 8-bit shifter, D and E select the
    /// group.
    SM5266,
}

/// The A..E pattern that addresses double-row `i` directly.
pub open spec fn spec_direct_row_address(h: HardwareMapping, i: int) -> u32 {
    (if i % 2 == 1 {
        h.a
    } else {
        0
    }) | (if (i / 2) % 2 == 1 {
        h.b
    } else {
        0
    }) | (if (i / 4) % 2 == 1 {
        h.c
    } else {
        0
    }) | (if (i / 8) % 2 == 1 {
        h.d
    } else {
        0
    }) | (if (i / 16) % 2 == 1 {
        h.e
    } else {
        0
    })
}

/// The D/E group-select pattern of the SM5266 shifter for double-row `i`.
pub open spec fn spec_sm5266_row_address(h: HardwareMapping, i: int) -> u32 {
    (if (i / 8) % 2 == 1 {
        h.d
    } else {
        0
    }) | (if (i / 16) % 2 == 1 {
        h.e
    } else {
        0
    })
}

/// Drives A..E directly from a per-row lookup table.
#[derive(Debug, Clone, PartialEq, Eq)]
pub struct DirectRowAddressSetter {
    pub row_mask: u32,
    pub row_lookup: Vec<u32>,
    pub last_row: Option<usize>,
}

/// Shifts a single low bit through a shift register; `clock` and `data` are
/// two of the A..C lines.
#[derive(Debug, Clone, Copy, PartialEq, Eq)]
pub struct ShiftRegisterRowAddressSetter {
    pub row_mask: u32,
    pub last_row: Option<usize>,
    pub clock: u32,
    pub data: u32,
    pub double_rows: usize,
}

/// Selects one active-low line out of A..D for 1:4 multiplexed panels.
#[derive(Debug, Clone, PartialEq, Eq)]
pub struct DirectABCDLineRowAddressSetter {
    pub row_lines: Vec<u32>,
    pub row_mask: u32,
    pub last_row: Option<usize>,
}

/// The SM5266 shifter: an 8-bit shifter on A (clock), B (data) and C
/// (enable), with D and E selecting the group of eight rows.
#[derive(Debug, Clone, PartialEq, Eq)]
pub struct SM5266RowAddressSetter {
    pub row_mask: u32,
    pub row_lookup: Vec<u32>,
    pub last_row: Option<usize>,
    pub bk: u32,
    pub din: u32,
    pub dck: u32,
}

/// The operations of one shift-register row selection: one low data bit is
/// clocked through all `double_rows` positions, then one extra clock edge
/// latches it.
pub open spec fn spec_shift_ops(clock: u32, data: u32, double_rows: int, row: int) -> Seq<GpioOp> {
    Seq::new(
        (3 * double_rows + 2) as nat,
        |i: int|
            if i == 3 * double_rows {
                GpioOp::ClearBits(clock)
            } else if i == 3 * double_rows + 1 {
                GpioOp::SetBits(clock)
            } else if i % 3 == 0 {
                GpioOp::ClearBits(clock)
            } else if i % 3 == 1 {
                if i / 3 == double_rows - 1 - row {
                    GpioOp::ClearBits(data)
                } else {
                    GpioOp::SetBits(data)
                }
            } else {
                GpioOp::SetBits(clock)
            },
    )
}

/// The operations of one SM5266 row selection: enable the shifter, clock
/// eight bits in high-first (the selected row's position high, with a
/// doubled clock for slower panels), disable it, then select the group.
pub open spec fn spec_sm5266_ops(s: SM5266RowAddressSetter, row: int) -> Seq<GpioOp> {
    Seq::new(
        35,
        |i: int|
            if i == 0 {
                GpioOp::SetBits(s.bk)
            } else if i <= 32 {
                let k = (i - 1) / 4;
                let j = (i - 1) % 4;
                if j == 0 {
                    if row % 8 == 7 - k {
                        GpioOp::SetBits(s.din)
                    } else {
                        GpioOp::ClearBits(s.din)
                    }
                } else if j <= 2 {
                    GpioOp::SetBits(s.dck)
                } else {
                    GpioOp::ClearBits(s.dck)
                }
            } else if i == 33 {
                GpioOp::ClearBits(s.bk)
            } else {
                GpioOp::WriteMaskedBits { value: s.row_lookup@[row], mask: s.row_mask }
            },
    )
}

/// One configured row-address setter.
#[derive(Debug, Clone, PartialEq, Eq)]
pub enum RowAddressSetter {
    Direct(DirectRowAddressSetter),
    Shift(ShiftRegisterRowAddressSetter),
    ABCShift(ShiftRegisterRowAddressSetter),
    DirectABCDLine(DirectABCDLineRowAddressSetter),
    SM5266(SM5266RowAddressSetter),
}

/// The setter can address every double-row below `double_rows`.
pub open spec fn spec_setter_wf(s: RowAddressSetter, double_rows: int) -> bool {
    match s {
        RowAddressSetter::Direct(d) => d.row_lookup@.len() == double_rows,
        RowAddressSetter::Shift(d) => d.double_rows == double_rows && double_rows >= 1,
        RowAddressSetter::ABCShift(d) => d.double_rows == double_rows && double_rows >= 1,
        RowAddressSetter::DirectABCDLine(d) => d.row_lines@.len() == 4,
        RowAddressSetter::SM5266(d) => d.row_lookup@.len() == double_rows,
    }
}

/// The operations `set_row_address` emits: none when the row is already
/// driven, else the scheme's sequence.
pub open spec fn spec_setter_ops(s: RowAddressSetter, row: int) -> Seq<GpioOp> {
    match s {
        RowAddressSetter::Direct(d) => if d.last_row == Some(row as usize) {
            Seq::empty()
        } else {
            seq![GpioOp::WriteMaskedBits { value: d.row_lookup@[row], mask: d.row_mask }]
        },
        RowAddressSetter::Shift(d) => if d.last_row == Some(row as usize) {
            Seq::empty()
        } else {
            spec_shift_ops(d.clock, d.data, d.double_rows as int, row)
        },
        RowAddressSetter::ABCShift(d) => if d.last_row == Some(row as usize) {
            Seq::empty()
        } else {
            spec_shift_ops(d.clock, d.data, d.double_rows as int, row)
        },
        RowAddressSetter::DirectABCDLine(d) => if d.last_row == Some(row as usize) {
            Seq::empty()
        } else {
            seq![GpioOp::WriteMaskedBits { value: d.row_lines@[row % 4], mask: d.row_mask }]
        },
        RowAddressSetter::SM5266(d) => if d.last_row == Some(row as usize) {
            Seq::empty()
        } else {
            spec_sm5266_ops(d, row)
        },
    }
}

/// The setter's state after `set_row_address`: the row is cached.
pub open spec fn spec_setter_next(s: RowAddressSetter, row: int) -> RowAddressSetter {
    match s {
        RowAddressSetter::Direct(d) => RowAddressSetter::Direct(
            DirectRowAddressSetter { last_row: Some(row as usize), ..d },
        ),
        RowAddressSetter::Shift(d) => RowAddressSetter::Shift(
            ShiftRegisterRowAddressSetter { last_row: Some(row as usize), ..d },
        ),
        RowAddressSetter::ABCShift(d) => RowAddressSetter::ABCShift(
            ShiftRegisterRowAddressSetter { last_row: Some(row as usize), ..d },
        ),
        RowAddressSetter::DirectABCDLine(d) => RowAddressSetter::DirectABCDLine(
            DirectABCDLineRowAddressSetter { last_row: Some(row as usize), ..d },
        ),
        RowAddressSetter::SM5266(d) => RowAddressSetter::SM5266(
            SM5266RowAddressSetter { last_row: Some(row as usize), ..d },
        ),
    }
}

impl RowAddressSetter {
    /// OR of the row-address pins the setter drives.
    pub fn used_bits(&self) -> (r: u32)
        ensures
            r == self.spec_used_bits(),
    {
        match self {
            RowAddressSetter::Direct(d) => d.row_mask,
            RowAddressSetter::Shift(d) => d.row_mask,
            RowAddressSetter::ABCShift(d) => d.row_mask,
            RowAddressSetter::DirectABCDLine(d) => d.row_mask,
            RowAddressSetter::SM5266(d) => d.row_mask,
        }
    }

    pub open spec fn spec_used_bits(self) -> u32 {
        match self {
            RowAddressSetter::Direct(d) => d.row_mask,
            RowAddressSetter::Shift(d) => d.row_mask,
            RowAddressSetter::ABCShift(d) => d.row_mask,
            RowAddressSetter::DirectABCDLine(d) => d.row_mask,
            RowAddressSetter::SM5266(d) => d.row_mask,
        }
    }

    /// Append the operations that select `row`; a repeated row emits
    /// nothing. Selecting must happen in dark time.
    pub fn set_row_address(&mut self, ops: &mut Vec<GpioOp>, row: usize)
        requires
            spec_setter_wf(*old(self), old(self).spec_double_rows_of()),
            row < old(self).spec_double_rows_of() || (old(self) matches
            RowAddressSetter::DirectABCDLine(_)),
            row <= 0x1000_0000,
        ensures
            *final(self) == spec_setter_next(*old(self), row as int),
            final(ops)@ == old(ops)@ + spec_setter_ops(*old(self), row as int),
            spec_setter_wf(*final(self), old(self).spec_double_rows_of()),
            final(self).spec_double_rows_of() == old(self).spec_double_rows_of(),
    {
        let ghost start = ops@;
        match self {
            RowAddressSetter::Direct(d) => {
                if d.last_row == Some(row) {
                    proof {
                        assert(ops@ =~= start + spec_setter_ops(*old(self), row as int));
                    }
                    return ;
                }
                ops.push(
                    GpioOp::WriteMaskedBits { value: d.row_lookup[row], mask: d.row_mask },
                );
                d.last_row = Some(row);
                proof {
                    assert(ops@ =~= start + spec_setter_ops(*old(self), row as int));
                }
            },
            RowAddressSetter::Shift(d) => {
                if d.last_row == Some(row) {
                    proof {
                        assert(ops@ =~= start + spec_setter_ops(*old(self), row as int));
                    }
                    return ;
                }
                shift_register_ops(ops, d.clock, d.data, d.double_rows, row);
                d.last_row = Some(row);
            },
            RowAddressSetter::ABCShift(d) => {
                if d.last_row == Some(row) {
                    proof {
                        assert(ops@ =~= start + spec_setter_ops(*old(self), row as int));
                    }
                    return ;
                }
                shift_register_ops(ops, d.clock, d.data, d.double_rows, row);
                d.last_row = Some(row);
            },
            RowAddressSetter::DirectABCDLine(d) => {
                if d.last_row == Some(row) {
                    proof {
                        assert(ops@ =~= start + spec_setter_ops(*old(self), row as int));
                    }
                    return ;
                }
                ops.push(
                    GpioOp::WriteMaskedBits { value: d.row_lines[row % 4], mask: d.row_mask },
                );
                d.last_row = Some(row);
                proof {
                    assert(ops@ =~= start + spec_setter_ops(*old(self), row as int));
                }
            },
            RowAddressSetter::SM5266(d) => {
                if d.last_row == Some(row) {
                    proof {
                        assert(ops@ =~= start + spec_setter_ops(*old(self), row as int));
                    }
                    return ;
                }
                sm5266_ops(ops, d, row);
                d.last_row = Some(row);
            },
        }
    }

    /// How many double-rows the setter was configured for; the ABCD scheme
    /// addresses rows modulo four and carries no count.
    pub open spec fn spec_double_rows_of(self) -> int {
        match self {
            RowAddressSetter::Direct(d) => d.row_lookup@.len() as int,
            RowAddressSetter::Shift(d) => d.double_rows as int,
            RowAddressSetter::ABCShift(d) => d.double_rows as int,
            RowAddressSetter::DirectABCDLine(d) => 4,
            RowAddressSetter::SM5266(d) => d.row_lookup@.len() as int,
        }
    }
}

/// Append the shift-register selection sequence for `row`.
fn shift_register_ops(ops: &mut Vec<GpioOp>, clock: u32, data: u32, double_rows: usize, row: usize)
    requires
        1 <= double_rows,
        row < double_rows,
    ensures
        final(ops)@ == old(ops)@ + spec_shift_ops(clock, data, double_rows as int, row as int),
{
    let ghost start = ops@;
    let ghost total = spec_shift_ops(clock, data, double_rows as int, row as int);
    let mut activate: usize = 0;
    while activate < double_rows
        invariant
            0 <= activate <= double_rows,
            1 <= double_rows,
            row < double_rows,
            total == spec_shift_ops(clock, data, double_rows as int, row as int),
            ops@.len() == start.len() + 3 * activate,
            forall|j: int| 0 <= j < start.len() ==> #[trigger] ops@[j] == start[j],
            forall|j: int|
                0 <= j < 3 * activate ==> #[trigger] ops@[start.len() + j] == total[j],
        decreases double_rows - activate,
    {
        ops.push(GpioOp::ClearBits(clock));
        if activate == double_rows - 1 - row {
            ops.push(GpioOp::ClearBits(data));
        } else {
            ops.push(GpioOp::SetBits(data));
        }
        ops.push(GpioOp::SetBits(clock));
        activate = activate + 1;
    }
    let ghost mid = ops@;
    ops.push(GpioOp::ClearBits(clock));
    ops.push(GpioOp::SetBits(clock));
    proof {
        let dr = double_rows as int;
        assert(ops@.len() == start.len() + 3 * dr + 2);
        assert forall|i: int| 0 <= i < ops@.len() implies ops@[i] == (start + total)[i] by {
            if i < start.len() + 3 * dr {
                assert(ops@[i] == mid[i]);
                if i < start.len() {
                    assert(mid[i] == start[i]);
                } else {
                    assert(mid[start.len() + (i - start.len())] == total[i - start.len()]);
                }
            } else if i == start.len() + 3 * dr {
                assert(ops@[i] == GpioOp::ClearBits(clock));
                assert(total[3 * dr] == GpioOp::ClearBits(clock));
            } else {
                assert(ops@[i] == GpioOp::SetBits(clock));
                assert(total[3 * dr + 1] == GpioOp::SetBits(clock));
            }
        }
        assert(ops@ =~= start + total);
    }
}

/// Append the SM5266 selection sequence for `row`.
fn sm5266_ops(ops: &mut Vec<GpioOp>, d: &SM5266RowAddressSetter, row: usize)
    requires
        row < d.row_lookup@.len(),
    ensures
        final(ops)@ == old(ops)@ + spec_sm5266_ops(*d, row as int),
{
    let ghost start = ops@;
    let ghost total = spec_sm5266_ops(*d, row as int);
    ops.push(GpioOp::SetBits(d.bk));
    let mut k: usize = 0;
    while k < 8
        invariant
            0 <= k <= 8,
            row < d.row_lookup@.len(),
            total == spec_sm5266_ops(*d, row as int),
            ops@.len() == start.len() + 1 + 4 * k,
            forall|j: int| 0 <= j < start.len() ==> #[trigger] ops@[j] == start[j],
            forall|j: int|
                0 <= j < 1 + 4 * k ==> #[trigger] ops@[start.len() + j] == total[j],
        decreases 8 - k,
    {
        if row % 8 == 7 - k {
            ops.push(GpioOp::SetBits(d.din));
        } else {
            ops.push(GpioOp::ClearBits(d.din));
        }
        ops.push(GpioOp::SetBits(d.dck));
        ops.push(GpioOp::SetBits(d.dck));
        ops.push(GpioOp::ClearBits(d.dck));
        k = k + 1;
    }
    let ghost mid = ops@;
    ops.push(GpioOp::ClearBits(d.bk));
    ops.push(GpioOp::WriteMaskedBits { value: d.row_lookup[row], mask: d.row_mask });
    proof {
        assert(ops@.len() == start.len() + 35);
        assert forall|i: int| 0 <= i < ops@.len() implies ops@[i] == (start + total)[i] by {
            if i < start.len() + 33 {
                assert(ops@[i] == mid[i]);
                if i < start.len() {
                    assert(mid[i] == start[i]);
                } else {
                    assert(mid[start.len() + (i - start.len())] == total[i - start.len()]);
                }
            } else if i == start.len() + 33 {
                assert(ops@[i] == GpioOp::ClearBits(d.bk));
                assert(total[33] == GpioOp::ClearBits(d.bk));
            } else {
                assert(ops@[i] == GpioOp::WriteMaskedBits {
                    value: d.row_lookup@[row as int],
                    mask: d.row_mask,
                });
                assert(total[34] == GpioOp::WriteMaskedBits {
                    value: d.row_lookup@[row as int],
                    mask: d.row_mask,
                });
            }
        }
        assert(ops@ =~= start + total);
    }
}

impl RowAddressSetterType {
    /// Build the setter of this scheme for the given wiring and geometry.
    pub fn create(self, hardware_mapping: &HardwareMapping, config: &RGBMatrixConfig) -> (r:
        RowAddressSetter)
        requires
            0 < config.spec_double_rows() <= 32,
        ensures
            spec_setter_wf(r, r.spec_double_rows_of()),
            self != RowAddressSetterType::DirectABCDLine ==> r.spec_double_rows_of()
                == config.spec_double_rows(),
            self == RowAddressSetterType::DirectABCDLine ==> r.spec_double_rows_of() == 4,
            match r {
                RowAddressSetter::Direct(d) => {
                    &&& self == RowAddressSetterType::Direct
                    &&& d.last_row is None
                    &&& d.row_mask == (hardware_mapping.a | (if config.spec_double_rows() > 2 {
                        hardware_mapping.b
                    } else {
                        0u32
                    }) | (if config.spec_double_rows() > 4 {
                        hardware_mapping.c
                    } else {
                        0u32
                    }) | (if config.spec_double_rows() > 8 {
                        hardware_mapping.d
                    } else {
                        0u32
                    }) | (if config.spec_double_rows() > 16 {
                        hardware_mapping.e
                    } else {
                        0u32
                    }))
                    &&& forall|i: int|
                        0 <= i < d.row_lookup@.len() ==> #[trigger] d.row_lookup@[i]
                            == spec_direct_row_address(*hardware_mapping, i)
                },
                RowAddressSetter::Shift(d) => {
                    &&& self == RowAddressSetterType::Shift
                    &&& d.last_row is None
                    &&& d.row_mask == (hardware_mapping.a | hardware_mapping.b)
                    &&& d.clock == hardware_mapping.a
                    &&& d.data == hardware_mapping.b
                },
                RowAddressSetter::ABCShift(d) => {
                    &&& self == RowAddressSetterType::ABCShift
                    &&& d.last_row is None
                    &&& d.row_mask == (hardware_mapping.a | hardware_mapping.c)
                    &&& d.clock == hardware_mapping.a
                    &&& d.data == hardware_mapping.c
                },
                RowAddressSetter::DirectABCDLine(d) => {
                    &&& self == RowAddressSetterType::DirectABCDLine
                    &&& d.last_row is None
                    &&& d.row_mask == (hardware_mapping.a | hardware_mapping.b
                        | hardware_mapping.c | hardware_mapping.d)
                    &&& d.row_lines@ == seq![
                        (hardware_mapping.b | hardware_mapping.c | hardware_mapping.d),
                        (hardware_mapping.a | hardware_mapping.c | hardware_mapping.d),
                        (hardware_mapping.a | hardware_mapping.b | hardware_mapping.d),
                        (hardware_mapping.a | hardware_mapping.b | hardware_mapping.c),
                    ]
                },
                RowAddressSetter::SM5266(d) => {
                    &&& self == RowAddressSetterType::SM5266
                    &&& d.last_row is None
                    &&& d.row_mask == ((hardware_mapping.a | hardware_mapping.b
                        | hardware_mapping.c) | (if config.spec_double_rows() > 8 {
                        hardware_mapping.d
                    } else {
                        0u32
                    }) | (if config.spec_double_rows() > 16 {
                        hardware_mapping.e
                    } else {
                        0u32
                    }))
                    &&& d.bk == hardware_mapping.c
                    &&& d.din == hardware_mapping.b
                    &&& d.dck == hardware_mapping.a
                    &&& forall|i: int|
                        0 <= i < d.row_lookup@.len() ==> #[trigger] d.row_lookup@[i]
                            == spec_sm5266_row_address(*hardware_mapping, i)
                },
            },
    {
        let h = hardware_mapping;
        let double_rows = config.double_rows();
        match self {
            RowAddressSetterType::Direct => {
                let m2: u32 = if double_rows > 2 {
                    h.b
                } else {
                    0
                };
                let m4: u32 = if double_rows > 4 {
                    h.c
                } else {
                    0
                };
                let m8: u32 = if double_rows > 8 {
                    h.d
                } else {
                    0
                };
                let m16: u32 = if double_rows > 16 {
                    h.e
                } else {
                    0
                };
                let row_mask = h.a | m2 | m4 | m8 | m16;
                let mut row_lookup: Vec<u32> = Vec::new();
                let mut i: usize = 0;
                while i < double_rows
                    invariant
                        0 <= i <= double_rows,
                        row_lookup@.len() == i,
                        forall|j: int|
                            0 <= j < i ==> #[trigger] row_lookup@[j] == spec_direct_row_address(
                                *h,
                                j,
                            ),
                    decreases double_rows - i,
                {
                    let a1: u32 = if i % 2 == 1 {
                        h.a
                    } else {
                        0
                    };
                    let a2: u32 = if (i / 2) % 2 == 1 {
                        h.b
                    } else {
                        0
                    };
                    let a4: u32 = if (i / 4) % 2 == 1 {
                        h.c
                    } else {
                        0
                    };
                    let a8: u32 = if (i / 8) % 2 == 1 {
                        h.d
                    } else {
                        0
                    };
                    let a16: u32 = if (i / 16) % 2 == 1 {
                        h.e
                    } else {
                        0
                    };
                    row_lookup.push(a1 | a2 | a4 | a8 | a16);
                    i = i + 1;
                }
                RowAddressSetter::Direct(
                    DirectRowAddressSetter { row_mask, row_lookup, last_row: None },
                )
            },
            RowAddressSetterType::Shift => RowAddressSetter::Shift(
                ShiftRegisterRowAddressSetter {
                    row_mask: h.a | h.b,
                    last_row: None,
                    clock: h.a,
                    data: h.b,
                    double_rows,
                },
            ),
            RowAddressSetterType::ABCShift => RowAddressSetter::ABCShift(
                ShiftRegisterRowAddressSetter {
                    row_mask: h.a | h.c,
                    last_row: None,
                    clock: h.a,
                    data: h.c,
                    double_rows,
                },
            ),
            RowAddressSetterType::DirectABCDLine => {
                let mut row_lines: Vec<u32> = Vec::new();
                row_lines.push(h.b | h.c | h.d);
                row_lines.push(h.a | h.c | h.d);
                row_lines.push(h.a | h.b | h.d);
                row_lines.push(h.a | h.b | h.c);
                proof {
                    assert(row_lines@ =~= seq![
                        (h.b | h.c | h.d),
                        (h.a | h.c | h.d),
                        (h.a | h.b | h.d),
                        (h.a | h.b | h.c),
                    ]);
                }
                RowAddressSetter::DirectABCDLine(
                    DirectABCDLineRowAddressSetter {
                        row_lines,
                        row_mask: h.a | h.b | h.c | h.d,
                        last_row: None,
                    },
                )
            },
            RowAddressSetterType::SM5266 => {
                let m8: u32 = if double_rows > 8 {
                    h.d
                } else {
                    0
                };
                let m16: u32 = if double_rows > 16 {
                    h.e
                } else {
                    0
                };
                let row_mask = (h.a | h.b | h.c) | m8 | m16;
                let mut row_lookup: Vec<u32> = Vec::new();
                let mut i: usize = 0;
                while i < double_rows
                    invariant
                        0 <= i <= double_rows,
                        row_lookup@.len() == i,
                        forall|j: int|
                            0 <= j < i ==> #[trigger] row_lookup@[j] == spec_sm5266_row_address(
                                *h,
                                j,
                            ),
                    decreases double_rows - i,
                {
                    let a8: u32 = if (i / 8) % 2 == 1 {
                        h.d
                    } else {
                        0
                    };
                    let a16: u32 = if (i / 16) % 2 == 1 {
                        h.e
                    } else {
                        0
                    };
                    row_lookup.push(a8 | a16);
                    i = i + 1;
                }
                RowAddressSetter::SM5266(
                    SM5266RowAddressSetter {
                        row_mask,
                        row_lookup,
                        last_row: None,
                        bk: h.c,
                        din: h.b,
                        dck: h.a,
                    },
                )
            },
        }
    }
}

} // verus!
