//! The supported SoC variants and what follows from each: peripheral base
//! address, core count and the default GPIO write slowdown.

use vstd::prelude::*;
use vstd::string::StringSliceAdditionalSpecFns;
use crate::error::InvalidVariantError;
use crate::utils::{ascii_upper, parse_dec_u32, spec_ascii_upper, spec_parse_dec};

verus! {

/// The Broadcom chip of the board.
#[derive(Clone, Copy, Debug, PartialEq, Eq, Hash)]
pub enum PiChip {
    /// Models 0 and 1.
    BCM2708,
    /// Models 2 and 3.
    BCM2709,
    /// Model 4.
    BCM2711,
}

impl PiChip {
    /// How many CPU cores the chip has.
    pub fn num_cores(self) -> (r: usize)
        ensures
            r == self.spec_num_cores(),
            1 <= r,
    {
        match self {
            PiChip::BCM2708 => 1,
            PiChip::BCM2709 => 4,
            PiChip::BCM2711 => 4,
        }
    }

    pub open spec fn spec_num_cores(self) -> usize {
        match self {
            PiChip::BCM2708 => 1usize,
            PiChip::BCM2709 => 4usize,
            PiChip::BCM2711 => 4usize,
        }
    }

    /// All peripherals are addressed at an offset from this base.
    pub fn get_peripherals_base(self) -> (r: u64)
        ensures
            r == self.spec_peripherals_base(),
    {
        match self {
            PiChip::BCM2708 => 0x2000_0000,
            PiChip::BCM2709 => 0x3F00_0000,
            PiChip::BCM2711 => 0xFE00_0000,
        }
    }

    pub open spec fn spec_peripherals_base(self) -> u64 {
        match self {
            PiChip::BCM2708 => 0x2000_0000u64,
            PiChip::BCM2709 => 0x3F00_0000u64,
            PiChip::BCM2711 => 0xFE00_0000u64,
        }
    }

    /// The default number of extra repetitions of each GPIO write; newer
    /// chips drive the bus too fast for the panels.
    pub fn gpio_slowdown(self) -> (r: u32)
        ensures
            r == self.spec_gpio_slowdown(),
    {
        match self {
            PiChip::BCM2708 => 1,
            PiChip::BCM2709 => 1,
            PiChip::BCM2711 => 3,
        }
    }

    pub open spec fn spec_gpio_slowdown(self) -> u32 {
        match self {
            PiChip::BCM2708 => 1u32,
            PiChip::BCM2709 => 1u32,
            PiChip::BCM2711 => 3u32,
        }
    }

    /// The chip encoded in the processor-model field of a new-style revision
    /// code (bits 12..16 of the code).
    pub fn from_revision_code(revision: u32) -> (r: Option<PiChip>)
        ensures
            r == Self::spec_from_processor_model((revision >> 12) & 0xF),
    {
        Self::from_processor_model((revision >> 12) & 0xF)
    }

    /// The chip for a processor-model number.
    pub fn from_processor_model(model: u32) -> (r: Option<PiChip>)
        ensures
            r == Self::spec_from_processor_model(model),
    {
        match model {
            0 => Some(PiChip::BCM2708),
            1 => Some(PiChip::BCM2709),
            2 => Some(PiChip::BCM2709),
            3 => Some(PiChip::BCM2711),
            _ => None,
        }
    }

    pub open spec fn spec_from_processor_model(model: u32) -> Option<PiChip> {
        if model == 0 {
            Some(PiChip::BCM2708)
        } else if model == 1 || model == 2 {
            Some(PiChip::BCM2709)
        } else if model == 3 {
            Some(PiChip::BCM2711)
        } else {
            None
        }
    }
}

/// Whether position `i` of `s` starts a line: the very beginning, or the
/// position after a newline.
pub open spec fn spec_is_line_start(s: Seq<u8>, i: int) -> bool {
    i == 0 || s[i - 1] == 10
}

/// Whether `s` carries `p` at position `i`.
pub open spec fn spec_has_prefix(s: Seq<u8>, p: Seq<u8>, i: int) -> bool {
    &&& i + p.len() <= s.len()
    &&& forall|j: int| 0 <= j < p.len() ==> s[i + j] == #[trigger] p[j]
}

/// The first line at or after `from` that starts with `p`.
pub open spec fn spec_find_line(s: Seq<u8>, p: Seq<u8>, from: int) -> Option<int>
    decreases s.len() - from,
{
    if from < 0 || from >= s.len() {
        None
    } else if spec_is_line_start(s, from) && spec_has_prefix(s, p, from) {
        Some(from)
    } else {
        spec_find_line(s, p, from + 1)
    }
}

/// The end of the line starting at or containing `i`: the next newline, or
/// the end of the text.
pub open spec fn spec_line_end(s: Seq<u8>, i: int) -> int
    decreases s.len() - i,
{
    if i < 0 || i >= s.len() {
        s.len() as int
    } else if s[i] == 10 {
        i
    } else {
        spec_line_end(s, i + 1)
    }
}

/// The start of the last space-separated token of `s[k..end)`, with `acc`
/// the start found so far.
pub open spec fn spec_last_token_start(s: Seq<u8>, k: int, end: int, acc: int) -> int
    decreases end - k,
{
    if k >= end {
        acc
    } else {
        spec_last_token_start(s, k + 1, end, if s[k] == 32 {
            k + 1
        } else {
            acc
        })
    }
}

/// The value of one hexadecimal digit.
pub open spec fn spec_hex_digit(b: u8) -> Option<u32> {
    if 48 <= b <= 57 {
        Some((b - 48) as u32)
    } else if 97 <= b <= 102 {
        Some((b - 97 + 10) as u32)
    } else if 65 <= b <= 70 {
        Some((b - 65 + 10) as u32)
    } else {
        None
    }
}

/// The 32-bit value of the hexadecimal digits `s[k..end)` folded onto
/// `acc`; an invalid digit or an overflow yields nothing.
pub open spec fn spec_parse_hex(s: Seq<u8>, k: int, end: int, acc: u32) -> Option<u32>
    decreases end - k,
{
    if k >= end {
        Some(acc)
    } else {
        match spec_hex_digit(s[k]) {
            None => None,
            Some(d) => if acc > (0xFFFF_FFFFu32 - d) as u32 / 16 {
                None
            } else {
                spec_parse_hex(s, k + 1, end, (acc * 16 + d) as u32)
            },
        }
    }
}

/// The chip the processor-identification text names: the last token of the
/// first `Revision` line, read as an old-style length-four code or as a
/// new-style hexadecimal code, or failing such a line, the decimal model of
/// the first `CPU revision` line.
pub open spec fn spec_chip_of_cpuinfo(s: Seq<u8>) -> Option<PiChip> {
    let revision_prefix = seq![82u8, 101u8, 118u8, 105u8, 115u8, 105u8, 111u8, 110u8];
    let cpu_prefix = seq![
        67u8,
        80u8,
        85u8,
        32u8,
        114u8,
        101u8,
        118u8,
        105u8,
        115u8,
        105u8,
        111u8,
        110u8,
    ];
    match spec_find_line(s, revision_prefix, 0) {
        Some(i) => {
            let end = spec_line_end(s, i);
            let tok = spec_last_token_start(s, i, end, i);
            if end - tok == 4 {
                Some(PiChip::BCM2708)
            } else if tok >= end {
                None
            } else {
                match spec_parse_hex(s, tok, end, 0) {
                    None => None,
                    Some(revision) => PiChip::spec_from_processor_model((revision >> 12) & 0xF),
                }
            }
        },
        None => match spec_find_line(s, cpu_prefix, 0) {
            Some(i) => {
                let end = spec_line_end(s, i);
                let tok = spec_last_token_start(s, i, end, i);
                if tok >= end {
                    None
                } else {
                    match spec_parse_dec(s, tok, end, 0) {
                        None => None,
                        Some(model) => PiChip::spec_from_processor_model(model),
                    }
                }
            },
            None => None,
        },
    }
}

/// Whether `bytes` carries `prefix` at a line start at position `i`.
fn line_starts_with(bytes: &[u8], prefix: &Vec<u8>, i: usize) -> (r: bool)
    requires
        i < bytes@.len(),
    ensures
        r == (spec_is_line_start(bytes@, i as int) && spec_has_prefix(bytes@, prefix@, i as int)),
{
    if i != 0 && bytes[i - 1] != 10 {
        return false;
    }
    if prefix.len() > bytes.len() - i {
        return false;
    }
    let mut j: usize = 0;
    while j < prefix.len()
        invariant
            0 <= j <= prefix@.len(),
            i + prefix@.len() <= bytes@.len(),
            bytes@.len() <= usize::MAX,
            forall|jj: int| 0 <= jj < j ==> bytes@[i + jj] == #[trigger] prefix@[jj],
        decreases prefix@.len() - j,
    {
        if bytes[i + j] != prefix[j] {
            return false;
        }
        j = j + 1;
    }
    true
}

/// The first line of `bytes` starting with `prefix`.
fn find_line(bytes: &[u8], prefix: &Vec<u8>) -> (r: Option<usize>)
    ensures
        match r {
            Some(i) => Some(i as int) == spec_find_line(bytes@, prefix@, 0) && i < bytes@.len(),
            None => spec_find_line(bytes@, prefix@, 0) is None,
        },
{
    let mut i: usize = 0;
    while i < bytes.len()
        invariant
            0 <= i <= bytes@.len(),
            spec_find_line(bytes@, prefix@, 0) == spec_find_line(bytes@, prefix@, i as int),
        decreases bytes@.len() - i,
    {
        if line_starts_with(bytes, prefix, i) {
            return Some(i);
        }
        i = i + 1;
    }
    None
}

/// The end of the line containing `i`.
fn line_end(bytes: &[u8], i: usize) -> (r: usize)
    requires
        i <= bytes@.len(),
    ensures
        r as int == spec_line_end(bytes@, i as int),
        i <= r <= bytes@.len(),
{
    let mut k: usize = i;
    while k < bytes.len()
        invariant
            i <= k <= bytes@.len(),
            spec_line_end(bytes@, i as int) == spec_line_end(bytes@, k as int),
        decreases bytes@.len() - k,
    {
        if bytes[k] == 10 {
            return k;
        }
        k = k + 1;
    }
    k
}

/// The start of the last space-separated token of `bytes[start..end)`.
fn last_token_start(bytes: &[u8], start: usize, end: usize) -> (r: usize)
    requires
        start <= end <= bytes@.len(),
    ensures
        r as int == spec_last_token_start(bytes@, start as int, end as int, start as int),
        start <= r <= end,
{
    let mut tok: usize = start;
    let mut k: usize = start;
    while k < end
        invariant
            start <= k <= end <= bytes@.len(),
            start <= tok <= k,
            spec_last_token_start(bytes@, start as int, end as int, start as int)
                == spec_last_token_start(bytes@, k as int, end as int, tok as int),
        decreases end - k,
    {
        if bytes[k] == 32 {
            tok = k + 1;
        }
        k = k + 1;
    }
    tok
}

/// The hexadecimal number `bytes[start..end)`, if it is one and fits.
fn parse_hex_u32(bytes: &[u8], start: usize, end: usize) -> (r: Option<u32>)
    requires
        start <= end <= bytes@.len(),
    ensures
        r == spec_parse_hex(bytes@, start as int, end as int, 0u32),
{
    let mut acc: u32 = 0;
    let mut k: usize = start;
    while k < end
        invariant
            start <= k <= end <= bytes@.len(),
            spec_parse_hex(bytes@, start as int, end as int, 0u32) == spec_parse_hex(
                bytes@,
                k as int,
                end as int,
                acc,
            ),
        decreases end - k,
    {
        let b = bytes[k];
        let d: u32 = if b >= 48 && b <= 57 {
            (b - 48) as u32
        } else if b >= 97 && b <= 102 {
            (b - 97 + 10) as u32
        } else if b >= 65 && b <= 70 {
            (b - 65 + 10) as u32
        } else {
            return None;
        };
        if acc > (0xFFFF_FFFFu32 - d) / 16 {
            return None;
        }
        acc = acc * 16 + d;
        k = k + 1;
    }
    Some(acc)
}

impl PiChip {
    /// Identify the chip from the processor-identification text the kernel
    /// exposes.
    pub fn determine_from_cpuinfo(cpuinfo: &[u8]) -> (r: Option<PiChip>)
        ensures
            r == spec_chip_of_cpuinfo(cpuinfo@),
    {
        // The field names looked for: `Revision` and `CPU revision`.
        let revision_prefix: Vec<u8> = vec![82, 101, 118, 105, 115, 105, 111, 110];
        let cpu_prefix: Vec<u8> = vec![67, 80, 85, 32, 114, 101, 118, 105, 115, 105, 111, 110];
        proof {
            assert(revision_prefix@ =~= seq![82u8, 101u8, 118u8, 105u8, 115u8, 105u8, 111u8,
                110u8]);
            assert(cpu_prefix@ =~= seq![
                67u8,
                80u8,
                85u8,
                32u8,
                114u8,
                101u8,
                118u8,
                105u8,
                115u8,
                105u8,
                111u8,
                110u8,
            ]);
        }
        if let Some(i) = find_line(cpuinfo, &revision_prefix) {
            let end = line_end(cpuinfo, i);
            let tok = last_token_start(cpuinfo, i, end);
            if end - tok == 4 {
                // Old-style four-digit revisions all belong to the first
                // model.
                return Some(PiChip::BCM2708);
            }
            if tok >= end {
                return None;
            }
            match parse_hex_u32(cpuinfo, tok, end) {
                None => None,
                Some(revision) => PiChip::from_revision_code(revision),
            }
        } else if let Some(i) = find_line(cpuinfo, &cpu_prefix) {
            let end = line_end(cpuinfo, i);
            let tok = last_token_start(cpuinfo, i, end);
            if tok >= end {
                return None;
            }
            match parse_dec_u32(cpuinfo, tok, end) {
                None => None,
                Some(model) => PiChip::from_processor_model(model),
            }
        } else {
            None
        }
    }
}

/// The chip a model name selects, compared without regard to ASCII case:
/// the marketing aliases of one die map to the same chip.
pub open spec fn spec_chip_of(bytes: Seq<u8>) -> Option<PiChip> {
    if bytes.len() != 7 {
        None
    } else {
        let folded = Seq::new(7, |i: int| spec_ascii_upper(bytes[i]));
        // The names are BCM2708/BCM2835, BCM2709/BCM2836/BCM2837, BCM2711.
        if folded =~= seq![66u8, 67u8, 77u8, 50u8, 55u8, 48u8, 56u8] || folded =~= seq![
            66u8,
            67u8,
            77u8,
            50u8,
            56u8,
            51u8,
            53u8,
        ] {
            Some(PiChip::BCM2708)
        } else if folded =~= seq![66u8, 67u8, 77u8, 50u8, 55u8, 48u8, 57u8] || folded =~= seq![
            66u8,
            67u8,
            77u8,
            50u8,
            56u8,
            51u8,
            54u8,
        ] || folded =~= seq![66u8, 67u8, 77u8, 50u8, 56u8, 51u8, 55u8] {
            Some(PiChip::BCM2709)
        } else if folded =~= seq![66u8, 67u8, 77u8, 50u8, 55u8, 49u8, 49u8] {
            Some(PiChip::BCM2711)
        } else {
            None
        }
    }
}

impl PiChip {
    /// Parse a chip model name such as `BCM2711` or `bcm2835`.
    pub fn parse(s: &str) -> (r: Result<PiChip, InvalidVariantError>)
        ensures
            match spec_chip_of(s.spec_bytes()) {
                Some(v) => r == Ok::<PiChip, InvalidVariantError>(v),
                None => r is Err,
            },
    {
        let bytes = s.as_bytes();
        if bytes.len() != 7 {
            return Err(InvalidVariantError::new("BCM2708 BCM2709 BCM2711".to_owned()));
        }
        let mut folded: Vec<u8> = Vec::new();
        let mut i: usize = 0;
        while i < 7
            invariant
                0 <= i <= 7,
                bytes@.len() == 7,
                folded@.len() == i,
                forall|j: int| 0 <= j < i ==> #[trigger] folded@[j] == spec_ascii_upper(bytes@[j]),
            decreases 7 - i,
        {
            folded.push(ascii_upper(bytes[i]));
            i = i + 1;
        }
        proof {
            assert(folded@ =~= Seq::new(7, |j: int| spec_ascii_upper(bytes@[j])));
        }
        let tail_ok = folded[0] == 66 && folded[1] == 67 && folded[2] == 77 && folded[3] == 50;
        if tail_ok && folded[4] == 55 && folded[5] == 48 && folded[6] == 56 {
            Ok(PiChip::BCM2708)
        } else if tail_ok && folded[4] == 56 && folded[5] == 51 && folded[6] == 53 {
            Ok(PiChip::BCM2708)
        } else if tail_ok && folded[4] == 55 && folded[5] == 48 && folded[6] == 57 {
            Ok(PiChip::BCM2709)
        } else if tail_ok && folded[4] == 56 && folded[5] == 51 && folded[6] == 54 {
            Ok(PiChip::BCM2709)
        } else if tail_ok && folded[4] == 56 && folded[5] == 51 && folded[6] == 55 {
            Ok(PiChip::BCM2709)
        } else if tail_ok && folded[4] == 55 && folded[5] == 49 && folded[6] == 49 {
            Ok(PiChip::BCM2711)
        } else {
            proof {
                let f = Seq::new(7, |j: int| spec_ascii_upper(bytes@[j]));
                assert(!(f =~= seq![66u8, 67u8, 77u8, 50u8, 55u8, 48u8, 56u8]));
                assert(!(f =~= seq![66u8, 67u8, 77u8, 50u8, 56u8, 51u8, 53u8]));
                assert(!(f =~= seq![66u8, 67u8, 77u8, 50u8, 55u8, 48u8, 57u8]));
                assert(!(f =~= seq![66u8, 67u8, 77u8, 50u8, 56u8, 51u8, 54u8]));
                assert(!(f =~= seq![66u8, 67u8, 77u8, 50u8, 56u8, 51u8, 55u8]));
                assert(!(f =~= seq![66u8, 67u8, 77u8, 50u8, 55u8, 49u8, 49u8]));
            }
            Err(InvalidVariantError::new("BCM2708 BCM2709 BCM2711".to_owned()))
        }
    }
}

} // verus!
