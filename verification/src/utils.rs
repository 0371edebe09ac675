//! Small GPIO bit-mask helpers shared by the whole crate.

use vstd::prelude::*;
use vstd::string::StringSliceAdditionalSpecFns;

verus! {

/// The mask with exactly the bit for GPIO pin `pin` set.
pub fn gpio_bit(pin: u32) -> (r: u32)
    requires
        pin < 32,
    ensures
        r == 1u32 << pin,
{
    1u32 << pin
}

/// An ASCII lowercase letter folded to its uppercase form; any other byte
/// unchanged.
pub open spec fn spec_ascii_upper(b: u8) -> u8 {
    if 97 <= b <= 122 {
        (b - 32) as u8
    } else {
        b
    }
}

/// See `spec_ascii_upper`.
pub fn ascii_upper(b: u8) -> (r: u8)
    ensures
        r == spec_ascii_upper(b),
{
    if b >= 97 && b <= 122 {
        b - 32
    } else {
        b
    }
}

/// Whether a string's bytes are exactly the given codes.
pub fn str_matches(s: &str, codes: &Vec<u8>) -> (r: bool)
    ensures
        r == (s.spec_bytes() =~= codes@),
{
    let bytes = s.as_bytes();
    if bytes.len() != codes.len() {
        return false;
    }
    let mut i: usize = 0;
    while i < codes.len()
        invariant
            0 <= i <= codes@.len(),
            bytes@.len() == codes@.len(),
            bytes@ == s.spec_bytes(),
            forall|j: int| 0 <= j < i ==> bytes@[j] == #[trigger] codes@[j],
        decreases codes@.len() - i,
    {
        if bytes[i] != codes[i] {
            return false;
        }
        i = i + 1;
    }
    true
}

/// The 32-bit value of the decimal digits `s[k..end)` folded onto `acc`.
pub open spec fn spec_parse_dec(s: Seq<u8>, k: int, end: int, acc: u32) -> Option<u32>
    decreases end - k,
{
    if k >= end {
        Some(acc)
    } else if !(48 <= s[k] <= 57) {
        None
    } else {
        let d = (s[k] - 48) as u32;
        if acc > (0xFFFF_FFFFu32 - d) as u32 / 10 {
            None
        } else {
            spec_parse_dec(s, k + 1, end, (acc * 10 + d) as u32)
        }
    }
}

/// The decimal number `bytes[start..end)`, if it is one and fits.
pub fn parse_dec_u32(bytes: &[u8], start: usize, end: usize) -> (r: Option<u32>)
    requires
        start <= end <= bytes@.len(),
    ensures
        r == spec_parse_dec(bytes@, start as int, end as int, 0u32),
{
    let mut acc: u32 = 0;
    let mut k: usize = start;
    while k < end
        invariant
            start <= k <= end <= bytes@.len(),
            spec_parse_dec(bytes@, start as int, end as int, 0u32) == spec_parse_dec(
                bytes@,
                k as int,
                end as int,
                acc,
            ),
        decreases end - k,
    {
        let b = bytes[k];
        if !(b >= 48 && b <= 57) {
            return None;
        }
        let d: u32 = (b - 48) as u32;
        if acc > (0xFFFF_FFFFu32 - d) / 10 {
            return None;
        }
        acc = acc * 10 + d;
        k = k + 1;
    }
    Some(acc)
}

/// The first position of `byte` in `s` at or after `from`.
pub open spec fn spec_find_byte(s: Seq<u8>, byte: u8, from: int) -> Option<int>
    decreases s.len() - from,
{
    if from < 0 || from >= s.len() {
        None
    } else if s[from] == byte {
        Some(from)
    } else {
        spec_find_byte(s, byte, from + 1)
    }
}

/// See `spec_find_byte`.
pub fn find_byte(bytes: &[u8], byte: u8) -> (r: Option<usize>)
    ensures
        match r {
            Some(i) => Some(i as int) == spec_find_byte(bytes@, byte, 0) && i < bytes@.len(),
            None => spec_find_byte(bytes@, byte, 0) is None,
        },
{
    let mut i: usize = 0;
    while i < bytes.len()
        invariant
            0 <= i <= bytes@.len(),
            spec_find_byte(bytes@, byte, 0) == spec_find_byte(bytes@, byte, i as int),
        decreases bytes@.len() - i,
    {
        if bytes[i] == byte {
            return Some(i);
        }
        i = i + 1;
    }
    None
}

/// Whether `bytes[start..end)` is exactly the given codes.
pub fn range_matches(bytes: &[u8], start: usize, end: usize, codes: &Vec<u8>) -> (r: bool)
    requires
        start <= end <= bytes@.len(),
    ensures
        r == (bytes@.subrange(start as int, end as int) =~= codes@),
{
    if end - start != codes.len() {
        return false;
    }
    let mut i: usize = 0;
    while i < codes.len()
        invariant
            0 <= i <= codes@.len(),
            start + codes@.len() == end,
            end <= bytes@.len(),
            forall|j: int| 0 <= j < i ==> bytes@[start + j] == #[trigger] codes@[j],
        decreases codes@.len() - i,
    {
        if bytes[start + i] != codes[i] {
            proof {
                assert(bytes@.subrange(start as int, end as int)[i as int] == bytes@[start + i]);
            }
            return false;
        }
        i = i + 1;
    }
    proof {
        assert forall|j: int| 0 <= j < codes@.len() implies bytes@.subrange(
            start as int,
            end as int,
        )[j] == codes@[j] by {
            assert(bytes@.subrange(start as int, end as int)[j] == bytes@[start + j]);
        }
    }
    true
}

} // verus!
