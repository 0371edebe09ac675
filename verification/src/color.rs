//! CIE 1931 luminance correction, scaled to the 11 output bit-planes.
//!
//! The correction maps a perceptually linear byte to a physically linear
//! intensity. The arithmetic is carried out exactly over the integers: with
//! `t = c * brightness` the curve is `2047 * (t/255) / 902.3` for small
//! values and `2047 * ((t/255 + 16) / 116)^3` above them, rounded to the
//! nearest integer. Clearing the fractions gives the two closed forms below;
//! `25881801912000` is `(255 * 116)^3` and `920346` is `2 * 255 * 902.3 * 2`.

use vstd::prelude::*;
use vstd::arithmetic::div_mod::lemma_div_is_ordered;

verus! {

/// The luminance value for color byte `c` at brightness `brightness`,
/// as an 11-bit integer.
pub open spec fn spec_luminance_cie1931(c: int, brightness: int) -> int {
    let t = c * brightness;
    if t <= 2040 {
        (8188 * t + 460173) / 920346
    } else {
        let u = t + 4080;
        (4094 * u * u * u + 25881801912000) / 51763603824000
    }
}

/// CIE 1931 luminance correction of one color byte, scaled to 11 bits.
pub fn luminance_cie1931(c: u8, brightness: u8) -> (r: u16)
    requires
        1 <= brightness <= 100,
    ensures
        r == spec_luminance_cie1931(c as int, brightness as int),
        r <= 2047,
{
    proof {
        assert((c as int) * (brightness as int) <= 25500) by (nonlinear_arith)
            requires
                c <= 255,
                brightness <= 100,
        ;
    }
    let t: u64 = (c as u64) * (brightness as u64);
    if t <= 2040 {
        proof {
            lemma_div_is_ordered(8188 * (t as int) + 460173, 17163693int, 920346);
        }
        ((8188 * t + 460173) / 920346) as u16
    } else {
        let u: u64 = t + 4080;
        proof {
            assert(4094 * (u as int) <= 121100520 && 4094 * (u as int) * (u as int)
                <= 3582153381600 && 4094 * (u as int) * (u as int) * (u as int)
                <= 105960097027728000) by (nonlinear_arith)
                requires
                    0 <= u <= 29580,
            ;
        }
        let n: u64 = 4094 * u * u * u;
        proof {
            lemma_div_is_ordered(
                n as int + 25881801912000,
                4094int * 25881801912000 + 25881801912000,
                51763603824000,
            );
        }
        ((n + 25881801912000) / 51763603824000) as u16
    }
}

/// Luminance is monotone in the product `t = c * brightness`.
proof fn lemma_luminance_monotone_in_t(t1: int, t2: int)
    requires
        0 <= t1 <= t2,
    ensures
        spec_lum_of_t(t1) <= spec_lum_of_t(t2),
{
    if t2 <= 2040 {
        lemma_div_is_ordered(8188 * t1 + 460173, 8188 * t2 + 460173, 920346);
    } else if t1 > 2040 {
        let u1 = t1 + 4080;
        let u2 = t2 + 4080;
        assert(u1 * u1 * u1 <= u2 * u2 * u2) by (nonlinear_arith)
            requires
                0 <= u1 <= u2,
        ;
        lemma_div_is_ordered(
            4094int * (u1 * u1 * u1) + 25881801912000,
            4094int * (u2 * u2 * u2) + 25881801912000,
            51763603824000,
        );
        assert(4094 * u1 * u1 * u1 == 4094 * (u1 * u1 * u1)) by (nonlinear_arith);
        assert(4094 * u2 * u2 * u2 == 4094 * (u2 * u2 * u2)) by (nonlinear_arith);
    } else {
        // Across the branch boundary: the low branch tops out at the value
        // the high branch starts from.
        lemma_div_is_ordered(8188 * t1 + 460173, 8188int * 2040 + 460173, 920346);
        assert(spec_lum_of_t(2040) == 18);
        let u2 = t2 + 4080;
        assert(6121 * 6121 * 6121 == 229333309561) by (nonlinear_arith);
        assert(spec_lum_of_t(2041) == (4094 * 6121 * 6121 * 6121 + 25881801912000)
            / 51763603824000);
        assert(4094 * 6121 * 6121 * 6121 == 4094 * 229333309561) by (nonlinear_arith);
        assert(spec_lum_of_t(2041) == 18);
        assert(u2 * u2 * u2 >= 6121 * 6121 * 6121) by (nonlinear_arith)
            requires
                u2 >= 6121,
        ;
        lemma_div_is_ordered(
            4094int * (6121 * 6121 * 6121) + 25881801912000,
            4094 * (u2 * u2 * u2) + 25881801912000,
            51763603824000,
        );
        assert(4094 * u2 * u2 * u2 == 4094 * (u2 * u2 * u2)) by (nonlinear_arith);
    }
}

/// The luminance curve over the product `t = c * brightness` alone.
pub open spec fn spec_lum_of_t(t: int) -> int {
    if t <= 2040 {
        (8188 * t + 460173) / 920346
    } else {
        let u = t + 4080;
        (4094 * u * u * u + 25881801912000) / 51763603824000
    }
}

/// CIE luminance is monotone non-decreasing in both the color byte and the
/// brightness.
pub proof fn lemma_luminance_cie1931_monotone(c1: int, b1: int, c2: int, b2: int)
    requires
        0 <= c1 <= c2,
        0 <= b1 <= b2,
    ensures
        spec_luminance_cie1931(c1, b1) <= spec_luminance_cie1931(c2, b2),
{
    assert(c1 * b1 <= c2 * b2) by (nonlinear_arith)
        requires
            0 <= c1 <= c2,
            0 <= b1 <= b2,
    ;
    lemma_luminance_monotone_in_t(c1 * b1, c2 * b2);
    assert(spec_luminance_cie1931(c1, b1) == spec_lum_of_t(c1 * b1));
    assert(spec_luminance_cie1931(c2, b2) == spec_lum_of_t(c2 * b2));
}

/// Zero input yields zero output at every brightness.
pub proof fn lemma_luminance_cie1931_zero(b: int)
    requires
        1 <= b <= 100,
    ensures
        spec_luminance_cie1931(0, b) == 0,
{
    assert(0 * b == 0) by (nonlinear_arith);
}

/// Full input at full brightness yields the full 11-bit value.
pub proof fn lemma_luminance_cie1931_full()
    ensures
        spec_luminance_cie1931(255, 100) == 2047,
{
    assert(255 * 100 == 25500);
    assert(29580 * 29580 * 29580 == 25881801912000) by (nonlinear_arith);
    assert(spec_luminance_cie1931(255, 100) == (4094 * 29580 * 29580 * 29580 + 25881801912000)
        / 51763603824000);
    assert(4094 * 29580 * 29580 * 29580 == 4094 * 25881801912000) by (nonlinear_arith);
}

/// Precomputed luminance table: one row of 256 entries per brightness step.
#[derive(Clone)]
pub struct ColorLookup {
    pub per_brightness: Vec<Vec<u16>>,
}

impl ColorLookup {
    /// Every entry of row `b` holds the luminance of its byte at brightness
    /// `b + 1`.
    pub open spec fn wf(self) -> bool {
        &&& self.per_brightness@.len() == 100
        &&& forall|b: int|
            0 <= b < 100 ==> (#[trigger] self.per_brightness@[b])@.len() == 256
        &&& forall|b: int, c: int|
            0 <= b < 100 && 0 <= c < 256 ==> (#[trigger] self.per_brightness@[b]@[c])
                == spec_luminance_cie1931(c, b + 1)
    }

    /// Build the full table.
    pub fn new_cie1931() -> (r: Self)
        ensures
            r.wf(),
    {
        let mut per_brightness: Vec<Vec<u16>> = Vec::new();
        let mut b: u8 = 0;
        while b < 100
            invariant
                b <= 100,
                per_brightness@.len() == b as int,
                forall|i: int| 0 <= i < b ==> (#[trigger] per_brightness@[i])@.len() == 256,
                forall|i: int, c: int|
                    0 <= i < b && 0 <= c < 256 ==> (#[trigger] per_brightness@[i]@[c])
                        == spec_luminance_cie1931(c, i + 1),
            decreases 100 - b,
        {
            let mut row: Vec<u16> = Vec::new();
            let mut c: u16 = 0;
            while c < 256
                invariant
                    c <= 256,
                    b < 100,
                    row@.len() == c as int,
                    forall|j: int|
                        0 <= j < c ==> (#[trigger] row@[j]) == spec_luminance_cie1931(
                            j,
                            b as int + 1,
                        ),
                decreases 256 - c,
            {
                row.push(luminance_cie1931(c as u8, b + 1));
                c = c + 1;
            }
            per_brightness.push(row);
            b = b + 1;
        }
        Self { per_brightness }
    }

    /// Look the three channels of one pixel up at the given brightness.
    pub fn lookup_rgb(&self, brightness: u8, r: u8, g: u8, b: u8) -> (res: [u16; 3])
        requires
            self.wf(),
            1 <= brightness <= 100,
        ensures
            res[0] == spec_luminance_cie1931(r as int, brightness as int),
            res[1] == spec_luminance_cie1931(g as int, brightness as int),
            res[2] == spec_luminance_cie1931(b as int, brightness as int),
    {
        let for_brightness = &self.per_brightness[brightness as usize - 1];
        [for_brightness[r as usize], for_brightness[g as usize], for_brightness[b as usize]]
    }
}

} // verus!
