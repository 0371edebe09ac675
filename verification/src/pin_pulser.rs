//! The hardware-PWM Output-Enable pulser: per-plane timings, the PWM clock
//! divider, and the FIFO words of each pulse.
//!
//! The on-time of bit-plane `p` is `pwm_lsb_nanoseconds` doubled once for
//! every plane above the dithered ones, so the eye integrates a binary-coded
//! brightness. The PWM clock is divided so that one period of the base clock
//! spans half the least-significant plane's on-time.

use vstd::prelude::*;

verus! {

/// Two to the given power.
pub open spec fn spec_two_to(n: nat) -> int
    decreases n,
{
    if n == 0 {
        1
    } else {
        2 * spec_two_to((n - 1) as nat)
    }
}

/// The on-time in nanoseconds of bit-plane `p`: the base time, doubled for
/// every plane above the `dither_bits` lowest ones.
pub open spec fn spec_bitplane_timing(pwm_lsb_ns: int, dither_bits: int, p: int) -> int {
    if p <= dither_bits {
        pwm_lsb_ns
    } else {
        pwm_lsb_ns * spec_two_to((p - dither_bits) as nat)
    }
}

/// The per-plane on-times of all eleven bit-planes.
pub fn bitplane_timings(pwm_lsb_nanoseconds: u32, dither_bits: usize) -> (r: Vec<u32>)
    requires
        0 < pwm_lsb_nanoseconds <= 0x10_0000,
        dither_bits <= 2,
    ensures
        r@.len() == 11,
        forall|p: int|
            0 <= p < 11 ==> #[trigger] r@[p] == spec_bitplane_timing(
                pwm_lsb_nanoseconds as int,
                dither_bits as int,
                p,
            ),
        forall|p: int| 0 <= p < 11 ==> #[trigger] r@[p] >= pwm_lsb_nanoseconds,
        forall|p: int| 0 <= p < 11 ==> #[trigger] r@[p] <= 0x4000_0000,
{
    let mut timings: Vec<u32> = Vec::new();
    let mut timing_ns: u32 = pwm_lsb_nanoseconds;
    let mut b: usize = 0;
    while b < 11
        invariant
            0 <= b <= 11,
            0 < pwm_lsb_nanoseconds <= 0x10_0000,
            dither_bits <= 2,
            timings@.len() == b,
            timing_ns as int == spec_bitplane_timing(
                pwm_lsb_nanoseconds as int,
                dither_bits as int,
                b as int,
            ),
            forall|p: int|
                0 <= p < b ==> #[trigger] timings@[p] == spec_bitplane_timing(
                    pwm_lsb_nanoseconds as int,
                    dither_bits as int,
                    p,
                ),
            forall|p: int| 0 <= p < b ==> #[trigger] timings@[p] >= pwm_lsb_nanoseconds,
            forall|p: int| 0 <= p < b ==> #[trigger] timings@[p] <= 0x4000_0000,
        decreases 11 - b,
    {
        proof {
            lemma_timing_bound(
                pwm_lsb_nanoseconds as int,
                dither_bits as int,
                b as int,
            );
            lemma_timing_bound(
                pwm_lsb_nanoseconds as int,
                dither_bits as int,
                b as int + 1,
            );
            lemma_timing_step(
                pwm_lsb_nanoseconds as int,
                dither_bits as int,
                b as int,
            );
        }
        timings.push(timing_ns);
        if b >= dither_bits {
            timing_ns = timing_ns * 2;
        }
        b = b + 1;
    }
    timings
}

/// Stepping to the next plane doubles the on-time once the dithered planes
/// are passed.
proof fn lemma_timing_step(lsb: int, d: int, p: int)
    requires
        0 <= d,
        0 <= p,
    ensures
        spec_bitplane_timing(lsb, d, p + 1) == (if p >= d {
            2 * spec_bitplane_timing(lsb, d, p)
        } else {
            spec_bitplane_timing(lsb, d, p)
        }),
{
    if p >= d {
        if p == d {
            assert(spec_two_to(1) == 2) by {
                reveal_with_fuel(spec_two_to, 3);
            }
        } else {
            assert(spec_two_to((p + 1 - d) as nat) == 2 * spec_two_to((p - d) as nat));
            assert(lsb * (2 * spec_two_to((p - d) as nat)) == 2 * (lsb * spec_two_to(
                (p - d) as nat,
            ))) by (nonlinear_arith);
        }
    }
}

/// The on-times stay well inside 32 bits.
proof fn lemma_timing_bound(lsb: int, d: int, p: int)
    requires
        0 < lsb <= 0x10_0000,
        0 <= d <= 2,
        0 <= p <= 11,
    ensures
        0 < spec_bitplane_timing(lsb, d, p),
        lsb <= spec_bitplane_timing(lsb, d, p),
        p <= 10 ==> spec_bitplane_timing(lsb, d, p) <= 0x4000_0000,
        spec_bitplane_timing(lsb, d, p) <= 0x8000_0000,
{
    if p > d {
        let k = (p - d) as nat;
        lemma_two_to_pos(k);
        lemma_two_to_monotone(k, 11);
        assert(spec_two_to(11) == 2048) by {
            reveal_with_fuel(spec_two_to, 13);
        }
        assert(spec_two_to(10) == 1024) by {
            reveal_with_fuel(spec_two_to, 13);
        }
        if p <= 10 {
            lemma_two_to_monotone(k, 10);
            assert(lsb <= lsb * spec_two_to(k) <= 0x10_0000 * 1024) by (nonlinear_arith)
                requires
                    0 < lsb <= 0x10_0000,
                    0 < spec_two_to(k) <= 1024,
            ;
        } else {
            assert(lsb <= lsb * spec_two_to(k) <= 0x10_0000 * 2048) by (nonlinear_arith)
                requires
                    0 < lsb <= 0x10_0000,
                    0 < spec_two_to(k) <= 2048,
            ;
        }
    }
}

/// Powers of two are positive.
proof fn lemma_two_to_pos(n: nat)
    ensures
        0 < spec_two_to(n),
    decreases n,
{
    if n > 0 {
        lemma_two_to_pos((n - 1) as nat);
    }
}

/// Powers of two grow with the exponent.
proof fn lemma_two_to_monotone(n: nat, m: nat)
    requires
        n <= m,
    ensures
        spec_two_to(n) <= spec_two_to(m),
    decreases m,
{
    lemma_two_to_pos(n);
    if n < m {
        lemma_two_to_monotone(n, (m - 1) as nat);
        lemma_two_to_pos((m - 1) as nat);
    }
}

/// The pulse plan of one configuration: for each bit-plane, how long the
/// refresh thread may sleep through the pulse, and how many PWM base
/// periods the pulse spans; plus the divider of the PWM clock.
#[derive(Debug, Clone, PartialEq, Eq)]
pub struct PulsePlan {
    /// Hints how long to sleep, per plane, in microseconds.
    pub sleep_hints_us: Vec<u32>,
    /// Pulse period for each bit plane, in PWM periods.
    pub pulse_periods: Vec<u32>,
    /// Integer divider taking the 500 MHz source down to the pulse base.
    pub divider: u32,
}

impl PulsePlan {
    /// Build the plan from the per-plane timings. The Output-Enable pin
    /// must be one of the two pins the PWM peripheral can drive.
    pub fn new(pins: u32, bitplane_timings_ns: &Vec<u32>) -> (r: PulsePlan)
        requires
            pins == 1u32 << 18 || pins == 1u32 << 12,
            bitplane_timings_ns@.len() == 11,
            forall|p: int| 0 <= p < 11 ==> 0 < #[trigger] bitplane_timings_ns@[p] <= 0x4000_0000,
        ensures
            r.sleep_hints_us@.len() == 11,
            forall|p: int|
                0 <= p < 11 ==> #[trigger] r.sleep_hints_us@[p] == bitplane_timings_ns@[p] as int
                    / 1000,
            r.pulse_periods@.len() == 11,
            forall|p: int|
                0 <= p < 11 ==> #[trigger] r.pulse_periods@[p] == 2 * bitplane_timings_ns@[p] as int
                    / (bitplane_timings_ns@[0] as int),
            r.divider == (bitplane_timings_ns@[0] as int / 2) / 2,
    {
        let time_base = bitplane_timings_ns[0];
        let divider = (time_base / 2) / 2;
        let mut sleep_hints_us: Vec<u32> = Vec::new();
        let mut pulse_periods: Vec<u32> = Vec::new();
        let mut p: usize = 0;
        while p < 11
            invariant
                0 <= p <= 11,
                bitplane_timings_ns@.len() == 11,
                forall|q: int|
                    0 <= q < 11 ==> 0 < #[trigger] bitplane_timings_ns@[q] <= 0x4000_0000,
                time_base == bitplane_timings_ns@[0],
                sleep_hints_us@.len() == p,
                pulse_periods@.len() == p,
                forall|q: int|
                    0 <= q < p ==> #[trigger] sleep_hints_us@[q] == bitplane_timings_ns@[q] as int
                        / 1000,
                forall|q: int|
                    0 <= q < p ==> #[trigger] pulse_periods@[q] == 2 * bitplane_timings_ns@[q]
                        as int / (bitplane_timings_ns@[0] as int),
            decreases 11 - p,
        {
            let t = bitplane_timings_ns[p];
            sleep_hints_us.push(t / 1000);
            pulse_periods.push(2 * t / time_base);
            p = p + 1;
        }
        PulsePlan { sleep_hints_us, pulse_periods, divider }
    }

    /// The FIFO words of one pulse: short pulses go out as one word, longer
    /// ones as eight words of an eighth each, and two zero sentinels let the
    /// FIFO run empty after the last datum.
    pub fn send_pulse_words(&self, bitplane: usize) -> (r: (u32, Vec<u32>))
        requires
            bitplane < self.pulse_periods@.len(),
        ensures
            ({
                let period = self.pulse_periods@[bitplane as int];
                if period < 16 {
                    r.0 == period && r.1@ =~= seq![period, 0u32, 0u32]
                } else {
                    r.0 == period as int / 8 && r.1@ =~= Seq::new(
                        10,
                        |i: int|
                            if i < 8 {
                                (period as int / 8) as u32
                            } else {
                                0u32
                            },
                    )
                }
            }),
    {
        let period = self.pulse_periods[bitplane];
        let mut fifo: Vec<u32> = Vec::new();
        if period < 16 {
            fifo.push(period);
            fifo.push(0);
            fifo.push(0);
            proof {
                assert(fifo@ =~= seq![period, 0u32, 0u32]);
            }
            (period, fifo)
        } else {
            let fraction = period / 8;
            let mut i: usize = 0;
            while i < 8
                invariant
                    0 <= i <= 8,
                    fifo@.len() == i,
                    forall|j: int| 0 <= j < i ==> #[trigger] fifo@[j] == fraction,
                decreases 8 - i,
            {
                fifo.push(fraction);
                i = i + 1;
            }
            fifo.push(0);
            fifo.push(0);
            proof {
                assert(fifo@ =~= Seq::new(
                    10,
                    |j: int|
                        if j < 8 {
                            fraction
                        } else {
                            0u32
                        },
                ));
            }
            (fraction, fifo)
        }
    }

    /// How long the refresh thread may still sleep while a pulse started
    /// `elapsed_us` microseconds ago runs: the plane's hint less what has
    /// already passed.
    pub fn remaining_sleep_us(&self, bitplane: usize, elapsed_us: u64) -> (r: u64)
        requires
            bitplane < self.sleep_hints_us@.len(),
        ensures
            r == (if self.sleep_hints_us@[bitplane as int] as u64 >= elapsed_us {
                self.sleep_hints_us@[bitplane as int] as int - elapsed_us as int
            } else {
                0int
            }),
    {
        let hint = self.sleep_hints_us[bitplane] as u64;
        if hint >= elapsed_us {
            hint - elapsed_us
        } else {
            0
        }
    }
}

/// The function-select pins that route the Output-Enable pin to the PWM
/// peripheral: GPIO 18 uses its fifth alternate function, GPIO 12 its
/// first.
pub fn pwm_pin_alt_function(pins: u32) -> (r: (u8, u8))
    requires
        pins == 1u32 << 18 || pins == 1u32 << 12,
    ensures
        pins == 1u32 << 18 ==> r == (18u8, 0b010u8),
        pins == 1u32 << 12 ==> r == (12u8, 0b100u8),
{
    proof {
        assert((1u32 << 18) != (1u32 << 12)) by (bit_vector);
    }
    if pins == gpio_mask_18() {
        (18, 0b010)
    } else {
        (12, 0b100)
    }
}

/// The mask of GPIO pin 18.
fn gpio_mask_18() -> (r: u32)
    ensures
        r == 1u32 << 18,
{
    1u32 << 18
}

} // verus!
