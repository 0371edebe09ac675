//! GPIO bit assignments for every supported wiring of the panels.
//!
//! A mask is a 32-bit word where bit `n` set means GPIO pin `n`; masks are
//! composed by bitwise OR. For a given mapping the control bits, the row
//! address bits and the color bits of each chain occupy disjoint pins.

use vstd::prelude::*;
use vstd::string::StringSliceAdditionalSpecFns;
use crate::error::InvalidVariantError;
use crate::utils::str_matches;

verus! {

/// The six color lines of one parallel chain: RGB for the upper and the lower
/// sub-panel. Each populated field is a single GPIO bit.
#[derive(Debug, Clone, Copy, PartialEq, Eq, Hash)]
pub struct ColorBits {
    pub r1: u32,
    pub g1: u32,
    pub b1: u32,
    pub r2: u32,
    pub g2: u32,
    pub b2: u32,
}

impl ColorBits {
    pub open spec fn spec_used_bits(self) -> u32 {
        self.r1 | self.r2 | self.g1 | self.g2 | self.b1 | self.b2
    }

    pub open spec fn spec_red_bits(self) -> u32 {
        self.r1 | self.r2
    }

    pub open spec fn spec_green_bits(self) -> u32 {
        self.g1 | self.g2
    }

    pub open spec fn spec_blue_bits(self) -> u32 {
        self.b1 | self.b2
    }

    pub open spec fn spec_unused() -> ColorBits {
        ColorBits { r1: 0, g1: 0, b1: 0, r2: 0, g2: 0, b2: 0 }
    }

    /// A chain slot with no color lines wired.
    pub fn unused() -> (r: Self)
        ensures
            r == Self::spec_unused(),
    {
        Self { r1: 0, g1: 0, b1: 0, r2: 0, g2: 0, b2: 0 }
    }

    /// OR of all six color lines of this chain.
    pub fn used_bits(&self) -> (r: u32)
        ensures
            r == self.spec_used_bits(),
    {
        self.r1 | self.r2 | self.g1 | self.g2 | self.b1 | self.b2
    }

    /// OR of the red lines of both sub-panels.
    pub fn red_bits(&self) -> (r: u32)
        ensures
            r == self.spec_red_bits(),
    {
        self.r1 | self.r2
    }

    /// OR of the green lines of both sub-panels.
    pub fn green_bits(&self) -> (r: u32)
        ensures
            r == self.spec_green_bits(),
    {
        self.g1 | self.g2
    }

    /// OR of the blue lines of both sub-panels.
    pub fn blue_bits(&self) -> (r: u32)
        ensures
            r == self.spec_blue_bits(),
    {
        self.b1 | self.b2
    }
}

/// The up to six parallel chains of one hardware mapping.
#[derive(Debug, Clone, Copy, PartialEq, Eq, Hash)]
pub struct Panels {
    pub color_bits: [ColorBits; 6],
}

impl Panels {
    pub open spec fn spec_red_bits(self) -> u32 {
        self.color_bits[0].spec_red_bits() | self.color_bits[1].spec_red_bits()
            | self.color_bits[2].spec_red_bits() | self.color_bits[3].spec_red_bits()
            | self.color_bits[4].spec_red_bits() | self.color_bits[5].spec_red_bits()
    }

    pub open spec fn spec_green_bits(self) -> u32 {
        self.color_bits[0].spec_green_bits() | self.color_bits[1].spec_green_bits()
            | self.color_bits[2].spec_green_bits() | self.color_bits[3].spec_green_bits()
            | self.color_bits[4].spec_green_bits() | self.color_bits[5].spec_green_bits()
    }

    pub open spec fn spec_blue_bits(self) -> u32 {
        self.color_bits[0].spec_blue_bits() | self.color_bits[1].spec_blue_bits()
            | self.color_bits[2].spec_blue_bits() | self.color_bits[3].spec_blue_bits()
            | self.color_bits[4].spec_blue_bits() | self.color_bits[5].spec_blue_bits()
    }

    pub open spec fn spec_used_bits(self) -> u32 {
        self.spec_red_bits() | self.spec_green_bits() | self.spec_blue_bits()
    }

    /// OR of the red lines of all chains.
    pub fn red_bits(&self) -> (r: u32)
        ensures
            r == self.spec_red_bits(),
    {
        self.color_bits[0].red_bits() | self.color_bits[1].red_bits()
            | self.color_bits[2].red_bits() | self.color_bits[3].red_bits()
            | self.color_bits[4].red_bits() | self.color_bits[5].red_bits()
    }

    /// OR of the green lines of all chains.
    pub fn green_bits(&self) -> (r: u32)
        ensures
            r == self.spec_green_bits(),
    {
        self.color_bits[0].green_bits() | self.color_bits[1].green_bits()
            | self.color_bits[2].green_bits() | self.color_bits[3].green_bits()
            | self.color_bits[4].green_bits() | self.color_bits[5].green_bits()
    }

    /// OR of the blue lines of all chains.
    pub fn blue_bits(&self) -> (r: u32)
        ensures
            r == self.spec_blue_bits(),
    {
        self.color_bits[0].blue_bits() | self.color_bits[1].blue_bits()
            | self.color_bits[2].blue_bits() | self.color_bits[3].blue_bits()
            | self.color_bits[4].blue_bits() | self.color_bits[5].blue_bits()
    }

    /// OR of every color line of every chain.
    pub fn used_bits(&self) -> (r: u32)
        ensures
            r == self.spec_used_bits(),
    {
        self.red_bits() | self.green_bits() | self.blue_bits()
    }
}

/// One wiring variant: the control bits, the row-address bits A..E and the
/// color bits of each parallel chain.
#[derive(Debug, Clone, Copy, PartialEq, Eq, Hash)]
pub struct HardwareMapping {
    pub output_enable: u32,
    pub clock: u32,
    pub strobe: u32,
    pub a: u32,
    pub b: u32,
    pub c: u32,
    pub d: u32,
    pub e: u32,
    pub panels: Panels,
}

impl HardwareMapping {
    pub open spec fn spec_used_bits(self) -> u32 {
        self.output_enable | self.clock | self.strobe | self.panels.spec_used_bits()
    }

    pub open spec fn spec_row_bits(self) -> u32 {
        self.a | self.b | self.c | self.d | self.e
    }

    pub open spec fn spec_chain_used(self, i: int) -> u32 {
        self.panels.color_bits[i].spec_used_bits()
    }

    pub open spec fn spec_color_clock_mask(self, parallel: usize) -> u32 {
        self.clock | (if parallel > 0 { self.spec_chain_used(0) } else { 0 })
            | (if parallel > 1 { self.spec_chain_used(1) } else { 0 })
            | (if parallel > 2 { self.spec_chain_used(2) } else { 0 })
            | (if parallel > 3 { self.spec_chain_used(3) } else { 0 })
            | (if parallel > 4 { self.spec_chain_used(4) } else { 0 })
            | (if parallel > 5 { self.spec_chain_used(5) } else { 0 })
    }

    pub open spec fn spec_max_parallel_chains(self) -> usize {
        ((if self.spec_chain_used(0) > 0 { 1int } else { 0 })
            + (if self.spec_chain_used(1) > 0 { 1int } else { 0 })
            + (if self.spec_chain_used(2) > 0 { 1int } else { 0 })
            + (if self.spec_chain_used(3) > 0 { 1int } else { 0 })
            + (if self.spec_chain_used(4) > 0 { 1int } else { 0 })
            + (if self.spec_chain_used(5) > 0 { 1int } else { 0 })) as usize
    }

    /// OR of every output pin this mapping drives.
    pub fn used_bits(&self) -> (r: u32)
        ensures
            r == self.spec_used_bits(),
    {
        self.output_enable | self.clock | self.strobe | self.panels.used_bits()
    }

    /// Mask of the bits written while clocking color data in: the clock line
    /// plus the color lines of the first `parallel` chains.
    pub fn get_color_clock_mask(&self, parallel: usize) -> (r: u32)
        ensures
            r == self.spec_color_clock_mask(parallel),
    {
        let m0: u32 = if parallel > 0 { self.panels.color_bits[0].used_bits() } else { 0 };
        let m1: u32 = if parallel > 1 { self.panels.color_bits[1].used_bits() } else { 0 };
        let m2: u32 = if parallel > 2 { self.panels.color_bits[2].used_bits() } else { 0 };
        let m3: u32 = if parallel > 3 { self.panels.color_bits[3].used_bits() } else { 0 };
        let m4: u32 = if parallel > 4 { self.panels.color_bits[4].used_bits() } else { 0 };
        let m5: u32 = if parallel > 5 { self.panels.color_bits[5].used_bits() } else { 0 };
        self.clock | m0 | m1 | m2 | m3 | m4 | m5
    }

    /// How many parallel chains this mapping has color lines for.
    pub fn max_parallel_chains(&self) -> (r: usize)
        ensures
            r == self.spec_max_parallel_chains(),
    {
        let mut count: usize = 0;
        if self.panels.color_bits[0].used_bits() > 0 {
            count = count + 1;
        }
        if self.panels.color_bits[1].used_bits() > 0 {
            count = count + 1;
        }
        if self.panels.color_bits[2].used_bits() > 0 {
            count = count + 1;
        }
        if self.panels.color_bits[3].used_bits() > 0 {
            count = count + 1;
        }
        if self.panels.color_bits[4].used_bits() > 0 {
            count = count + 1;
        }
        if self.panels.color_bits[5].used_bits() > 0 {
            count = count + 1;
        }
        count
    }
}

impl HardwareMapping {
    pub open spec fn spec_regular() -> HardwareMapping {
        HardwareMapping {
            output_enable: 1u32 << 18,
            clock: 1u32 << 17,
            strobe: 1u32 << 4,
            a: 1u32 << 22,
            b: 1u32 << 23,
            c: 1u32 << 24,
            d: 1u32 << 25,
            e: 1u32 << 15,
            panels: Panels {
                color_bits: [
                    ColorBits {
                        r1: 1u32 << 11,
                        g1: 1u32 << 27,
                        b1: 1u32 << 7,
                        r2: 1u32 << 8,
                        g2: 1u32 << 9,
                        b2: 1u32 << 10,
                    },
                    ColorBits {
                        r1: 1u32 << 12,
                        g1: 1u32 << 5,
                        b1: 1u32 << 6,
                        r2: 1u32 << 19,
                        g2: 1u32 << 13,
                        b2: 1u32 << 20,
                    },
                    ColorBits {
                        r1: 1u32 << 14,
                        g1: 1u32 << 2,
                        b1: 1u32 << 3,
                        r2: 1u32 << 26,
                        g2: 1u32 << 16,
                        b2: 1u32 << 21,
                    },
                    ColorBits::spec_unused(),
                    ColorBits::spec_unused(),
                    ColorBits::spec_unused(),
                ],
            },
        }
    }

    /// The regular hardware mapping used by the adapter PCBs.
    pub fn regular() -> (r: Self)
        ensures
            r == Self::spec_regular(),
    {
        Self {
            output_enable: 1u32 << 18,
            clock: 1u32 << 17,
            strobe: 1u32 << 4,
            a: 1u32 << 22,
            b: 1u32 << 23,
            c: 1u32 << 24,
            d: 1u32 << 25,
            e: 1u32 << 15,  // RxD kept free unless 1:64
            panels: Panels {
                color_bits: [
                    // Parallel chain 0, RGB for both sub-panels.
                    ColorBits {
                        r1: 1u32 << 11,
                        g1: 1u32 << 27,
                        b1: 1u32 << 7,
                        r2: 1u32 << 8,
                        g2: 1u32 << 9,
                        b2: 1u32 << 10,
                    },
                    // Chains 1 and 2 need the 40-pin header.
                    ColorBits {
                        r1: 1u32 << 12,
                        g1: 1u32 << 5,
                        b1: 1u32 << 6,
                        r2: 1u32 << 19,
                        g2: 1u32 << 13,
                        b2: 1u32 << 20,
                    },
                    ColorBits {
                        r1: 1u32 << 14,
                        g1: 1u32 << 2,
                        b1: 1u32 << 3,
                        r2: 1u32 << 26,
                        g2: 1u32 << 16,
                        b2: 1u32 << 21,
                    },
                    ColorBits::unused(),
                    ColorBits::unused(),
                    ColorBits::unused(),
                ],
            },
        }
    }

    pub open spec fn spec_adafruit_hat() -> HardwareMapping {
        HardwareMapping {
            output_enable: 1u32 << 4,
            clock: 1u32 << 17,
            strobe: 1u32 << 21,
            a: 1u32 << 22,
            b: 1u32 << 26,
            c: 1u32 << 27,
            d: 1u32 << 20,
            e: 1u32 << 24,
            panels: Panels {
                color_bits: [
                    ColorBits {
                        r1: 1u32 << 5,
                        g1: 1u32 << 13,
                        b1: 1u32 << 6,
                        r2: 1u32 << 12,
                        g2: 1u32 << 16,
                        b2: 1u32 << 23,
                    },
                    ColorBits::spec_unused(),
                    ColorBits::spec_unused(),
                    ColorBits::spec_unused(),
                    ColorBits::spec_unused(),
                    ColorBits::spec_unused(),
                ],
            },
        }
    }

    /// An unmodified Adafruit HAT.
    pub fn adafruit_hat() -> (r: Self)
        ensures
            r == Self::spec_adafruit_hat(),
    {
        Self {
            output_enable: 1u32 << 4,
            clock: 1u32 << 17,
            strobe: 1u32 << 21,
            a: 1u32 << 22,
            b: 1u32 << 26,
            c: 1u32 << 27,
            d: 1u32 << 20,
            e: 1u32 << 24,  // Needs manual wiring
            panels: Panels {
                color_bits: [
                    ColorBits {
                        r1: 1u32 << 5,
                        g1: 1u32 << 13,
                        b1: 1u32 << 6,
                        r2: 1u32 << 12,
                        g2: 1u32 << 16,
                        b2: 1u32 << 23,
                    },
                    ColorBits::unused(),
                    ColorBits::unused(),
                    ColorBits::unused(),
                    ColorBits::unused(),
                    ColorBits::unused(),
                ],
            },
        }
    }

    pub open spec fn spec_adafruit_hat_pwm() -> HardwareMapping {
        HardwareMapping { output_enable: 1u32 << 18, ..Self::spec_adafruit_hat() }
    }

    /// An Adafruit HAT with the PWM modification.
    pub fn adafruit_hat_pwm() -> (r: Self)
        ensures
            r == Self::spec_adafruit_hat_pwm(),
    {
        Self { output_enable: 1u32 << 18, ..Self::adafruit_hat() }
    }

    pub open spec fn spec_regular_pi1() -> HardwareMapping {
        HardwareMapping {
            output_enable: 1u32 << 18,
            clock: 1u32 << 17,
            strobe: 1u32 << 4,
            a: 1u32 << 22,
            b: 1u32 << 23,
            c: 1u32 << 24,
            d: 1u32 << 25,
            e: 1u32 << 15,
            panels: Panels {
                color_bits: [
                    ColorBits {
                        r1: (1u32 << 15) | (1u32 << 27),
                        g1: 1u32 << 21,
                        b1: 1u32 << 7,
                        r2: 1u32 << 8,
                        g2: 1u32 << 9,
                        b2: 1u32 << 10,
                    },
                    ColorBits::spec_unused(),
                    ColorBits::spec_unused(),
                    ColorBits::spec_unused(),
                    ColorBits::spec_unused(),
                    ColorBits::spec_unused(),
                ],
            },
        }
    }

    /// The regular pin-out, but for the first Raspberry Pi. The very first
    /// revision uses for this line the pin later boards give to GPIO 27, so
    /// the red line drives both candidates.
    pub fn regular_pi1() -> (r: Self)
        ensures
            r == Self::spec_regular_pi1(),
    {
        Self {
            output_enable: 1u32 << 18,
            clock: 1u32 << 17,
            strobe: 1u32 << 4,
            a: 1u32 << 22,
            b: 1u32 << 23,
            c: 1u32 << 24,
            d: 1u32 << 25,
            e: 1u32 << 15,
            panels: Panels {
                color_bits: [
                    ColorBits {
                        r1: (1u32 << 15) | (1u32 << 27),
                        g1: 1u32 << 21,
                        b1: 1u32 << 7,
                        r2: 1u32 << 8,
                        g2: 1u32 << 9,
                        b2: 1u32 << 10,
                    },
                    // No more chains - there are not enough GPIO.
                    ColorBits::unused(),
                    ColorBits::unused(),
                    ColorBits::unused(),
                    ColorBits::unused(),
                    ColorBits::unused(),
                ],
            },
        }
    }

    pub open spec fn spec_classic() -> HardwareMapping {
        HardwareMapping {
            output_enable: 1u32 << 27,
            clock: 1u32 << 11,
            strobe: 1u32 << 4,
            a: 1u32 << 7,
            b: 1u32 << 8,
            c: 1u32 << 9,
            d: 1u32 << 10,
            e: 0,
            panels: Panels {
                color_bits: [
                    ColorBits {
                        r1: 1u32 << 17,
                        g1: 1u32 << 18,
                        b1: 1u32 << 22,
                        r2: 1u32 << 23,
                        g2: 1u32 << 24,
                        b2: 1u32 << 25,
                    },
                    ColorBits {
                        r1: 1u32 << 12,
                        g1: 1u32 << 5,
                        b1: 1u32 << 6,
                        r2: 1u32 << 19,
                        g2: 1u32 << 13,
                        b2: 1u32 << 20,
                    },
                    ColorBits {
                        r1: 1u32 << 14,
                        g1: 1u32 << 2,
                        b1: 1u32 << 3,
                        r2: 1u32 << 15,
                        g2: 1u32 << 26,
                        b2: 1u32 << 21,
                    },
                    ColorBits::spec_unused(),
                    ColorBits::spec_unused(),
                    ColorBits::spec_unused(),
                ],
            },
        }
    }

    /// The mapping early adapters used, derived from the 26-pin header layout.
    pub fn classic() -> (r: Self)
        ensures
            r == Self::spec_classic(),
    {
        Self {
            output_enable: 1u32 << 27,
            clock: 1u32 << 11,
            strobe: 1u32 << 4,
            a: 1u32 << 7,
            b: 1u32 << 8,
            c: 1u32 << 9,
            d: 1u32 << 10,
            e: 0,
            panels: Panels {
                color_bits: [
                    ColorBits {
                        r1: 1u32 << 17,
                        g1: 1u32 << 18,
                        b1: 1u32 << 22,
                        r2: 1u32 << 23,
                        g2: 1u32 << 24,
                        b2: 1u32 << 25,
                    },
                    ColorBits {
                        r1: 1u32 << 12,
                        g1: 1u32 << 5,
                        b1: 1u32 << 6,
                        r2: 1u32 << 19,
                        g2: 1u32 << 13,
                        b2: 1u32 << 20,
                    },
                    ColorBits {
                        r1: 1u32 << 14,
                        g1: 1u32 << 2,
                        b1: 1u32 << 3,
                        r2: 1u32 << 15,
                        g2: 1u32 << 26,
                        b2: 1u32 << 21,
                    },
                    ColorBits::unused(),
                    ColorBits::unused(),
                    ColorBits::unused(),
                ],
            },
        }
    }

    pub open spec fn spec_classic_pi1() -> HardwareMapping {
        HardwareMapping {
            output_enable: (1u32 << 0) | (1u32 << 2),
            clock: (1u32 << 1) | (1u32 << 3),
            strobe: 1u32 << 4,
            a: 1u32 << 7,
            b: 1u32 << 8,
            c: 1u32 << 9,
            d: 1u32 << 10,
            e: 0,
            panels: Panels {
                color_bits: [
                    ColorBits {
                        r1: 1u32 << 17,
                        g1: 1u32 << 18,
                        b1: 1u32 << 22,
                        r2: 1u32 << 23,
                        g2: 1u32 << 24,
                        b2: 1u32 << 25,
                    },
                    ColorBits::spec_unused(),
                    ColorBits::spec_unused(),
                    ColorBits::spec_unused(),
                    ColorBits::spec_unused(),
                    ColorBits::spec_unused(),
                ],
            },
        }
    }

    /// Classic pin-out for the Rev-A boards. Revision 1 and 2 boards map two
    /// header pins differently, so both interpretations are driven at once.
    pub fn classic_pi1() -> (r: Self)
        ensures
            r == Self::spec_classic_pi1(),
    {
        Self {
            output_enable: (1u32 << 0) | (1u32 << 2),
            clock: (1u32 << 1) | (1u32 << 3),
            strobe: 1u32 << 4,
            a: 1u32 << 7,
            b: 1u32 << 8,
            c: 1u32 << 9,
            d: 1u32 << 10,
            e: 0,
            panels: Panels {
                color_bits: [
                    ColorBits {
                        r1: 1u32 << 17,
                        g1: 1u32 << 18,
                        b1: 1u32 << 22,
                        r2: 1u32 << 23,
                        g2: 1u32 << 24,
                        b2: 1u32 << 25,
                    },
                    ColorBits::unused(),
                    ColorBits::unused(),
                    ColorBits::unused(),
                    ColorBits::unused(),
                    ColorBits::unused(),
                ],
            },
        }
    }
}

/// The mapping an exact wiring name selects.
pub open spec fn spec_hardware_mapping_of(bytes: Seq<u8>) -> Option<HardwareMapping> {
    // The names are AdafruitHat, AdafruitHatPwm, Regular, RegularPi1,
    // Classic and ClassicPi1.
    if bytes =~= seq![65u8, 100u8, 97u8, 102u8, 114u8, 117u8, 105u8, 116u8, 72u8, 97u8, 116u8] {
        Some(HardwareMapping::spec_adafruit_hat())
    } else if bytes =~= seq![
        65u8,
        100u8,
        97u8,
        102u8,
        114u8,
        117u8,
        105u8,
        116u8,
        72u8,
        97u8,
        116u8,
        80u8,
        119u8,
        109u8,
    ] {
        Some(HardwareMapping::spec_adafruit_hat_pwm())
    } else if bytes =~= seq![82u8, 101u8, 103u8, 117u8, 108u8, 97u8, 114u8] {
        Some(HardwareMapping::spec_regular())
    } else if bytes =~= seq![82u8, 101u8, 103u8, 117u8, 108u8, 97u8, 114u8, 80u8, 105u8, 49u8] {
        Some(HardwareMapping::spec_regular_pi1())
    } else if bytes =~= seq![67u8, 108u8, 97u8, 115u8, 115u8, 105u8, 99u8] {
        Some(HardwareMapping::spec_classic())
    } else if bytes =~= seq![67u8, 108u8, 97u8, 115u8, 115u8, 105u8, 99u8, 80u8, 105u8, 49u8] {
        Some(HardwareMapping::spec_classic_pi1())
    } else {
        None
    }
}

impl HardwareMapping {
    /// Parse a wiring name such as `AdafruitHatPwm`.
    pub fn parse(s: &str) -> (r: Result<HardwareMapping, InvalidVariantError>)
        ensures
            match spec_hardware_mapping_of(s.spec_bytes()) {
                Some(v) => r == Ok::<HardwareMapping, InvalidVariantError>(v),
                None => r is Err,
            },
    {
        let adafruit_hat: Vec<u8> = vec![65, 100, 97, 102, 114, 117, 105, 116, 72, 97, 116];
        let adafruit_hat_pwm: Vec<u8> = vec![
            65,
            100,
            97,
            102,
            114,
            117,
            105,
            116,
            72,
            97,
            116,
            80,
            119,
            109,
        ];
        let regular: Vec<u8> = vec![82, 101, 103, 117, 108, 97, 114];
        let regular_pi1: Vec<u8> = vec![82, 101, 103, 117, 108, 97, 114, 80, 105, 49];
        let classic: Vec<u8> = vec![67, 108, 97, 115, 115, 105, 99];
        let classic_pi1: Vec<u8> = vec![67, 108, 97, 115, 115, 105, 99, 80, 105, 49];
        proof {
            assert(adafruit_hat@ =~= seq![65u8, 100u8, 97u8, 102u8, 114u8, 117u8, 105u8, 116u8,
                72u8, 97u8, 116u8]);
            assert(adafruit_hat_pwm@ =~= seq![
                65u8,
                100u8,
                97u8,
                102u8,
                114u8,
                117u8,
                105u8,
                116u8,
                72u8,
                97u8,
                116u8,
                80u8,
                119u8,
                109u8,
            ]);
            assert(regular@ =~= seq![82u8, 101u8, 103u8, 117u8, 108u8, 97u8, 114u8]);
            assert(regular_pi1@ =~= seq![82u8, 101u8, 103u8, 117u8, 108u8, 97u8, 114u8, 80u8,
                105u8, 49u8]);
            assert(classic@ =~= seq![67u8, 108u8, 97u8, 115u8, 115u8, 105u8, 99u8]);
            assert(classic_pi1@ =~= seq![67u8, 108u8, 97u8, 115u8, 115u8, 105u8, 99u8, 80u8, 105u8,
                49u8]);
        }
        if str_matches(s, &adafruit_hat) {
            Ok(Self::adafruit_hat())
        } else if str_matches(s, &adafruit_hat_pwm) {
            Ok(Self::adafruit_hat_pwm())
        } else if str_matches(s, &regular) {
            Ok(Self::regular())
        } else if str_matches(s, &regular_pi1) {
            Ok(Self::regular_pi1())
        } else if str_matches(s, &classic) {
            Ok(Self::classic())
        } else if str_matches(s, &classic_pi1) {
            Ok(Self::classic_pi1())
        } else {
            Err(
                InvalidVariantError::new(
                    "AdafruitHat AdafruitHatPwm Regular RegularPi1 Classic ClassicPi1".to_owned(),
                ),
            )
        }
    }
}

/// The three pin groups of a mapping: the control lines, the row-address
/// lines, and the color lines of one chain, as plain masks.
pub open spec fn control_group(m: HardwareMapping) -> u32 {
    m.output_enable | m.clock | m.strobe
}

/// The pin groups of `Regular` are pairwise disjoint: no pin serves as both a
/// control line, a row-address line, or a color line, and no two chains share
/// a color pin.
pub proof fn lemma_regular_groups_disjoint()
    ensures
        control_group(HardwareMapping::spec_regular()) & HardwareMapping::spec_regular().spec_row_bits() == 0,
        control_group(HardwareMapping::spec_regular()) & HardwareMapping::spec_regular().panels.spec_used_bits() == 0,
        HardwareMapping::spec_regular().spec_row_bits() & HardwareMapping::spec_regular().panels.spec_used_bits() == 0,
        HardwareMapping::spec_regular().spec_chain_used(0) & HardwareMapping::spec_regular().spec_chain_used(1) == 0,
        HardwareMapping::spec_regular().spec_chain_used(0) & HardwareMapping::spec_regular().spec_chain_used(2) == 0,
        HardwareMapping::spec_regular().spec_chain_used(1) & HardwareMapping::spec_regular().spec_chain_used(2) == 0,
{
    let m = HardwareMapping::spec_regular();
    let ctrl = control_group(m);
    let rows = m.spec_row_bits();
    let c0 = m.spec_chain_used(0);
    let c1 = m.spec_chain_used(1);
    let c2 = m.spec_chain_used(2);
    let colors = m.panels.spec_used_bits();
    assert(ctrl & rows == 0 && ctrl & colors == 0 && rows & colors == 0 && c0 & c1 == 0 && c0 & c2
        == 0 && c1 & c2 == 0) by (bit_vector)
        requires
            ctrl == (1u32 << 18) | (1u32 << 17) | (1u32 << 4),
            rows == (1u32 << 22) | (1u32 << 23) | (1u32 << 24) | (1u32 << 25) | (1u32 << 15),
            c0 == (1u32 << 11) | (1u32 << 8) | (1u32 << 27) | (1u32 << 9) | (1u32 << 7) | (1u32
                << 10),
            c1 == (1u32 << 12) | (1u32 << 19) | (1u32 << 5) | (1u32 << 13) | (1u32 << 6) | (1u32
                << 20),
            c2 == (1u32 << 14) | (1u32 << 26) | (1u32 << 2) | (1u32 << 16) | (1u32 << 3) | (1u32
                << 21),
            colors == (((1u32 << 11) | (1u32 << 8)) | ((1u32 << 12) | (1u32 << 19)) | ((1u32 << 14)
                | (1u32 << 26)) | (0u32 | 0u32) | (0u32 | 0u32) | (0u32 | 0u32)) | (((1u32 << 27)
                | (1u32 << 9)) | ((1u32 << 5) | (1u32 << 13)) | ((1u32 << 2) | (1u32 << 16)) | (
            0u32 | 0u32) | (0u32 | 0u32) | (0u32 | 0u32)) | (((1u32 << 7) | (1u32 << 10)) | ((1u32
                << 6) | (1u32 << 20)) | ((1u32 << 3) | (1u32 << 21)) | (0u32 | 0u32) | (0u32
                | 0u32) | (0u32 | 0u32)),
    ;
}

/// The pin groups of `AdafruitHat` are pairwise disjoint.
pub proof fn lemma_adafruit_hat_groups_disjoint()
    ensures
        control_group(HardwareMapping::spec_adafruit_hat())
            & HardwareMapping::spec_adafruit_hat().spec_row_bits() == 0,
        control_group(HardwareMapping::spec_adafruit_hat())
            & HardwareMapping::spec_adafruit_hat().panels.spec_used_bits() == 0,
        HardwareMapping::spec_adafruit_hat().spec_row_bits()
            & HardwareMapping::spec_adafruit_hat().panels.spec_used_bits() == 0,
{
    let m = HardwareMapping::spec_adafruit_hat();
    let ctrl = control_group(m);
    let rows = m.spec_row_bits();
    let colors = m.panels.spec_used_bits();
    assert(ctrl & rows == 0 && ctrl & colors == 0 && rows & colors == 0) by (bit_vector)
        requires
            ctrl == (1u32 << 4) | (1u32 << 17) | (1u32 << 21),
            rows == (1u32 << 22) | (1u32 << 26) | (1u32 << 27) | (1u32 << 20) | (1u32 << 24),
            colors == (((1u32 << 5) | (1u32 << 12)) | (0u32 | 0u32) | (0u32 | 0u32) | (0u32 | 0u32)
                | (0u32 | 0u32) | (0u32 | 0u32)) | (((1u32 << 13) | (1u32 << 16)) | (0u32 | 0u32)
                | (0u32 | 0u32) | (0u32 | 0u32) | (0u32 | 0u32) | (0u32 | 0u32)) | (((1u32 << 6) | (
            1u32 << 23)) | (0u32 | 0u32) | (0u32 | 0u32) | (0u32 | 0u32) | (0u32 | 0u32) | (0u32
                | 0u32)),
    ;
}

/// The pin groups of `AdafruitHatPwm` are pairwise disjoint.
pub proof fn lemma_adafruit_hat_pwm_groups_disjoint()
    ensures
        control_group(HardwareMapping::spec_adafruit_hat_pwm())
            & HardwareMapping::spec_adafruit_hat_pwm().spec_row_bits() == 0,
        control_group(HardwareMapping::spec_adafruit_hat_pwm())
            & HardwareMapping::spec_adafruit_hat_pwm().panels.spec_used_bits() == 0,
        HardwareMapping::spec_adafruit_hat_pwm().spec_row_bits()
            & HardwareMapping::spec_adafruit_hat_pwm().panels.spec_used_bits() == 0,
{
    let m = HardwareMapping::spec_adafruit_hat_pwm();
    let ctrl = control_group(m);
    let rows = m.spec_row_bits();
    let colors = m.panels.spec_used_bits();
    assert(ctrl & rows == 0 && ctrl & colors == 0 && rows & colors == 0) by (bit_vector)
        requires
            ctrl == (1u32 << 18) | (1u32 << 17) | (1u32 << 21),
            rows == (1u32 << 22) | (1u32 << 26) | (1u32 << 27) | (1u32 << 20) | (1u32 << 24),
            colors == (((1u32 << 5) | (1u32 << 12)) | (0u32 | 0u32) | (0u32 | 0u32) | (0u32 | 0u32)
                | (0u32 | 0u32) | (0u32 | 0u32)) | (((1u32 << 13) | (1u32 << 16)) | (0u32 | 0u32)
                | (0u32 | 0u32) | (0u32 | 0u32) | (0u32 | 0u32) | (0u32 | 0u32)) | (((1u32 << 6) | (
            1u32 << 23)) | (0u32 | 0u32) | (0u32 | 0u32) | (0u32 | 0u32) | (0u32 | 0u32) | (0u32
                | 0u32)),
    ;
}

/// The control lines of `RegularPi1` are disjoint from the row-address lines
/// and from the color lines. The row and color groups themselves share GPIO
/// pin 15 by design on that board: the E address line and the chain-0 red
/// line drive the same header pin, so that clause is not stated here.
pub proof fn lemma_regular_pi1_control_disjoint()
    ensures
        control_group(HardwareMapping::spec_regular_pi1())
            & HardwareMapping::spec_regular_pi1().spec_row_bits() == 0,
        control_group(HardwareMapping::spec_regular_pi1())
            & HardwareMapping::spec_regular_pi1().panels.spec_used_bits() == 0,
{
    let m = HardwareMapping::spec_regular_pi1();
    let ctrl = control_group(m);
    let rows = m.spec_row_bits();
    let colors = m.panels.spec_used_bits();
    assert(ctrl & rows == 0 && ctrl & colors == 0) by (bit_vector)
        requires
            ctrl == (1u32 << 18) | (1u32 << 17) | (1u32 << 4),
            rows == (1u32 << 22) | (1u32 << 23) | (1u32 << 24) | (1u32 << 25) | (1u32 << 15),
            colors == ((((1u32 << 15) | (1u32 << 27)) | (1u32 << 8)) | (0u32 | 0u32) | (0u32
                | 0u32) | (0u32 | 0u32) | (0u32 | 0u32) | (0u32 | 0u32)) | (((1u32 << 21) | (1u32
                << 9)) | (0u32 | 0u32) | (0u32 | 0u32) | (0u32 | 0u32) | (0u32 | 0u32) | (0u32
                | 0u32)) | (((1u32 << 7) | (1u32 << 10)) | (0u32 | 0u32) | (0u32 | 0u32) | (0u32
                | 0u32) | (0u32 | 0u32) | (0u32 | 0u32)),
    ;
}

/// The pin groups of `Classic` are pairwise disjoint.
pub proof fn lemma_classic_groups_disjoint()
    ensures
        control_group(HardwareMapping::spec_classic()) & HardwareMapping::spec_classic().spec_row_bits() == 0,
        control_group(HardwareMapping::spec_classic())
            & HardwareMapping::spec_classic().panels.spec_used_bits() == 0,
        HardwareMapping::spec_classic().spec_row_bits()
            & HardwareMapping::spec_classic().panels.spec_used_bits() == 0,
        HardwareMapping::spec_classic().spec_chain_used(0)
            & HardwareMapping::spec_classic().spec_chain_used(1) == 0,
        HardwareMapping::spec_classic().spec_chain_used(0)
            & HardwareMapping::spec_classic().spec_chain_used(2) == 0,
        HardwareMapping::spec_classic().spec_chain_used(1)
            & HardwareMapping::spec_classic().spec_chain_used(2) == 0,
{
    let m = HardwareMapping::spec_classic();
    let ctrl = control_group(m);
    let rows = m.spec_row_bits();
    let c0 = m.spec_chain_used(0);
    let c1 = m.spec_chain_used(1);
    let c2 = m.spec_chain_used(2);
    let colors = m.panels.spec_used_bits();
    assert(ctrl & rows == 0 && ctrl & colors == 0 && rows & colors == 0 && c0 & c1 == 0 && c0 & c2
        == 0 && c1 & c2 == 0) by (bit_vector)
        requires
            ctrl == (1u32 << 27) | (1u32 << 11) | (1u32 << 4),
            rows == (1u32 << 7) | (1u32 << 8) | (1u32 << 9) | (1u32 << 10) | 0u32,
            c0 == (1u32 << 17) | (1u32 << 23) | (1u32 << 18) | (1u32 << 24) | (1u32 << 22) | (1u32
                << 25),
            c1 == (1u32 << 12) | (1u32 << 19) | (1u32 << 5) | (1u32 << 13) | (1u32 << 6) | (1u32
                << 20),
            c2 == (1u32 << 14) | (1u32 << 15) | (1u32 << 2) | (1u32 << 26) | (1u32 << 3) | (1u32
                << 21),
            colors == (((1u32 << 17) | (1u32 << 23)) | ((1u32 << 12) | (1u32 << 19)) | ((1u32 << 14)
                | (1u32 << 15)) | (0u32 | 0u32) | (0u32 | 0u32) | (0u32 | 0u32)) | (((1u32 << 18)
                | (1u32 << 24)) | ((1u32 << 5) | (1u32 << 13)) | ((1u32 << 2) | (1u32 << 26)) | (
            0u32 | 0u32) | (0u32 | 0u32) | (0u32 | 0u32)) | (((1u32 << 22) | (1u32 << 25)) | ((1u32
                << 6) | (1u32 << 20)) | ((1u32 << 3) | (1u32 << 21)) | (0u32 | 0u32) | (0u32
                | 0u32) | (0u32 | 0u32)),
    ;
}

/// The pin groups of `ClassicPi1` are pairwise disjoint.
pub proof fn lemma_classic_pi1_groups_disjoint()
    ensures
        control_group(HardwareMapping::spec_classic_pi1())
            & HardwareMapping::spec_classic_pi1().spec_row_bits() == 0,
        control_group(HardwareMapping::spec_classic_pi1())
            & HardwareMapping::spec_classic_pi1().panels.spec_used_bits() == 0,
        HardwareMapping::spec_classic_pi1().spec_row_bits()
            & HardwareMapping::spec_classic_pi1().panels.spec_used_bits() == 0,
{
    let m = HardwareMapping::spec_classic_pi1();
    let ctrl = control_group(m);
    let rows = m.spec_row_bits();
    let colors = m.panels.spec_used_bits();
    assert(ctrl & rows == 0 && ctrl & colors == 0 && rows & colors == 0) by (bit_vector)
        requires
            ctrl == ((1u32 << 0) | (1u32 << 2)) | ((1u32 << 1) | (1u32 << 3)) | (1u32 << 4),
            rows == (1u32 << 7) | (1u32 << 8) | (1u32 << 9) | (1u32 << 10) | 0u32,
            colors == (((1u32 << 17) | (1u32 << 23)) | (0u32 | 0u32) | (0u32 | 0u32) | (0u32
                | 0u32) | (0u32 | 0u32) | (0u32 | 0u32)) | (((1u32 << 18) | (1u32 << 24)) | (0u32
                | 0u32) | (0u32 | 0u32) | (0u32 | 0u32) | (0u32 | 0u32) | (0u32 | 0u32)) | (((1u32
                << 22) | (1u32 << 25)) | (0u32 | 0u32) | (0u32 | 0u32) | (0u32 | 0u32) | (0u32
                | 0u32) | (0u32 | 0u32)),
    ;
}

} // verus!
