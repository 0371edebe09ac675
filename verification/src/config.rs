//! The typed configuration of a matrix controller.

use vstd::prelude::*;
use crate::canvas::LedSequence;
use crate::chip::PiChip;
use crate::hardware_mapping::HardwareMapping;
use crate::init_sequence::PanelType;
use crate::multiplex_mapper::MultiplexMapperType;
use crate::named_pixel_mapper::NamedPixelMapperType;
use crate::row_address_setter::RowAddressSetterType;

verus! {

/// A HUB75 panel is split in two half displays, so 1:16 multiplexing drives
/// 32 lines.
pub const SUB_PANELS: usize = 2;

/// Number of bit-planes kept per color: 11 bits balance refresh rate against
/// color depth.
pub const K_BIT_PLANES: usize = 11;

/// Configuration for an RGB matrix panel controller.
#[derive(Debug, Clone, PartialEq, Eq, Hash)]
pub struct RGBMatrixConfig {
    /// The display wiring.
    pub hardware_mapping: HardwareMapping,
    /// Rows per panel.
    pub rows: usize,
    /// Columns per panel.
    pub cols: usize,
    /// Target refresh rate in frames per second.
    pub refresh_rate: usize,
    /// The chip model; detected when absent.
    pub pi_chip: Option<PiChip>,
    /// How many of the 11 bit-planes are shown (1..=11).
    pub pwm_bits: usize,
    /// On-time of the least significant bit-plane, in nanoseconds.
    pub pwm_lsb_nanoseconds: u32,
    /// Extra repetitions of each GPIO write; chip default when absent.
    pub slowdown: Option<u32>,
    /// Interlaced scan mode.
    pub interlaced: bool,
    /// How many low bit-planes are time-dithered over frames (0..=2).
    pub dither_bits: usize,
    /// Number of daisy-chained panels.
    pub chain_length: usize,
    /// Number of parallel chains.
    pub parallel: usize,
    /// Panel driver IC needing an initialization sequence, if any.
    pub panel_type: Option<PanelType>,
    /// The multiplex (scan pattern) mapper, if any.
    pub multiplexing: Option<MultiplexMapperType>,
    /// The arrangement mappers, applied in order.
    pub pixelmapper: Vec<NamedPixelMapperType>,
    /// The row-address scheme.
    pub row_setter: RowAddressSetterType,
    /// Which physical color line carries which channel.
    pub led_sequence: LedSequence,
    /// Brightness in percent, clamped to 1..=100.
    pub led_brightness: u8,
}

impl RGBMatrixConfig {
    pub open spec fn spec_double_rows(&self) -> int {
        self.rows as int / SUB_PANELS as int
    }

    /// How many double-rows one panel has: a pair of physical rows is driven
    /// at once through the upper and lower color rails.
    pub fn double_rows(&self) -> (r: usize)
        ensures
            r == self.spec_double_rows(),
    {
        self.rows / SUB_PANELS
    }
}

impl Default for RGBMatrixConfig {
    /// A 64x64 Adafruit-HAT-with-PWM panel at the defaults the common
    /// adapter boards expect.
    fn default() -> (r: Self)
        ensures
            r.hardware_mapping == HardwareMapping::spec_adafruit_hat_pwm(),
            r.rows == 64,
            r.cols == 64,
            r.refresh_rate == 120,
            r.pi_chip is None,
            r.pwm_bits == 11,
            r.pwm_lsb_nanoseconds == 130,
            r.slowdown is None,
            r.interlaced == false,
            r.dither_bits == 0,
            r.chain_length == 1,
            r.parallel == 1,
            r.panel_type is None,
            r.multiplexing is None,
            r.pixelmapper@ == Seq::<NamedPixelMapperType>::empty(),
            r.row_setter == RowAddressSetterType::Direct,
            r.led_sequence == LedSequence::Rgb,
            r.led_brightness == 100,
    {
        Self {
            hardware_mapping: HardwareMapping::adafruit_hat_pwm(),
            rows: 64,
            cols: 64,
            refresh_rate: 120,
            pi_chip: None,
            pwm_bits: 11,
            pwm_lsb_nanoseconds: 130,
            slowdown: None,
            interlaced: false,
            dither_bits: 0,
            chain_length: 1,
            parallel: 1,
            panel_type: None,
            multiplexing: None,
            pixelmapper: Vec::new(),
            row_setter: RowAddressSetterType::Direct,
            led_sequence: LedSequence::Rgb,
            led_brightness: 100,
        }
    }
}

} // verus!
