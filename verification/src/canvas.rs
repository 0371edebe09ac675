//! The client-facing canvas and its bit-plane buffer.
//!
//! A canvas stores, for every (double-row, bit-plane, column) slot, the
//! 32-bit GPIO word the refresh engine emits for that slot. Writing a pixel
//! looks its designator up, corrects the color through the CIE table and
//! sets or clears the designator's three color bits in each plane.

use vstd::prelude::*;
use crate::color::{spec_luminance_cie1931, ColorLookup};
use crate::config::RGBMatrixConfig;
use crate::gpio_ops::GpioOp;
use crate::hardware_mapping::HardwareMapping;
use vstd::string::StringSliceAdditionalSpecFns;
use crate::error::InvalidVariantError;
use crate::row_address_setter::{spec_setter_next, spec_setter_ops, spec_setter_wf, RowAddressSetter};
use crate::utils::{ascii_upper, spec_ascii_upper};

verus! {

/// One of the three semantic color channels of a pixel.
#[derive(Clone, Copy, Debug)]
pub enum Channel {
    First,
    Second,
    Third,
}

/// Which physical color line receives which semantic channel.
#[derive(Clone, Copy, Debug, PartialEq, Eq, Hash)]
pub enum LedSequence {
    Rgb,
    Rbg,
    Grb,
    Gbr,
    Brg,
    Bgr,
}

impl LedSequence {
    /// The GPIO mask of the physical line that carries `channel` under this
    /// sequence.
    pub open spec fn spec_get_gpio(
        self,
        channel: Channel,
        red_bits: u32,
        green_bits: u32,
        blue_bits: u32,
    ) -> u32 {
        match channel {
            Channel::First => match self {
                LedSequence::Rgb | LedSequence::Rbg => red_bits,
                LedSequence::Grb | LedSequence::Gbr => green_bits,
                LedSequence::Brg | LedSequence::Bgr => blue_bits,
            },
            Channel::Second => match self {
                LedSequence::Grb | LedSequence::Brg => red_bits,
                LedSequence::Rgb | LedSequence::Bgr => green_bits,
                LedSequence::Rbg | LedSequence::Gbr => blue_bits,
            },
            Channel::Third => match self {
                LedSequence::Gbr | LedSequence::Bgr => red_bits,
                LedSequence::Rbg | LedSequence::Brg => green_bits,
                LedSequence::Rgb | LedSequence::Grb => blue_bits,
            },
        }
    }

    /// See `spec_get_gpio`.
    pub fn get_gpio(&self, channel: Channel, red_bits: u32, green_bits: u32, blue_bits: u32) -> (r:
        u32)
        ensures
            r == self.spec_get_gpio(channel, red_bits, green_bits, blue_bits),
    {
        match channel {
            Channel::First => match self {
                LedSequence::Rgb => red_bits,
                LedSequence::Rbg => red_bits,
                LedSequence::Grb => green_bits,
                LedSequence::Gbr => green_bits,
                LedSequence::Brg => blue_bits,
                LedSequence::Bgr => blue_bits,
            },
            Channel::Second => match self {
                LedSequence::Rgb => green_bits,
                LedSequence::Rbg => blue_bits,
                LedSequence::Grb => red_bits,
                LedSequence::Gbr => blue_bits,
                LedSequence::Brg => red_bits,
                LedSequence::Bgr => green_bits,
            },
            Channel::Third => match self {
                LedSequence::Rgb => blue_bits,
                LedSequence::Rbg => green_bits,
                LedSequence::Grb => blue_bits,
                LedSequence::Gbr => red_bits,
                LedSequence::Brg => green_bits,
                LedSequence::Bgr => red_bits,
            },
        }
    }
}

/// The sequence a name selects, compared without regard to ASCII case:
/// three letters naming which physical line takes each channel.
pub open spec fn spec_led_sequence_of(bytes: Seq<u8>) -> Option<LedSequence> {
    if bytes.len() != 3 {
        None
    } else {
        let a = spec_ascii_upper(bytes[0]);
        let b = spec_ascii_upper(bytes[1]);
        let c = spec_ascii_upper(bytes[2]);
        if a == 82 && b == 71 && c == 66 {
            Some(LedSequence::Rgb)
        } else if a == 82 && b == 66 && c == 71 {
            Some(LedSequence::Rbg)
        } else if a == 71 && b == 82 && c == 66 {
            Some(LedSequence::Grb)
        } else if a == 71 && b == 66 && c == 82 {
            Some(LedSequence::Gbr)
        } else if a == 66 && b == 82 && c == 71 {
            Some(LedSequence::Brg)
        } else if a == 66 && b == 71 && c == 82 {
            Some(LedSequence::Bgr)
        } else {
            None
        }
    }
}

impl LedSequence {
    /// Parse a sequence name such as `RGB` or `bgr`.
    pub fn parse(s: &str) -> (r: Result<LedSequence, InvalidVariantError>)
        ensures
            match spec_led_sequence_of(s.spec_bytes()) {
                Some(v) => r == Ok::<LedSequence, InvalidVariantError>(v),
                None => r is Err,
            },
    {
        let bytes = s.as_bytes();
        if bytes.len() != 3 {
            return Err(InvalidVariantError::new("RGB RBG GRB GBR BRG BGR".to_owned()));
        }
        let a = ascii_upper(bytes[0]);
        let b = ascii_upper(bytes[1]);
        let c = ascii_upper(bytes[2]);
        if a == 82 && b == 71 && c == 66 {
            Ok(LedSequence::Rgb)
        } else if a == 82 && b == 66 && c == 71 {
            Ok(LedSequence::Rbg)
        } else if a == 71 && b == 82 && c == 66 {
            Ok(LedSequence::Grb)
        } else if a == 71 && b == 66 && c == 82 {
            Ok(LedSequence::Gbr)
        } else if a == 66 && b == 82 && c == 71 {
            Ok(LedSequence::Brg)
        } else if a == 66 && b == 71 && c == 82 {
            Ok(LedSequence::Bgr)
        } else {
            Err(InvalidVariantError::new("RGB RBG GRB GBR BRG BGR".to_owned()))
        }
    }
}

/// Per logical pixel: the buffer slot of its bit-plane-0 word, the three
/// single-bit color masks of its chain and sub-panel, and the clear mask.
/// An absent `gpio_word` marks a coordinate with no physical LED behind it;
/// writes to it are discarded.
#[derive(Clone, Copy, Debug, PartialEq, Eq)]
pub struct PixelDesignator {
    pub gpio_word: Option<usize>,
    pub r_bit: u32,
    pub g_bit: u32,
    pub b_bit: u32,
    pub mask: u32,
}

/// The designator's buffer slot, if present, addresses a (double-row,
/// column) pair of a canvas with `cols` columns and `double_rows` double
/// rows.
pub open spec fn spec_designator_offset_wf(d: PixelDesignator, cols: int, double_rows: int) -> bool {
    match d.gpio_word {
        Some(o) => o < double_rows * (cols * 11) && (o as int) % (cols * 11) < cols,
        None => true,
    }
}

/// A designator stored in a map also clears exactly its own color bits.
pub open spec fn spec_designator_wf(d: PixelDesignator, cols: int, double_rows: int) -> bool {
    &&& spec_designator_offset_wf(d, cols, double_rows)
    &&& d.mask == !(d.r_bit | d.g_bit | d.b_bit)
}

impl PixelDesignator {
    /// The default designator used by `fill`: no buffer slot, and the three
    /// masks cover the color lines of every chain at once.
    pub fn new(hardware_mapping: &HardwareMapping, sequence: LedSequence) -> (r: Self)
        ensures
            r.gpio_word is None,
            r.r_bit == sequence.spec_get_gpio(
                Channel::First,
                hardware_mapping.panels.spec_red_bits(),
                hardware_mapping.panels.spec_green_bits(),
                hardware_mapping.panels.spec_blue_bits(),
            ),
            r.g_bit == sequence.spec_get_gpio(
                Channel::Second,
                hardware_mapping.panels.spec_red_bits(),
                hardware_mapping.panels.spec_green_bits(),
                hardware_mapping.panels.spec_blue_bits(),
            ),
            r.b_bit == sequence.spec_get_gpio(
                Channel::Third,
                hardware_mapping.panels.spec_red_bits(),
                hardware_mapping.panels.spec_green_bits(),
                hardware_mapping.panels.spec_blue_bits(),
            ),
            r.mask == !0u32,
    {
        let h = hardware_mapping;
        let r = h.panels.red_bits();
        let g = h.panels.green_bits();
        let b = h.panels.blue_bits();
        Self {
            gpio_word: None,
            r_bit: sequence.get_gpio(Channel::First, r, g, b),
            g_bit: sequence.get_gpio(Channel::Second, r, g, b),
            b_bit: sequence.get_gpio(Channel::Third, r, g, b),
            mask: !0u32,
        }
    }
}

/// The designator the fresh map of `PixelDesignatorMap::new` holds at
/// `(x, y)`: the buffer slot of the pixel's double-row and column, and the
/// color bits of its chain and sub-panel under the configured sequence.
pub open spec fn spec_designator_at(config: RGBMatrixConfig, width: int, x: int, y: int) -> PixelDesignator {
    let dr = config.spec_double_rows();
    let panel = y / config.rows as int;
    let cb = config.hardware_mapping.panels.color_bits[panel];
    let upper = (y - panel * (config.rows as int)) < dr;
    let r = if upper { cb.r1 } else { cb.r2 };
    let g = if upper { cb.g1 } else { cb.g2 };
    let b = if upper { cb.b1 } else { cb.b2 };
    let r_bit = config.led_sequence.spec_get_gpio(Channel::First, r, g, b);
    let g_bit = config.led_sequence.spec_get_gpio(Channel::Second, r, g, b);
    let b_bit = config.led_sequence.spec_get_gpio(Channel::Third, r, g, b);
    PixelDesignator {
        gpio_word: Some(((y % dr) * (width * 11) + x) as usize),
        r_bit: r_bit,
        g_bit: g_bit,
        b_bit: b_bit,
        mask: !(r_bit | g_bit | b_bit),
    }
}

/// A row-major prefix of a fresh map: entry `i` is the designator of the
/// pixel at column `i % width` in row `i / width`.
pub open spec fn spec_fresh_prefix(
    config: RGBMatrixConfig,
    width: int,
    buffer: Seq<PixelDesignator>,
) -> bool {
    forall|i: int|
        0 <= i < buffer.len() ==> #[trigger] buffer[i] == spec_designator_at(
            config,
            width,
            i % width,
            i / width,
        )
}

/// The visible-rectangle array of designators, shared read-only by the two
/// canvases, plus the default designator that `fill` uses.
#[derive(Clone)]
pub struct PixelDesignatorMap {
    pub width: usize,
    pub height: usize,
    pub pixel_designator: PixelDesignator,
    pub buffer: Vec<PixelDesignator>,
}

impl PixelDesignatorMap {
    /// Every stored designator addresses a canvas with `cols` columns and
    /// `double_rows` double rows.
    pub open spec fn wf_for(self, cols: int, double_rows: int) -> bool {
        &&& self.buffer@.len() == self.width * self.height
        &&& self.width * self.height <= usize::MAX
        &&& self.width <= 0x1000_0000
        &&& self.height <= 0x1000_0000
        &&& forall|i: int|
            0 <= i < self.buffer@.len() ==> spec_designator_wf(
                #[trigger] self.buffer@[i],
                cols,
                double_rows,
            )
    }

    /// Build the map of a fresh, unmapped matrix: pixel `(x, y)` addresses
    /// double-row `y % double_rows` at column `x`, on the chain of panel
    /// `y / rows`.
    #[verifier::rlimit(100)]
    #[verifier::spinoff_prover]
    pub fn new(
        pixel_designator: PixelDesignator,
        width: usize,
        height: usize,
        config: &RGBMatrixConfig,
    ) -> (r: Self)
        requires
            0 < width <= 0x1000_0000,
            0 < height <= 0x1000_0000,
            0 < config.spec_double_rows(),
            config.rows as int * 6 >= height,
            width * height <= 0x1000_0000,
            config.spec_double_rows() * (width as int * 11) <= usize::MAX,
        ensures
            r.width == width,
            r.height == height,
            r.pixel_designator == pixel_designator,
            r.buffer@.len() == width * height,
            forall|x: int, y: int|
                0 <= x < width && 0 <= y < height ==> r.buffer@[y * width + x]
                    == spec_designator_at(*config, width as int, x, y),
            r.wf_for(width as int, config.spec_double_rows()),
    {
        let double_rows = config.double_rows();
        let mut buffer: Vec<PixelDesignator> = Vec::new();
        let mut y: usize = 0;
        while y < height
            invariant
                0 <= y <= height,
                0 < width <= 0x1000_0000,
                0 < height <= 0x1000_0000,
                width * height <= 0x1000_0000,
                config.rows as int * 6 >= height,
                double_rows == config.spec_double_rows(),
                0 < double_rows,
                double_rows as int * (width as int * 11) <= usize::MAX,
                buffer@.len() == y * width,
                spec_fresh_prefix(*config, width as int, buffer@),
            decreases height - y,
        {
            proof {
                assert((y + 1) * width == y * width + width) by (nonlinear_arith);
                assert(y * width + width <= height * width) by (nonlinear_arith)
                    requires
                        0 <= y < height,
                        0 < width,
                ;
                assert(height * width == width * height) by (nonlinear_arith);
            }
            let panel = y / config.rows;
            proof {
                assert(y as int / (config.rows as int) < 6) by (nonlinear_arith)
                    requires
                        config.rows as int * 6 >= height,
                        0 <= y < height as int,
                        0 < config.rows as int,
                ;
            }
            let color_bits = config.hardware_mapping.panels.color_bits[panel];
            proof {
                assert(0 <= (y as int / (config.rows as int)) * (config.rows as int) <= y as int)
                    by (nonlinear_arith)
                    requires
                        0 < config.rows as int,
                        0 <= y as int,
                ;
            }
            let upper = y - panel * config.rows < double_rows;
            let (cr, cg, cb) = if upper {
                (color_bits.r1, color_bits.g1, color_bits.b1)
            } else {
                (color_bits.r2, color_bits.g2, color_bits.b2)
            };
            let r_bit = config.led_sequence.get_gpio(Channel::First, cr, cg, cb);
            let g_bit = config.led_sequence.get_gpio(Channel::Second, cr, cg, cb);
            let b_bit = config.led_sequence.get_gpio(Channel::Third, cr, cg, cb);
            proof {
                assert((y as int % double_rows as int) * (width as int * 11) + width
                    <= double_rows as int * (width as int * 11)) by (nonlinear_arith)
                    requires
                        0 < double_rows as int,
                        0 < width as int,
                        0 <= y as int,
                ;
            }
            let row_word = (y % double_rows) * (width * 11);
            let mut x: usize = 0;
            while x < width
                invariant
                    0 <= x <= width,
                    0 <= y < height,
                    0 < width <= 0x1000_0000,
                    width * height <= 0x1000_0000,
                    y * width + width <= width * height,
                    double_rows == config.spec_double_rows(),
                    0 < double_rows,
                    0 < config.rows,
                    panel == y as int / (config.rows as int),
                    color_bits == config.hardware_mapping.panels.color_bits[panel as int],
                    upper == ((y as int - (panel as int) * (config.rows as int))
                        < double_rows as int),
                    cr == (if upper { color_bits.r1 } else { color_bits.r2 }),
                    cg == (if upper { color_bits.g1 } else { color_bits.g2 }),
                    cb == (if upper { color_bits.b1 } else { color_bits.b2 }),
                    r_bit == config.led_sequence.spec_get_gpio(Channel::First, cr, cg, cb),
                    g_bit == config.led_sequence.spec_get_gpio(Channel::Second, cr, cg, cb),
                    b_bit == config.led_sequence.spec_get_gpio(Channel::Third, cr, cg, cb),
                    row_word == (y as int % double_rows as int) * (width as int * 11),
                    row_word + width <= double_rows as int * (width as int * 11),
                    double_rows as int * (width as int * 11) <= usize::MAX,
                    buffer@.len() == y * width + x,
                    spec_fresh_prefix(*config, width as int, buffer@),
                decreases width - x,
            {
                let d = PixelDesignator {
                    gpio_word: Some(row_word + x),
                    r_bit: r_bit,
                    g_bit: g_bit,
                    b_bit: b_bit,
                    mask: !(r_bit | g_bit | b_bit),
                };
                proof {
                    let i = buffer@.len() as int;
                    assert(i % width as int == x as int && i / width as int == y as int)
                        by (nonlinear_arith)
                        requires
                            i == y as int * width as int + x as int,
                            0 <= x < width as int,
                            0 <= y,
                            0 < width as int,
                    ;
                    assert(d == spec_designator_at(*config, width as int, x as int, y as int));
                }
                buffer.push(d);
                x = x + 1;
            }
            y = y + 1;
        }
        proof {
            assert(height as int * width as int == width as int * height as int)
                by (nonlinear_arith);
            assert forall|xx: int, yy: int| 0 <= xx < width && 0 <= yy < height implies buffer@[yy
                * width + xx] == spec_designator_at(*config, width as int, xx, yy) by {
                let i = yy * (width as int) + xx;
                assert(0 <= i < height as int * width as int && i % width as int == xx && i
                    / width as int == yy) by (nonlinear_arith)
                    requires
                        i == yy * (width as int) + xx,
                        0 <= xx < width as int,
                        0 <= yy < height as int,
                        0 < width as int,
                ;
            }
            lemma_fresh_map_wf(*config, width as int, height as int, buffer@);
        }
        Self { width, height, pixel_designator, buffer }
    }

    /// The designator of `(x, y)`, when the flat position is in range. The
    /// position is row-major over the map's width.
    pub fn get(&self, x: usize, y: usize) -> (r: Option<&PixelDesignator>)
        requires
            x < self.width,
            y < self.height,
            self.buffer@.len() == self.width * self.height,
            self.width * self.height <= usize::MAX,
        ensures
            match r {
                Some(d) => y * self.width + x < self.buffer@.len() && *d == self.buffer@[y as int
                    * self.width as int + x as int],
                None => y * self.width + x >= self.buffer@.len(),
            },
    {
        proof {
            assert((y as int) * (self.width as int) + (x as int) < (self.width as int) * (
            self.height as int)) by (nonlinear_arith)
                requires
                    0 <= y < self.height as int,
                    0 <= x < self.width as int,
            ;
        }
        let position = y * self.width + x;
        if position < self.buffer.len() {
            Some(&self.buffer[position])
        } else {
            None
        }
    }

    /// Replace the designator of `(x, y)`.
    pub fn set_designator(&mut self, x: usize, y: usize, d: PixelDesignator)
        requires
            x < old(self).width,
            y < old(self).height,
            old(self).buffer@.len() == old(self).width * old(self).height,
            old(self).width * old(self).height <= usize::MAX,
        ensures
            final(self).width == old(self).width,
            final(self).height == old(self).height,
            final(self).pixel_designator == old(self).pixel_designator,
            final(self).buffer@.len() == old(self).buffer@.len(),
            final(self).buffer@ == old(self).buffer@.update(
                y as int * old(self).width as int + x as int,
                d,
            ),
    {
        proof {
            assert((y as int) * (self.width as int) + x < (self.width as int) * (
            self.height as int)) by (nonlinear_arith)
                requires
                    0 <= x < self.width as int,
                    0 <= y < self.height as int,
            ;
        }
        let position = y * self.width + x;
        self.buffer[position] = d;
    }

    /// The default designator `fill` uses.
    pub fn get_pixel_designator(&self) -> (r: PixelDesignator)
        ensures
            r == self.pixel_designator,
    {
        self.pixel_designator
    }

    /// The visible width of the map.
    pub fn width(&self) -> (r: usize)
        ensures
            r == self.width,
    {
        self.width
    }

    /// The visible height of the map.
    pub fn height(&self) -> (r: usize)
        ensures
            r == self.height,
    {
        self.height
    }
}

/// The flat buffer position of the word for `column` of `double_row` in
/// bit-plane `bit`: planes of one double-row lie back to back, one row of
/// columns each.
pub open spec fn spec_position(cols: int, double_row: int, column: int, bit: int) -> int {
    double_row * (cols * 11) + bit * cols + column
}

/// The color bits to OR into the word of bit-plane `plane`: each of the
/// designator's three masks, if the corresponding luminance value has that
/// plane's bit set.
pub open spec fn spec_color_bits(
    d: PixelDesignator,
    red: u16,
    green: u16,
    blue: u16,
    plane: u16,
) -> u32 {
    (if red & (1u16 << plane) != 0 {
        d.r_bit
    } else {
        0
    }) | (if green & (1u16 << plane) != 0 {
        d.g_bit
    } else {
        0
    }) | (if blue & (1u16 << plane) != 0 {
        d.b_bit
    } else {
        0
    })
}

/// The client-writable framebuffer: the bit-plane buffer plus everything a
/// pixel write needs.
#[derive(Clone)]
pub struct Canvas {
    pub rows: usize,
    pub cols: usize,
    pub double_rows: usize,
    pub bitplane_buffer: Vec<u32>,
    pub shared_mapper: PixelDesignatorMap,
    pub pwm_bits: usize,
    pub brightness: u8,
    pub color_lookup: ColorLookup,
    pub interlaced: bool,
}

impl Canvas {
    /// The buffer covers every (double-row, plane, column) slot, the CIE
    /// table is filled, and every designator of the shared map addresses
    /// this buffer.
    pub open spec fn wf(self) -> bool {
        &&& 0 < self.cols <= 0x1000_0000
        &&& 0 < self.double_rows <= 0x1000_0000
        &&& self.double_rows * (self.cols as int * 11) <= usize::MAX
        &&& self.bitplane_buffer@.len() == self.double_rows * (self.cols as int * 11)
        &&& 1 <= self.pwm_bits <= 11
        &&& 1 <= self.brightness <= 100
        &&& self.color_lookup.wf()
        &&& self.shared_mapper.wf_for(self.cols as int, self.double_rows as int)
    }

    /// Build a canvas over a designator map, with the bit-plane buffer all
    /// dark.
    pub fn new(config: &RGBMatrixConfig, shared_mapper: PixelDesignatorMap) -> (r: Self)
        requires
            0 < config.cols * config.chain_length <= 0x1000_0000,
            0 < config.spec_double_rows() <= 0x1000_0000,
            config.spec_double_rows() * ((config.cols * config.chain_length) as int * 11)
                <= usize::MAX,
            config.rows * config.parallel <= usize::MAX,
            1 <= config.pwm_bits <= 11,
            shared_mapper.wf_for(
                (config.cols * config.chain_length) as int,
                config.spec_double_rows(),
            ),
        ensures
            r.wf(),
            r.rows == config.rows * config.parallel,
            r.cols == config.cols * config.chain_length,
            r.double_rows == config.spec_double_rows(),
            r.bitplane_buffer@.len() == r.double_rows * (r.cols as int * 11),
            forall|i: int| 0 <= i < r.bitplane_buffer@.len() ==> r.bitplane_buffer@[i] == 0u32,
            r.shared_mapper == shared_mapper,
            r.pwm_bits == config.pwm_bits,
            r.brightness == (if config.led_brightness < 1 {
                1u8
            } else if config.led_brightness > 100 {
                100u8
            } else {
                config.led_brightness
            }),
            r.interlaced == config.interlaced,
    {
        let color_lookup = ColorLookup::new_cie1931();
        let rows = config.rows * config.parallel;
        let cols = config.cols * config.chain_length;
        let double_rows = config.double_rows();
        proof {
            assert(cols as int * 11 <= double_rows as int * (cols as int * 11))
                by (nonlinear_arith)
                requires
                    1 <= double_rows as int,
                    0 <= cols as int * 11,
            ;
        }
        let plane_size = cols * 11;
        let total = double_rows * plane_size;
        let mut bitplane_buffer: Vec<u32> = Vec::new();
        let mut i: usize = 0;
        while i < total
            invariant
                0 <= i <= total,
                bitplane_buffer@.len() == i,
                forall|j: int| 0 <= j < i ==> bitplane_buffer@[j] == 0u32,
            decreases total - i,
        {
            bitplane_buffer.push(0u32);
            i = i + 1;
        }
        let brightness = if config.led_brightness < 1 {
            1
        } else if config.led_brightness > 100 {
            100
        } else {
            config.led_brightness
        };
        Self {
            rows,
            cols,
            double_rows,
            bitplane_buffer,
            shared_mapper,
            pwm_bits: config.pwm_bits,
            brightness,
            color_lookup,
            interlaced: config.interlaced,
        }
    }

    /// The visible height in pixels.
    pub fn height(&self) -> (r: usize)
        ensures
            r == self.shared_mapper.height,
    {
        self.shared_mapper.height
    }

    /// The visible width in pixels.
    pub fn width(&self) -> (r: usize)
        ensures
            r == self.shared_mapper.width,
    {
        self.shared_mapper.width
    }

    /// The flat buffer position of `(double_row, column)` in plane `bit`.
    pub fn position_at(&self, double_row: usize, column: usize, bit: usize) -> (r: usize)
        requires
            self.wf(),
            double_row < self.double_rows,
            column < self.cols,
            bit < 11,
        ensures
            r == spec_position(self.cols as int, double_row as int, column as int, bit as int),
            r < self.bitplane_buffer@.len(),
    {
        proof {
            lemma_position_in_bounds(
                self.cols as int,
                self.double_rows as int,
                double_row as int,
                column as int,
                bit as int,
            );
        }
        double_row * (self.cols * 11) + bit * self.cols + column
    }

    /// The buffer word of `(double_row, column)` in plane `bit`.
    pub fn plane_word(&self, double_row: usize, column: usize, bit: usize) -> (r: u32)
        requires
            self.wf(),
            double_row < self.double_rows,
            column < self.cols,
            bit < 11,
        ensures
            r == self.bitplane_buffer@[spec_position(
                self.cols as int,
                double_row as int,
                column as int,
                bit as int,
            )],
    {
        let position = self.position_at(double_row, column, bit);
        self.bitplane_buffer[position]
    }

    /// Choose how many bit-planes are shown; fewer planes cost less CPU at
    /// the price of color depth.
    pub fn set_pwm_bits(&mut self, pwm_bits: usize)
        requires
            1 <= pwm_bits <= 11,
        ensures
            *final(self) == (Canvas { pwm_bits, ..*old(self) }),
    {
        self.pwm_bits = pwm_bits;
    }

    /// Set the canvas' brightness in percent, clamped to 1..=100.
    pub fn set_brightness(&mut self, brightness: u8)
        ensures
            (*final(self) == (Canvas {
                brightness: if brightness < 1 {
                    1u8
                } else if brightness > 100 {
                    100u8
                } else {
                    brightness
                },
                ..*old(self)
            })),
    {
        self.brightness = if brightness < 1 {
            1
        } else if brightness > 100 {
            100
        } else {
            brightness
        };
    }
}

/// Whether buffer index `i` is one of the slots `set_pixel` writes for a
/// designator at offset `o`: the slot of some plane in `start..upto`.
pub open spec fn spec_pixel_slot(o: int, cols: int, start: int, upto: int, i: int) -> bool {
    &&& o <= i < o + 11 * cols
    &&& (i - o) % cols == 0
    &&& start <= (i - o) / cols < upto
}

/// The color bits `fill` writes into every word of bit-plane `plane`.
pub open spec fn spec_fill_plane_bits(
    d: PixelDesignator,
    red: u16,
    green: u16,
    blue: u16,
    plane: u16,
) -> u32 {
    (if red & (1u16 << plane) == (1u16 << plane) {
        d.r_bit
    } else {
        0
    }) | (if green & (1u16 << plane) == (1u16 << plane) {
        d.g_bit
    } else {
        0
    }) | (if blue & (1u16 << plane) == (1u16 << plane) {
        d.b_bit
    } else {
        0
    })
}

impl Canvas {
    /// Write one pixel. Out-of-range coordinates and coordinates with no
    /// physical LED behind them are silently dropped. For every shown
    /// bit-plane, the pixel's word keeps every foreign bit, clears the
    /// designator's three color bits and sets those of them whose luminance
    /// value has that plane's bit; every other word of the buffer is
    /// untouched.
    pub fn set_pixel(&mut self, x: usize, y: usize, r: u8, g: u8, b: u8)
        requires
            old(self).wf(),
        ensures
            final(self).wf(),
            (*final(self) == (Canvas {
                bitplane_buffer: final(self).bitplane_buffer,
                ..*old(self)
            })),
            final(self).bitplane_buffer@.len() == old(self).bitplane_buffer@.len(),
            x < old(self).shared_mapper.width && y < old(self).shared_mapper.height ==> {
                let d = old(self).shared_mapper.buffer@[y as int * old(self).shared_mapper.width
                    as int + x as int];
                match d.gpio_word {
                    None => final(self).bitplane_buffer@ == old(self).bitplane_buffer@,
                    Some(o) => {
                        let start = 11 - old(self).pwm_bits as int;
                        let cols = old(self).cols as int;
                        let red = spec_luminance_cie1931(r as int, old(self).brightness as int)
                            as u16;
                        let green = spec_luminance_cie1931(g as int, old(self).brightness as int)
                            as u16;
                        let blue = spec_luminance_cie1931(b as int, old(self).brightness as int)
                            as u16;
                        &&& forall|p: int|
                            start <= p < 11 ==> #[trigger] final(self).bitplane_buffer@[o + p
                                * cols] == ((old(self).bitplane_buffer@[o + p * cols] & d.mask)
                                | spec_color_bits(
                                d,
                                red,
                                green,
                                blue,
                                p as u16,
                            ))
                        &&& forall|i: int|
                            0 <= i < old(self).bitplane_buffer@.len() && !spec_pixel_slot(
                                o as int,
                                cols,
                                start,
                                11,
                                i,
                            ) ==> final(self).bitplane_buffer@[i]
                                == old(self).bitplane_buffer@[i]
                    },
                }
            },
            !(x < old(self).shared_mapper.width && y < old(self).shared_mapper.height)
                ==> final(self).bitplane_buffer@ == old(self).bitplane_buffer@,
    {
        if x >= self.width() || y >= self.height() {
            return ;
        }
        let designator = match self.shared_mapper.get(x, y) {
            Some(d) => *d,
            None => {
                proof {
                    assert((y as int) * (self.shared_mapper.width as int) + (x as int) < (
                    self.shared_mapper.width as int) * (self.shared_mapper.height as int))
                        by (nonlinear_arith)
                        requires
                            0 <= y < self.shared_mapper.height as int,
                            0 <= x < self.shared_mapper.width as int,
                    ;
                }
                return ;
            },
        };
        let pos_start = match designator.gpio_word {
            Some(w) => w,
            None => {
                return ;
            },
        };
        let rgb = self.color_lookup.lookup_rgb(self.brightness, r, g, b);
        let red = rgb[0];
        let green = rgb[1];
        let blue = rgb[2];
        let min_bit_plane = 11 - self.pwm_bits;
        let ghost old_buf = self.bitplane_buffer@;
        let ghost o = pos_start as int;
        let ghost cols_g = self.cols as int;
        let ghost start_g = min_bit_plane as int;
        proof {
            assert(self.shared_mapper.wf_for(self.cols as int, self.double_rows as int));
            assert((y as int) * (self.shared_mapper.width as int) + (x as int) < (
            self.shared_mapper.width as int) * (self.shared_mapper.height as int))
                by (nonlinear_arith)
                requires
                    0 <= y < self.shared_mapper.height as int,
                    0 <= x < self.shared_mapper.width as int,
            ;
            assert(spec_designator_wf(designator, self.cols as int, self.double_rows as int));
        }
        let mut plane = min_bit_plane;
        while plane < 11
            invariant
                min_bit_plane <= plane <= 11,
                min_bit_plane == 11 - self.pwm_bits,
                start_g == min_bit_plane as int,
                o == pos_start as int,
                cols_g == self.cols as int,
                self.wf(),
                (*self == (Canvas { bitplane_buffer: self.bitplane_buffer, ..*old(self) })),
                old_buf == old(self).bitplane_buffer@,
                old_buf.len() == self.bitplane_buffer@.len(),
                spec_designator_wf(designator, self.cols as int, self.double_rows as int),
                designator.gpio_word == Some(pos_start),
                forall|p: int|
                    start_g <= p < plane ==> #[trigger] self.bitplane_buffer@[o + p * cols_g] == ((
                    old_buf[o + p * cols_g] & designator.mask) | spec_color_bits(
                        designator,
                        red,
                        green,
                        blue,
                        p as u16,
                    )),
                forall|i: int|
                    0 <= i < old_buf.len() && !spec_pixel_slot(o, cols_g, start_g, plane as int, i)
                        ==> self.bitplane_buffer@[i] == old_buf[i],
            decreases 11 - plane,
        {
            proof {
                lemma_offset_plane_in_bounds(
                    o,
                    cols_g,
                    self.double_rows as int,
                    plane as int,
                );
                assert((plane as int * cols_g) % cols_g == 0 && (plane as int * cols_g) / cols_g
                    == plane as int) by (nonlinear_arith)
                    requires
                        0 < cols_g,
                        0 <= plane as int,
                ;
            }
            proof {
                assert(cols_g * (plane as int) == (plane as int) * cols_g) by (nonlinear_arith);
                assert((plane as int) * cols_g < 11 * cols_g) by (nonlinear_arith)
                    requires
                        0 <= plane as int,
                        plane < 11,
                        0 < cols_g,
                ;
            }
            let pos = pos_start + self.cols * plane;
            let mask16: u16 = 1u16 << (plane as u16);
            let rsel: u32 = if (red & mask16) != 0 {
                designator.r_bit
            } else {
                0
            };
            let gsel: u32 = if (green & mask16) != 0 {
                designator.g_bit
            } else {
                0
            };
            let bsel: u32 = if (blue & mask16) != 0 {
                designator.b_bit
            } else {
                0
            };
            let color_bits: u32 = rsel | gsel | bsel;
            proof {
                assert(color_bits == spec_color_bits(designator, red, green, blue, plane as u16));
            }
            let word = self.bitplane_buffer[pos];
            self.bitplane_buffer[pos] = (word & designator.mask) | color_bits;
            proof {
                let ghost pos_i = o + (plane as int) * cols_g;
                assert(pos == pos_i);
                assert forall|p: int|
                    start_g <= p < plane as int + 1 implies #[trigger] self.bitplane_buffer@[o + p
                    * cols_g] == ((old_buf[o + p * cols_g] & designator.mask) | spec_color_bits(
                    designator,
                    red,
                    green,
                    blue,
                    p as u16,
                )) by {
                    if p < plane as int {
                        assert(p * cols_g < plane as int * cols_g) by (nonlinear_arith)
                            requires
                                p < plane as int,
                                0 < cols_g,
                        ;
                    } else {
                        assert(!spec_pixel_slot(o, cols_g, start_g, plane as int, pos_i));
                    }
                }
                assert forall|i: int|
                    0 <= i < old_buf.len() && !spec_pixel_slot(
                        o,
                        cols_g,
                        start_g,
                        plane as int + 1,
                        i,
                    ) implies self.bitplane_buffer@[i] == old_buf[i] by {
                    assert(spec_pixel_slot(o, cols_g, start_g, plane as int + 1, pos_i));
                    assert(i != pos_i);
                    assert(!spec_pixel_slot(o, cols_g, start_g, plane as int, i));
                }
            }
            plane = plane + 1;
        }
    }
}

/// What `fill(r, g, b)` leaves in the bit-plane buffer: every word of every
/// shown plane holds the same pattern over the default designator's bits,
/// and the planes below the shown range keep their words. The plane of
/// buffer index `i` is `(i / cols) % 11`.
pub open spec fn spec_fill_effect(c: Canvas, buf2: Seq<u32>, r: u8, g: u8, b: u8) -> bool {
    let cols = c.cols as int;
    let start = 11 - c.pwm_bits as int;
    let d = c.shared_mapper.pixel_designator;
    let red = spec_luminance_cie1931(r as int, c.brightness as int) as u16;
    let green = spec_luminance_cie1931(g as int, c.brightness as int) as u16;
    let blue = spec_luminance_cie1931(b as int, c.brightness as int) as u16;
    &&& buf2.len() == c.bitplane_buffer@.len()
    &&& forall|i: int|
        0 <= i < buf2.len() ==> #[trigger] buf2[i] == (if (i / cols) % 11 >= start {
            spec_fill_plane_bits(d, red, green, blue, ((i / cols) % 11) as u16)
        } else {
            c.bitplane_buffer@[i]
        })
}

impl Canvas {
    /// Fill the whole canvas with one color, through the default designator
    /// whose bits cover all chains at once.
    pub fn fill(&mut self, r: u8, g: u8, b: u8)
        requires
            old(self).wf(),
        ensures
            final(self).wf(),
            (*final(self) == (Canvas {
                bitplane_buffer: final(self).bitplane_buffer,
                ..*old(self)
            })),
            spec_fill_effect(*old(self), final(self).bitplane_buffer@, r, g, b),
    {
        let designator = self.shared_mapper.get_pixel_designator();
        let rgb = self.color_lookup.lookup_rgb(self.brightness, r, g, b);
        let red = rgb[0];
        let green = rgb[1];
        let blue = rgb[2];
        let start = 11 - self.pwm_bits;
        let len = self.bitplane_buffer.len();
        let ghost old_buf = self.bitplane_buffer@;
        let ghost cols_g = self.cols as int;
        let ghost start_g = start as int;
        let mut i: usize = 0;
        while i < len
            invariant
                0 <= i <= len,
                start == 11 - self.pwm_bits,
                start_g == start as int,
                cols_g == self.cols as int,
                0 < self.cols,
                designator == self.shared_mapper.pixel_designator,
                self.wf(),
                (*self == (Canvas { bitplane_buffer: self.bitplane_buffer, ..*old(self) })),
                old_buf == old(self).bitplane_buffer@,
                len == old_buf.len(),
                len == self.bitplane_buffer@.len(),
                forall|j: int|
                    0 <= j < i ==> #[trigger] self.bitplane_buffer@[j] == (if (j / cols_g) % 11
                        >= start_g {
                        spec_fill_plane_bits(
                            designator,
                            red,
                            green,
                            blue,
                            ((j / cols_g) % 11) as u16,
                        )
                    } else {
                        old_buf[j]
                    }),
                forall|j: int| i <= j < len ==> #[trigger] self.bitplane_buffer@[j] == old_buf[j],
            decreases len - i,
        {
            let plane = (i / self.cols) % 11;
            if plane >= start {
                let mask16: u16 = 1u16 << (plane as u16);
                let rsel: u32 = if (red & mask16) == mask16 {
                    designator.r_bit
                } else {
                    0
                };
                let gsel: u32 = if (green & mask16) == mask16 {
                    designator.g_bit
                } else {
                    0
                };
                let bsel: u32 = if (blue & mask16) == mask16 {
                    designator.b_bit
                } else {
                    0
                };
                self.bitplane_buffer[i] = rsel | gsel | bsel;
            }
            i = i + 1;
        }
    }
}

/// A slot position lies inside the bit-plane buffer.
proof fn lemma_position_in_bounds(cols: int, double_rows: int, d: int, col: int, bit: int)
    requires
        0 < cols,
        0 < double_rows,
        0 <= d < double_rows,
        0 <= col < cols,
        0 <= bit < 11,
    ensures
        0 <= spec_position(cols, d, col, bit),
        spec_position(cols, d, col, bit) + (cols - col) <= double_rows * (cols * 11),
{
    assert(0 <= d * (cols * 11) + bit * cols + col && d * (cols * 11) + bit * cols + col + (cols
        - col) <= double_rows * (cols * 11)) by (nonlinear_arith)
        requires
            0 < cols,
            0 <= d < double_rows,
            0 <= col < cols,
            0 <= bit < 11,
    ;
}

/// A designator offset plus a plane stride stays inside the buffer, and
/// distinct planes give distinct positions.
proof fn lemma_offset_plane_in_bounds(o: int, cols: int, double_rows: int, p: int)
    requires
        0 < cols,
        0 < double_rows,
        0 <= o < double_rows * (cols * 11),
        o % (cols * 11) < cols,
        0 <= p < 11,
    ensures
        0 <= o + p * cols < double_rows * (cols * 11),
{
    let cw = cols * 11;
    let q = o / cw;
    let rem = o % cw;
    vstd::arithmetic::div_mod::lemma_fundamental_div_mod(o, cw);
    assert(0 <= q < double_rows && o + p * cols < (q + 1) * cw) by (nonlinear_arith)
        requires
            0 < cols,
            0 < double_rows,
            cw == cols * 11,
            0 <= o < double_rows * cw,
            o == cw * q + rem,
            0 <= rem < cw,
            rem < cols,
            0 <= p < 11,
    ;
    assert((q + 1) * cw <= double_rows * cw) by (nonlinear_arith)
        requires
            q < double_rows,
            0 < cw,
    ;
    assert(0 <= o + p * cols) by (nonlinear_arith)
        requires
            0 <= o,
            0 <= p,
            0 < cols,
    ;
}

/// A freshly built map is well-formed for a canvas of its own width: every
/// stored offset addresses a double-row below `double_rows` at a column
/// below `width`.
proof fn lemma_fresh_map_wf(
    config: RGBMatrixConfig,
    width: int,
    height: int,
    buffer: Seq<PixelDesignator>,
)
    requires
        0 < width <= 0x1000_0000,
        0 < height <= 0x1000_0000,
        0 < config.spec_double_rows(),
        config.spec_double_rows() * (width * 11) <= usize::MAX,
        buffer.len() == width * height,
        forall|x: int, y: int|
            0 <= x < width && 0 <= y < height ==> buffer[y * width + x] == spec_designator_at(
                config,
                width,
                x,
                y,
            ),
    ensures
        forall|i: int|
            0 <= i < buffer.len() ==> spec_designator_wf(
                #[trigger] buffer[i],
                width,
                config.spec_double_rows(),
            ),
{
    let dr = config.spec_double_rows();
    assert forall|i: int| 0 <= i < buffer.len() implies spec_designator_wf(
        #[trigger] buffer[i],
        width,
        dr,
    ) by {
        let y = i / width;
        let x = i % width;
        vstd::arithmetic::div_mod::lemma_fundamental_div_mod(i, width);
        assert(0 <= y < height && 0 <= x < width) by (nonlinear_arith)
            requires
                0 <= i < width * height,
                0 < width,
                y == i / width,
                x == i % width,
        ;
        assert(buffer[y * width + x] == spec_designator_at(config, width, x, y));
        assert(i == y * width + x) by (nonlinear_arith)
            requires
                y == i / width,
                x == i % width,
                0 < width,
        ;
        lemma_designator_at_offset_wf(config, width, x, y);
    }
}

/// The offset a fresh map stores at `(x, y)` is in range and addresses
/// column `x`.
proof fn lemma_designator_at_offset_wf(config: RGBMatrixConfig, width: int, x: int, y: int)
    requires
        0 < width <= 0x1000_0000,
        0 <= x < width,
        0 <= y,
        0 < config.spec_double_rows(),
        config.spec_double_rows() * (width * 11) <= usize::MAX,
    ensures
        spec_designator_wf(
            spec_designator_at(config, width, x, y),
            width,
            config.spec_double_rows(),
        ),
{
    let dr = config.spec_double_rows();
    let row = y % dr;
    let o = row * (width * 11) + x;
    assert(0 <= row < dr);
    assert(0 <= o && o + (width - x) <= dr * (width * 11) && o % (width * 11) == x)
        by (nonlinear_arith)
        requires
            0 <= row < dr,
            0 <= x < width,
            0 < width,
            o == row * (width * 11) + x,
    ;
    assert(o as usize as int == o);
}

/// After a pixel write, a shown plane's word carries in the designator's
/// color positions exactly the plane bits of the last CIE-corrected write,
/// and every bit outside those positions keeps its value.
pub proof fn lemma_pixel_word_invariant(
    d: PixelDesignator,
    before: u32,
    after: u32,
    red: u16,
    green: u16,
    blue: u16,
    plane: u16,
)
    requires
        d.mask == !(d.r_bit | d.g_bit | d.b_bit),
        after == (before & d.mask) | spec_color_bits(d, red, green, blue, plane),
    ensures
        after & !d.mask == spec_color_bits(d, red, green, blue, plane),
        after & d.mask == before & d.mask,
{
    let rb = d.r_bit;
    let gb = d.g_bit;
    let bb = d.b_bit;
    let m = d.mask;
    let a: u32 = if red & (1u16 << plane) != 0 {
        rb
    } else {
        0
    };
    let b2: u32 = if green & (1u16 << plane) != 0 {
        gb
    } else {
        0
    };
    let c: u32 = if blue & (1u16 << plane) != 0 {
        bb
    } else {
        0
    };
    let cb = spec_color_bits(d, red, green, blue, plane);
    assert(cb == a | b2 | c);
    assert(((before & m) | cb) & !m == cb && ((before & m) | cb) & m == before & m)
        by (bit_vector)
        requires
            m == !(rb | gb | bb),
            cb == a | b2 | c,
            a == rb || a == 0,
            b2 == gb || b2 == 0,
            c == bb || c == 0,
    ;
}

/// After `fill`, every word of one shown bit-plane is the same: two slots
/// that share a plane read back equal words wherever they sit.
pub proof fn lemma_fill_uniform(
    c: Canvas,
    buf2: Seq<u32>,
    r: u8,
    g: u8,
    b: u8,
    d1: int,
    col1: int,
    d2: int,
    col2: int,
    plane: int,
)
    requires
        c.wf(),
        spec_fill_effect(c, buf2, r, g, b),
        0 <= d1 < c.double_rows,
        0 <= col1 < c.cols,
        0 <= d2 < c.double_rows,
        0 <= col2 < c.cols,
        11 - c.pwm_bits <= plane < 11,
    ensures
        buf2[spec_position(c.cols as int, d1, col1, plane)] == buf2[spec_position(
            c.cols as int,
            d2,
            col2,
            plane,
        )],
{
    lemma_position_decompose(c.cols as int, c.double_rows as int, d1, col1, plane);
    lemma_position_decompose(c.cols as int, c.double_rows as int, d2, col2, plane);
    lemma_position_in_bounds(c.cols as int, c.double_rows as int, d1, col1, plane);
    lemma_position_in_bounds(c.cols as int, c.double_rows as int, d2, col2, plane);
}

/// A slot position decomposes back into its plane: the plane of a buffer
/// index is the index divided by the columns, modulo the plane count.
pub proof fn lemma_position_decompose(cols: int, double_rows: int, d: int, col: int, bit: int)
    requires
        0 < cols,
        0 < double_rows,
        0 <= d < double_rows,
        0 <= col < cols,
        0 <= bit < 11,
    ensures
        spec_position(cols, d, col, bit) / cols == d * 11 + bit,
        (spec_position(cols, d, col, bit) / cols) % 11 == bit,
        spec_position(cols, d, col, bit) % cols == col,
{
    let pos = spec_position(cols, d, col, bit);
    assert(pos == cols * (d * 11 + bit) + col && pos / cols == d * 11 + bit && pos % cols == col
        && (d * 11 + bit) % 11 == bit) by (nonlinear_arith)
        requires
            0 < cols,
            0 <= d,
            0 <= col < cols,
            0 <= bit < 11,
            pos == d * (cols * 11) + bit * cols + col,
    ;
}

/// The first bit-plane a frame shows: the planes below the configured depth
/// are never shown, and time dithering raises the floor further on some
/// frames.
pub open spec fn spec_start_bit(c: Canvas, pwm_low_bit: int) -> int {
    if 11 - c.pwm_bits as int >= pwm_low_bit {
        11 - c.pwm_bits as int
    } else {
        pwm_low_bit
    }
}

/// The physical double-row driven in iteration `row_loop` of a frame: in
/// interlaced mode the even rows come first, then the odd ones.
pub open spec fn spec_interlaced_row(c: Canvas, row_loop: int) -> int {
    if !c.interlaced {
        row_loop
    } else if row_loop < c.double_rows as int / 2 {
        2 * row_loop
    } else {
        2 * (row_loop - c.double_rows as int / 2) + 1
    }
}

/// The operations that shift one bit-plane of one double-row into the
/// panels: per column, the pre-computed GPIO word under the color-and-clock
/// mask, then a rising clock edge.
pub open spec fn spec_col_ops(
    c: Canvas,
    color_clk_mask: u32,
    clock: u32,
    d_row: int,
    plane: int,
) -> Seq<GpioOp> {
    Seq::new(
        (2 * c.cols) as nat,
        |i: int|
            if i % 2 == 0 {
                GpioOp::WriteMaskedBits {
                    value: c.bitplane_buffer@[spec_position(c.cols as int, d_row, i / 2, plane)],
                    mask: color_clk_mask,
                }
            } else {
                GpioOp::SetBits(clock)
            },
    )
}

/// The operations of one (double-row, plane) pass: shift the row in, drop
/// the color and clock lines, wait out the previous plane's pulse, select
/// the row in dark time, strobe the data into the drivers and start this
/// plane's pulse.
pub open spec fn spec_plane_ops(
    c: Canvas,
    hm: HardwareMapping,
    color_clk_mask: u32,
    setter: RowAddressSetter,
    d_row: int,
    plane: int,
) -> Seq<GpioOp> {
    spec_col_ops(c, color_clk_mask, hm.clock, d_row, plane) + seq![
        GpioOp::ClearBits(color_clk_mask),
        GpioOp::WaitPulseFinished,
    ] + spec_setter_ops(setter, d_row) + seq![
        GpioOp::SetBits(hm.strobe),
        GpioOp::ClearBits(hm.strobe),
        GpioOp::SendPulse(plane as usize),
    ]
}

/// The operations of one double-row: every shown plane in turn, threading
/// the row setter's cache through.
pub open spec fn spec_row_ops(
    c: Canvas,
    hm: HardwareMapping,
    color_clk_mask: u32,
    setter: RowAddressSetter,
    d_row: int,
    plane: int,
) -> Seq<GpioOp>
    decreases 11 - plane,
{
    if plane < 0 || plane >= 11 {
        Seq::empty()
    } else {
        spec_plane_ops(c, hm, color_clk_mask, setter, d_row, plane) + spec_row_ops(
            c,
            hm,
            color_clk_mask,
            spec_setter_next(setter, d_row),
            d_row,
            plane + 1,
        )
    }
}

/// The operations of one whole frame from iteration `row_loop` on.
pub open spec fn spec_frame_ops(
    c: Canvas,
    hm: HardwareMapping,
    color_clk_mask: u32,
    setter: RowAddressSetter,
    start_bit: int,
    row_loop: int,
) -> Seq<GpioOp>
    decreases c.double_rows as int - row_loop,
{
    if row_loop < 0 || row_loop >= c.double_rows as int {
        Seq::empty()
    } else {
        let d_row = spec_interlaced_row(c, row_loop);
        spec_row_ops(c, hm, color_clk_mask, setter, d_row, start_bit) + spec_frame_ops(
            c,
            hm,
            color_clk_mask,
            spec_setter_next(setter, d_row),
            start_bit,
            row_loop + 1,
        )
    }
}

/// The row setter's cache after a frame from iteration `row_loop` on.
pub open spec fn spec_frame_state(c: Canvas, setter: RowAddressSetter, row_loop: int) -> RowAddressSetter
    decreases c.double_rows as int - row_loop,
{
    if row_loop < 0 || row_loop >= c.double_rows as int {
        setter
    } else {
        spec_frame_state(c, spec_setter_next(setter, spec_interlaced_row(c, row_loop)), row_loop + 1)
    }
}

/// Two canvases agree on every word of every plane at or above
/// `start_bit`.
pub open spec fn spec_agree_on_planes(c1: Canvas, c2: Canvas, start_bit: int) -> bool {
    forall|d: int, col: int, p: int|
        0 <= d < c1.double_rows && 0 <= col < c1.cols && start_bit <= p < 11
            ==> #[trigger] c1.bitplane_buffer@[spec_position(c1.cols as int, d, col, p)]
            == c2.bitplane_buffer@[spec_position(c1.cols as int, d, col, p)]
}

/// One plane pass reads only that plane's words.
proof fn lemma_plane_ops_agree(
    c1: Canvas,
    c2: Canvas,
    hm: HardwareMapping,
    color_clk_mask: u32,
    setter: RowAddressSetter,
    start_bit: int,
    d_row: int,
    plane: int,
)
    requires
        c2.cols == c1.cols,
        c2.double_rows == c1.double_rows,
        c2.interlaced == c1.interlaced,
        spec_agree_on_planes(c1, c2, start_bit),
        0 <= d_row < c1.double_rows,
        start_bit <= plane < 11,
    ensures
        spec_plane_ops(c1, hm, color_clk_mask, setter, d_row, plane) == spec_plane_ops(
            c2,
            hm,
            color_clk_mask,
            setter,
            d_row,
            plane,
        ),
{
    let a = spec_col_ops(c1, color_clk_mask, hm.clock, d_row, plane);
    let b = spec_col_ops(c2, color_clk_mask, hm.clock, d_row, plane);
    assert forall|i: int| 0 <= i < a.len() implies a[i] == b[i] by {
        if i % 2 == 0 {
            assert(0 <= i / 2 < c1.cols);
            assert(c1.bitplane_buffer@[spec_position(c1.cols as int, d_row, i / 2, plane)]
                == c2.bitplane_buffer@[spec_position(c1.cols as int, d_row, i / 2, plane)]);
        }
    }
    assert(a =~= b);
}

/// A full row pass reads only the shown planes.
proof fn lemma_row_ops_agree(
    c1: Canvas,
    c2: Canvas,
    hm: HardwareMapping,
    color_clk_mask: u32,
    setter: RowAddressSetter,
    start_bit: int,
    d_row: int,
    plane: int,
)
    requires
        c2.cols == c1.cols,
        c2.double_rows == c1.double_rows,
        c2.interlaced == c1.interlaced,
        spec_agree_on_planes(c1, c2, start_bit),
        0 <= d_row < c1.double_rows,
        start_bit <= plane,
    ensures
        spec_row_ops(c1, hm, color_clk_mask, setter, d_row, plane) == spec_row_ops(
            c2,
            hm,
            color_clk_mask,
            setter,
            d_row,
            plane,
        ),
    decreases 11 - plane,
{
    if 0 <= plane < 11 {
        lemma_plane_ops_agree(c1, c2, hm, color_clk_mask, setter, start_bit, d_row, plane);
        lemma_row_ops_agree(
            c1,
            c2,
            hm,
            color_clk_mask,
            spec_setter_next(setter, d_row),
            start_bit,
            d_row,
            plane + 1,
        );
    }
}

/// The refresh engine never reads a bit-plane below the frame's floor: two
/// canvases that agree on the planes at or above `start_bit` produce the
/// same frame operations, whatever their lower planes hold.
pub proof fn lemma_dump_reads_only_shown_planes(
    c1: Canvas,
    c2: Canvas,
    hm: HardwareMapping,
    color_clk_mask: u32,
    setter: RowAddressSetter,
    start_bit: int,
    row_loop: int,
)
    requires
        c2.cols == c1.cols,
        c2.double_rows == c1.double_rows,
        c2.interlaced == c1.interlaced,
        spec_agree_on_planes(c1, c2, start_bit),
        0 <= start_bit,
        c1.interlaced ==> c1.double_rows % 2 == 0,
    ensures
        spec_frame_ops(c1, hm, color_clk_mask, setter, start_bit, row_loop) == spec_frame_ops(
            c2,
            hm,
            color_clk_mask,
            setter,
            start_bit,
            row_loop,
        ),
    decreases c1.double_rows as int - row_loop,
{
    if 0 <= row_loop < c1.double_rows as int {
        let d_row = spec_interlaced_row(c1, row_loop);
        assert(spec_interlaced_row(c2, row_loop) == d_row);
        assert(0 <= d_row < c1.double_rows as int);
        lemma_row_ops_agree(c1, c2, hm, color_clk_mask, setter, start_bit, d_row, start_bit);
        lemma_dump_reads_only_shown_planes(
            c1,
            c2,
            hm,
            color_clk_mask,
            spec_setter_next(setter, d_row),
            start_bit,
            row_loop + 1,
        );
    }
}

impl Canvas {
    /// The whole operation sequence of one frame: for each double-row, the
    /// full binary-code modulation of every shown plane before the row
    /// switches.
    pub fn dump_to_matrix(
        &self,
        hardware_mapping: &HardwareMapping,
        row_setter: &mut RowAddressSetter,
        pwm_low_bit: usize,
        color_clk_mask: u32,
    ) -> (r: Vec<GpioOp>)
        requires
            self.wf(),
            pwm_low_bit <= 2,
            spec_setter_wf(*old(row_setter), old(row_setter).spec_double_rows_of()),
            old(row_setter).spec_double_rows_of() == self.double_rows as int || (old(row_setter)
                matches RowAddressSetter::DirectABCDLine(_)),
            self.interlaced ==> self.double_rows % 2 == 0,
        ensures
            r@ == spec_frame_ops(
                *self,
                *hardware_mapping,
                color_clk_mask,
                *old(row_setter),
                spec_start_bit(*self, pwm_low_bit as int),
                0,
            ),
            *final(row_setter) == spec_frame_state(*self, *old(row_setter), 0),
            spec_setter_wf(*final(row_setter), old(row_setter).spec_double_rows_of()),
            final(row_setter).spec_double_rows_of() == old(row_setter).spec_double_rows_of(),
    {
        let depth_floor = 11 - self.pwm_bits;
        let start_bit = if depth_floor > pwm_low_bit {
            depth_floor
        } else {
            pwm_low_bit
        };
        let half_double = self.double_rows / 2;
        let mut ops: Vec<GpioOp> = Vec::new();
        let ghost setter0 = *row_setter;
        let ghost sb = start_bit as int;
        let mut row_loop: usize = 0;
        while row_loop < self.double_rows
            invariant
                0 <= row_loop <= self.double_rows,
                self.wf(),
                pwm_low_bit <= 2,
                self.interlaced ==> self.double_rows % 2 == 0,
                half_double == self.double_rows / 2,
                start_bit == 11 - self.pwm_bits || start_bit == pwm_low_bit,
                sb == start_bit as int,
                sb == spec_start_bit(*self, pwm_low_bit as int),
                0 <= sb <= 10,
                spec_setter_wf(*row_setter, setter0.spec_double_rows_of()),
                row_setter.spec_double_rows_of() == setter0.spec_double_rows_of(),
                setter0.spec_double_rows_of() == self.double_rows as int || (setter0 matches
                RowAddressSetter::DirectABCDLine(_)),
                (setter0 matches RowAddressSetter::DirectABCDLine(_)) == (*row_setter matches
                RowAddressSetter::DirectABCDLine(_)),
                spec_frame_ops(*self, *hardware_mapping, color_clk_mask, setter0, sb, 0) == ops@
                    + spec_frame_ops(
                    *self,
                    *hardware_mapping,
                    color_clk_mask,
                    *row_setter,
                    sb,
                    row_loop as int,
                ),
                spec_frame_state(*self, setter0, 0) == spec_frame_state(
                    *self,
                    *row_setter,
                    row_loop as int,
                ),
            decreases self.double_rows - row_loop,
        {
            let d_row = if !self.interlaced {
                row_loop
            } else {
                if row_loop < half_double {
                    2 * row_loop
                } else {
                    2 * (row_loop - half_double) + 1
                }
            };
            proof {
                assert(d_row as int == spec_interlaced_row(*self, row_loop as int));
                assert(d_row < self.double_rows);
            }
            let ghost setter_row = *row_setter;
            let ghost row_base = ops@;
            let mut b = start_bit;
            while b < 11
                invariant
                    sb <= b <= 11,
                    0 <= sb <= 10,
                    self.wf(),
                    d_row < self.double_rows,
                    spec_setter_wf(*row_setter, setter0.spec_double_rows_of()),
                    row_setter.spec_double_rows_of() == setter0.spec_double_rows_of(),
                    setter0.spec_double_rows_of() == self.double_rows as int || (setter0 matches
                    RowAddressSetter::DirectABCDLine(_)),
                    (setter0 matches RowAddressSetter::DirectABCDLine(_)) == (*row_setter matches
                    RowAddressSetter::DirectABCDLine(_)),
                    (setter0 matches RowAddressSetter::DirectABCDLine(_)) == (setter_row matches
                    RowAddressSetter::DirectABCDLine(_)),
                    spec_setter_wf(setter_row, setter0.spec_double_rows_of()),
                    setter_row.spec_double_rows_of() == setter0.spec_double_rows_of(),
                    *row_setter == (if b as int == sb {
                        setter_row
                    } else {
                        spec_setter_next(setter_row, d_row as int)
                    }),
                    row_base + spec_row_ops(
                        *self,
                        *hardware_mapping,
                        color_clk_mask,
                        setter_row,
                        d_row as int,
                        sb,
                    ) == ops@ + spec_row_ops(
                        *self,
                        *hardware_mapping,
                        color_clk_mask,
                        *row_setter,
                        d_row as int,
                        b as int,
                    ),
                decreases 11 - b,
            {
                let ghost setter_plane = *row_setter;
                let ghost plane_base = ops@;
                let mut col: usize = 0;
                while col < self.cols
                    invariant
                        0 <= col <= self.cols,
                        self.wf(),
                        d_row < self.double_rows,
                        b < 11,
                        ops@.len() == plane_base.len() + 2 * col,
                        forall|j: int|
                            0 <= j < plane_base.len() ==> #[trigger] ops@[j] == plane_base[j],
                        forall|j: int|
                            0 <= j < 2 * col ==> #[trigger] ops@[plane_base.len() + j]
                                == spec_col_ops(
                                *self,
                                color_clk_mask,
                                hardware_mapping.clock,
                                d_row as int,
                                b as int,
                            )[j],
                    decreases self.cols - col,
                {
                    let pos = self.position_at(d_row, col, b);
                    let word = self.bitplane_buffer[pos];
                    ops.push(GpioOp::WriteMaskedBits { value: word, mask: color_clk_mask });
                    ops.push(GpioOp::SetBits(hardware_mapping.clock));
                    col = col + 1;
                }
                proof {
                    let cops = spec_col_ops(
                        *self,
                        color_clk_mask,
                        hardware_mapping.clock,
                        d_row as int,
                        b as int,
                    );
                    assert forall|i: int|
                        0 <= i < ops@.len() implies ops@[i] == (plane_base + cops)[i] by {
                        if i >= plane_base.len() {
                            let j = i - plane_base.len();
                            assert(ops@[plane_base.len() + j] == cops[j]);
                        }
                    }
                    assert(ops@ =~= plane_base + cops);
                }
                ops.push(GpioOp::ClearBits(color_clk_mask));
                ops.push(GpioOp::WaitPulseFinished);
                row_setter.set_row_address(&mut ops, d_row);
                ops.push(GpioOp::SetBits(hardware_mapping.strobe));
                ops.push(GpioOp::ClearBits(hardware_mapping.strobe));
                ops.push(GpioOp::SendPulse(b));
                proof {
                    assert(ops@ =~= plane_base + spec_plane_ops(
                        *self,
                        *hardware_mapping,
                        color_clk_mask,
                        setter_plane,
                        d_row as int,
                        b as int,
                    ));
                    assert(spec_row_ops(
                        *self,
                        *hardware_mapping,
                        color_clk_mask,
                        setter_plane,
                        d_row as int,
                        b as int,
                    ) == spec_plane_ops(
                        *self,
                        *hardware_mapping,
                        color_clk_mask,
                        setter_plane,
                        d_row as int,
                        b as int,
                    ) + spec_row_ops(
                        *self,
                        *hardware_mapping,
                        color_clk_mask,
                        spec_setter_next(setter_plane, d_row as int),
                        d_row as int,
                        b as int + 1,
                    ));
                    assert(row_base + spec_row_ops(
                        *self,
                        *hardware_mapping,
                        color_clk_mask,
                        setter_row,
                        d_row as int,
                        sb,
                    ) =~= ops@ + spec_row_ops(
                        *self,
                        *hardware_mapping,
                        color_clk_mask,
                        spec_setter_next(setter_plane, d_row as int),
                        d_row as int,
                        b as int + 1,
                    ));
                    assert(spec_setter_next(spec_setter_next(setter_row, d_row as int), d_row
                        as int) == spec_setter_next(setter_row, d_row as int));
                }
                b = b + 1;
            }
            proof {
                assert(spec_row_ops(
                    *self,
                    *hardware_mapping,
                    color_clk_mask,
                    *row_setter,
                    d_row as int,
                    11,
                ) =~= Seq::<GpioOp>::empty());
                assert(ops@ =~= row_base + spec_row_ops(
                    *self,
                    *hardware_mapping,
                    color_clk_mask,
                    setter_row,
                    d_row as int,
                    sb,
                ));
                assert(*row_setter == spec_setter_next(setter_row, d_row as int));
                assert(spec_frame_ops(
                    *self,
                    *hardware_mapping,
                    color_clk_mask,
                    setter_row,
                    sb,
                    row_loop as int,
                ) == spec_row_ops(
                    *self,
                    *hardware_mapping,
                    color_clk_mask,
                    setter_row,
                    d_row as int,
                    sb,
                ) + spec_frame_ops(
                    *self,
                    *hardware_mapping,
                    color_clk_mask,
                    spec_setter_next(setter_row, d_row as int),
                    sb,
                    row_loop as int + 1,
                ));
                assert(spec_frame_ops(*self, *hardware_mapping, color_clk_mask, setter0, sb, 0)
                    =~= ops@ + spec_frame_ops(
                    *self,
                    *hardware_mapping,
                    color_clk_mask,
                    *row_setter,
                    sb,
                    row_loop as int + 1,
                ));
            }
            row_loop = row_loop + 1;
        }
        proof {
            assert(spec_frame_ops(
                *self,
                *hardware_mapping,
                color_clk_mask,
                *row_setter,
                sb,
                row_loop as int,
            ) =~= Seq::<GpioOp>::empty());
            assert(ops@ =~= spec_frame_ops(
                *self,
                *hardware_mapping,
                color_clk_mask,
                setter0,
                sb,
                0,
            ));
        }
        ops
    }
}

} // verus!
