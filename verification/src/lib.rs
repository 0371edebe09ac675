//! Driver core for HUB75-style RGB LED matrix panels on a Raspberry Pi.
//!
//! The library holds the display-refresh logic: the bit-plane encoder that
//! pre-computes the GPIO words emitted for each sub-row and bit-plane, the
//! pixel-mapping pipeline that composes coordinate transforms, and the plans
//! (pulse timings, register operations) that the refresh thread executes.
//! Everything here is pure computation over plain values; the memory-mapped
//! I/O that carries these plans to the hardware lives outside this crate.

mod utils;
mod canvas;
mod chip;
mod config;
mod error;
mod color;
mod hardware_mapping;
mod gpio;
mod gpio_ops;
mod init_sequence;
mod multiplex_mapper;
mod named_pixel_mapper;
mod pin_pulser;
mod pixel_mapper;
mod registers;
mod rgb_matrix;
mod row_address_setter;

pub use utils::gpio_bit;
pub use canvas::{Canvas, Channel, LedSequence, PixelDesignator, PixelDesignatorMap};
pub use chip::PiChip;
pub use config::{RGBMatrixConfig, K_BIT_PLANES, SUB_PANELS};
pub use error::{GpioInitializationError, InvalidVariantError, MatrixCreationError};
pub use color::{luminance_cie1931, ColorLookup};
pub use hardware_mapping::{ColorBits, HardwareMapping, Panels};
pub use multiplex_mapper::{MultiplexMapper, MultiplexMapperType};
pub use gpio::{check_gpio_conflicts, plan_enabled_inputs, plan_gpio_init, GpioInitPlan};
pub use gpio_ops::GpioOp;
pub use init_sequence::PanelType;
pub use named_pixel_mapper::{NamedPixelMapper, NamedPixelMapperType};
pub use pin_pulser::{bitplane_timings, pwm_pin_alt_function, PulsePlan};
pub use pixel_mapper::{apply_pixel_mapper, PixelMapper};
pub use registers::{cm_ctl_src, cm_div_divf, cm_div_divi, fsel_register_index, fsel_update_word, pwm_clock_init_words, pwm_enable_word, pwm_fifo_empty, pwm_reset_word, time_register_u64, GPIOFunction};
pub use rgb_matrix::{build_designator_map, dither_start_bits};
pub use row_address_setter::{DirectABCDLineRowAddressSetter, DirectRowAddressSetter, RowAddressSetter, RowAddressSetterType, SM5266RowAddressSetter, ShiftRegisterRowAddressSetter};
