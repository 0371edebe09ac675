use rpi_led_panels::{
    build_designator_map, dither_start_bits, Canvas, GpioOp, HardwareMapping, LedSequence,
    MatrixCreationError, PanelType, PiChip, RGBMatrixConfig, RowAddressSetterType,
};

fn regular_32x32_config() -> RGBMatrixConfig {
    let mut config = RGBMatrixConfig::default();
    config.hardware_mapping = HardwareMapping::regular();
    config.rows = 32;
    config.cols = 32;
    config.chain_length = 1;
    config.parallel = 1;
    config
}

fn regular_32x32_canvas() -> (RGBMatrixConfig, Canvas) {
    let mut config = regular_32x32_config();
    let mapper = build_designator_map(&mut config).unwrap();
    let canvas = Canvas::new(&config, mapper);
    (config, canvas)
}

#[test]
fn single_regular_panel_red_pixel_lands_on_gpio_eleven() {
    // A single 32x32 Regular panel: the canvas is 32x32, and a full-red
    // pixel at (0,0) sets exactly the chain-0 upper red line (GPIO 11) in
    // the plane-10 word of column 0; every other column stays dark.
    let (_config, mut canvas) = regular_32x32_canvas();
    assert_eq!(canvas.width(), 32);
    assert_eq!(canvas.height(), 32);
    canvas.set_pixel(0, 0, 255, 0, 0);
    for col in 0..32 {
        let word = canvas.plane_word(0, col, 10);
        if col == 0 {
            assert_eq!(word, 1 << 11);
        } else {
            assert_eq!(word, 0);
        }
    }
}

#[test]
fn two_pixels_of_one_word_keep_each_other_intact() {
    // Rows 0 and 16 of one column share a buffer word through the upper and
    // lower color rails; writing one must not clear the other.
    let (_config, mut canvas) = regular_32x32_canvas();
    canvas.set_pixel(0, 0, 255, 0, 0);
    canvas.set_pixel(0, 16, 0, 0, 255);
    let word = canvas.plane_word(0, 0, 10);
    assert_eq!(word, (1 << 11) | (1 << 10));
    // Overwriting the upper pixel clears only its own bits.
    canvas.set_pixel(0, 0, 0, 255, 0);
    let word = canvas.plane_word(0, 0, 10);
    assert_eq!(word, (1 << 27) | (1 << 10));
}

#[test]
fn out_of_bounds_pixels_are_dropped() {
    let (_config, mut canvas) = regular_32x32_canvas();
    canvas.set_pixel(32, 0, 255, 255, 255);
    canvas.set_pixel(0, 32, 255, 255, 255);
    for col in 0..32 {
        for plane in 0..11 {
            for row in 0..16 {
                assert_eq!(canvas.plane_word(row, col, plane), 0);
            }
        }
    }
}

#[test]
fn fill_with_one_plane_lights_only_the_top_plane() {
    // fill(255,255,255) with pwm_bits = 1 and full brightness: only plane
    // 10 is non-zero, and it holds the union of the default designator's
    // three rails across all columns and double-rows.
    let (config, mut canvas) = regular_32x32_canvas();
    canvas.set_pwm_bits(1);
    canvas.fill(255, 255, 255);
    let expected = config.hardware_mapping.panels.used_bits();
    for row in 0..16 {
        for col in 0..32 {
            for plane in 0..10 {
                assert_eq!(canvas.plane_word(row, col, plane), 0);
            }
            assert_eq!(canvas.plane_word(row, col, 10), expected);
        }
    }
}

#[test]
fn fill_is_uniform_across_the_canvas() {
    let (_config, mut canvas) = regular_32x32_canvas();
    canvas.fill(17, 130, 255);
    for plane in 0..11 {
        let reference = canvas.plane_word(0, 0, plane);
        for row in 0..16 {
            for col in 0..32 {
                assert_eq!(canvas.plane_word(row, col, plane), reference);
            }
        }
    }
}

#[test]
fn brightness_clamps_and_pwm_depth_is_kept() {
    let (_config, mut canvas) = regular_32x32_canvas();
    canvas.set_brightness(0);
    assert_eq!(canvas.brightness, 1);
    canvas.set_brightness(255);
    assert_eq!(canvas.brightness, 100);
    canvas.set_brightness(55);
    assert_eq!(canvas.brightness, 55);
    canvas.set_pwm_bits(1);
    assert_eq!(canvas.pwm_bits, 1);
    canvas.set_pwm_bits(11);
    assert_eq!(canvas.pwm_bits, 11);
}

#[test]
fn dither_patterns_by_depth() {
    assert_eq!(dither_start_bits(0).unwrap(), vec![0, 0, 0, 0]);
    assert_eq!(dither_start_bits(1).unwrap(), vec![0, 1, 0, 1]);
    assert_eq!(dither_start_bits(2).unwrap(), vec![0, 1, 2, 2]);
    assert!(matches!(
        dither_start_bits(3),
        Err(MatrixCreationError::InvalidDitherBits(3))
    ));
}

#[test]
fn dump_never_pulses_below_the_dither_floor() {
    // With dither depth 1 the engine alternates the plane floor between 0
    // and 1 over frames; no pulse (and no data pass) may touch a lower
    // plane.
    let (config, mut canvas) = regular_32x32_canvas();
    canvas.set_pixel(3, 5, 200, 10, 99);
    let pattern = dither_start_bits(1).unwrap();
    let mut setter = RowAddressSetterType::Direct.create(&config.hardware_mapping, &config);
    let mask = config.hardware_mapping.get_color_clock_mask(config.parallel);
    for seq in 0..4usize {
        let low = pattern[seq % 4];
        let start = (11 - canvas.pwm_bits).max(low);
        let ops = canvas.dump_to_matrix(&config.hardware_mapping, &mut setter, low, mask);
        let mut pulses = 0;
        for op in ops.iter() {
            if let GpioOp::SendPulse(plane) = op {
                assert!(*plane >= start);
                assert!(*plane < 11);
                pulses += 1;
            }
        }
        // One pulse per (double-row, shown plane).
        assert_eq!(pulses, 16 * (11 - start));
    }
}

#[test]
fn dump_shifts_every_column_of_every_shown_plane() {
    let (config, mut canvas) = regular_32x32_canvas();
    canvas.set_pwm_bits(1);
    let mut setter = RowAddressSetterType::Direct.create(&config.hardware_mapping, &config);
    let mask = config.hardware_mapping.get_color_clock_mask(config.parallel);
    let ops = canvas.dump_to_matrix(&config.hardware_mapping, &mut setter, 0, mask);
    let writes = ops
        .iter()
        .filter(|op| matches!(op, GpioOp::WriteMaskedBits { .. }))
        .count();
    // One masked data write per column of each (double-row, plane) pass,
    // plus one row-address write per double-row.
    assert_eq!(writes, 16 * 1 * 32 + 16);
}

#[test]
fn row_setter_caches_the_last_row() {
    let config = regular_32x32_config();
    let mut setter = RowAddressSetterType::Direct.create(&config.hardware_mapping, &config);
    let mut ops: Vec<GpioOp> = Vec::new();
    setter.set_row_address(&mut ops, 5);
    let h = &config.hardware_mapping;
    // 5 is binary 101: lines A and C, under the mask of the lines a
    // sixteen-row panel needs.
    let mask = h.a | h.b | h.c | h.d;
    assert_eq!(
        ops,
        vec![GpioOp::WriteMaskedBits { value: h.a | h.c, mask }]
    );
    setter.set_row_address(&mut ops, 5);
    assert_eq!(ops.len(), 1);
    setter.set_row_address(&mut ops, 6);
    assert_eq!(ops.len(), 2);
}

#[test]
fn panel_init_sequence_streams_every_register() {
    let config = regular_32x32_config();
    let ops = PanelType::FM6126.run_init_sequence(&config.hardware_mapping, &config);
    // One initial clear, then per register one write and a clock pulse per
    // column plus the strobe drop.
    assert_eq!(ops.len(), 1 + 2 * (3 * 32 + 1));
    let ops7 = PanelType::FM6127.run_init_sequence(&config.hardware_mapping, &config);
    assert_eq!(ops7.len(), 1 + 3 * (3 * 32 + 1));
}

#[test]
fn too_many_parallel_chains_are_rejected() {
    let mut config = RGBMatrixConfig::default();
    config.rows = 32;
    config.cols = 32;
    config.parallel = 2;
    // The Adafruit HAT wires a single chain.
    assert!(matches!(
        build_designator_map(&mut config),
        Err(MatrixCreationError::TooManyParallelChains(1))
    ));
}

#[test]
fn name_parsers_accept_the_documented_names() {
    assert_eq!(LedSequence::parse("RGB").unwrap(), LedSequence::Rgb);
    assert_eq!(LedSequence::parse("bgr").unwrap(), LedSequence::Bgr);
    assert!(LedSequence::parse("RXB").is_err());
    assert_eq!(PiChip::parse("BCM2835").unwrap(), PiChip::BCM2708);
    assert_eq!(PiChip::parse("bcm2711").unwrap(), PiChip::BCM2711);
    assert!(PiChip::parse("BCM9999").is_err());
    assert_eq!(PanelType::parse("FM6126").unwrap(), PanelType::FM6126);
    assert_eq!(PanelType::parse("FM6127").unwrap(), PanelType::FM6127);
    assert!(PanelType::parse("fm6126").is_err());
}

#[test]
fn chip_facts_and_revision_decoding() {
    assert_eq!(PiChip::BCM2708.num_cores(), 1);
    assert_eq!(PiChip::BCM2711.num_cores(), 4);
    assert_eq!(PiChip::BCM2708.get_peripherals_base(), 0x2000_0000);
    assert_eq!(PiChip::BCM2709.get_peripherals_base(), 0x3F00_0000);
    assert_eq!(PiChip::BCM2711.get_peripherals_base(), 0xFE00_0000);
    assert_eq!(PiChip::BCM2711.gpio_slowdown(), 3);
    // A Pi 4 revision code carries processor model 3 in bits 12..16.
    assert_eq!(PiChip::from_revision_code(0xa03111), Some(PiChip::BCM2711));
    assert_eq!(PiChip::from_revision_code(0x2082), Some(PiChip::BCM2709));
    assert_eq!(PiChip::from_processor_model(1), Some(PiChip::BCM2709));
    assert_eq!(PiChip::from_processor_model(9), None);
}

#[test]
fn cpuinfo_text_identifies_the_chip() {
    let pi4 = b"processor\t: 0\nmodel name\t: ARMv7\nRevision\t: a03111\nSerial\t\t: 10000000\n";
    assert_eq!(PiChip::determine_from_cpuinfo(pi4), Some(PiChip::BCM2711));
    let pi1_old_style = b"Hardware\t: BCM2708\nRevision\t: 0002\n";
    assert_eq!(
        PiChip::determine_from_cpuinfo(pi1_old_style),
        Some(PiChip::BCM2708)
    );
    let fallback = b"CPU implementer : 0x41\nCPU revision : 1\n";
    assert_eq!(
        PiChip::determine_from_cpuinfo(fallback),
        Some(PiChip::BCM2709)
    );
    let nonsense = b"model name : generic\n";
    assert_eq!(PiChip::determine_from_cpuinfo(nonsense), None);
    let bad_hex = b"Revision\t: zz03111\n";
    assert_eq!(PiChip::determine_from_cpuinfo(bad_hex), None);
}
