use rpi_led_panels::{luminance_cie1931, ColorLookup};

#[test]
fn cie_zero_input_is_dark_at_every_brightness() {
    for b in 1..=100u8 {
        assert_eq!(luminance_cie1931(0, b), 0);
    }
}

#[test]
fn cie_full_input_at_full_brightness_is_full_scale() {
    assert_eq!(luminance_cie1931(255, 100), 2047);
}

#[test]
fn cie_monotone_in_color_byte() {
    for b in 1..=100u8 {
        let mut prev = 0u16;
        for c in 0..=255u8 {
            let v = luminance_cie1931(c, b);
            assert!(v >= prev);
            prev = v;
        }
    }
}

#[test]
fn cie_monotone_in_brightness() {
    for c in 0..=255u8 {
        let mut prev = 0u16;
        for b in 1..=100u8 {
            let v = luminance_cie1931(c, b);
            assert!(v >= prev);
            prev = v;
        }
    }
}

#[test]
fn lookup_rgb_matches_the_curve() {
    let table = ColorLookup::new_cie1931();
    let rgb = table.lookup_rgb(100, 255, 128, 0);
    assert_eq!(rgb[0], luminance_cie1931(255, 100));
    assert_eq!(rgb[1], luminance_cie1931(128, 100));
    assert_eq!(rgb[2], 0);
    let dim = table.lookup_rgb(1, 255, 255, 255);
    assert_eq!(dim[0], luminance_cie1931(255, 1));
}
