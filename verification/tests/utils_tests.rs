use rpi_led_panels::gpio_bit;

#[test]
fn test_gpio_bits() {
    assert_eq!(gpio_bit(1) | gpio_bit(4) | gpio_bit(5), 1 << 1 | 1 << 4 | 1 << 5);
}

#[test]
fn gpio_bit_is_single_bit() {
    for pin in 0..32u32 {
        let mask = gpio_bit(pin);
        assert_eq!(mask.count_ones(), 1);
        assert_eq!(mask, 1u32 << pin);
    }
}
