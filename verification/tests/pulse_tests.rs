use rpi_led_panels::{
    bitplane_timings, check_gpio_conflicts, fsel_update_word, plan_enabled_inputs, plan_gpio_init,
    pwm_clock_init_words, pwm_enable_word, pwm_fifo_empty, pwm_pin_alt_function, pwm_reset_word,
    time_register_u64, GPIOFunction, GpioInitializationError, HardwareMapping, PulsePlan,
};

#[test]
fn bitplane_timings_double_per_plane() {
    let t = bitplane_timings(130, 0);
    assert_eq!(t.len(), 11);
    assert_eq!(t[0], 130);
    assert_eq!(t[1], 260);
    assert_eq!(t[10], 130 * 1024);
}

#[test]
fn dithered_planes_share_the_base_time() {
    let t = bitplane_timings(130, 2);
    assert_eq!(&t[0..4], &[130, 130, 130, 260]);
    assert_eq!(t[10], 130 * 256);
}

#[test]
fn pulse_periods_against_the_base_clock() {
    // With a 130 ns least significant plane the PWM base clock period is
    // four nanoseconds' worth of source ticks, and the per-plane pulse
    // spans 2*T[p] of them: 65 base periods for plane 0, 65*1024 for plane
    // 10 (shifted down by the dithered planes).
    let t = bitplane_timings(130, 0);
    assert_eq!(2 * t[0] / 4, 65);
    assert_eq!(2 * t[10] / 4, 65 * 1024);
    let dithered = bitplane_timings(130, 1);
    assert_eq!(2 * dithered[10] / 4, 65 * 512);
}

#[test]
fn pulse_plan_divides_the_source_clock() {
    let t = bitplane_timings(130, 0);
    let plan = PulsePlan::new(1 << 18, &t);
    assert_eq!(plan.divider, 32);
    assert_eq!(plan.pulse_periods[0], 2);
    assert_eq!(plan.pulse_periods[10], 2048);
    assert_eq!(plan.sleep_hints_us[10], 133);
}

#[test]
fn short_pulses_use_one_fifo_word_and_long_ones_eight() {
    let t = bitplane_timings(130, 0);
    let plan = PulsePlan::new(1 << 18, &t);
    let (range, fifo) = plan.send_pulse_words(0);
    assert_eq!(range, 2);
    assert_eq!(fifo, vec![2, 0, 0]);
    let (range, fifo) = plan.send_pulse_words(10);
    assert_eq!(range, 256);
    assert_eq!(fifo, vec![256, 256, 256, 256, 256, 256, 256, 256, 0, 0]);
}

#[test]
fn remaining_sleep_saturates() {
    let t = bitplane_timings(130, 0);
    let plan = PulsePlan::new(1 << 18, &t);
    assert_eq!(plan.remaining_sleep_us(10, 33), 100);
    assert_eq!(plan.remaining_sleep_us(10, 10_000), 0);
}

#[test]
fn the_output_enable_pin_routes_to_pwm() {
    assert_eq!(pwm_pin_alt_function(1 << 18), (18, 0b010));
    assert_eq!(pwm_pin_alt_function(1 << 12), (12, 0b100));
}

#[test]
fn register_words() {
    assert_eq!(pwm_enable_word(), 0x31);
    assert_eq!(pwm_reset_word(), 0x70);
    assert!(pwm_fifo_empty(0x2));
    assert!(!pwm_fifo_empty(0x1));
    assert_eq!(time_register_u64(0xDEAD_BEEF, 0x1), 0x1_DEAD_BEEF);
    let words = pwm_clock_init_words(32);
    assert_eq!(words[0], (0x5A << 24) | 0x20);
    assert_eq!(words[1], (0x5A << 24) | 6);
    assert_eq!(words[2], (0x5A << 24) | (32 << 12));
    assert_eq!(words[3], (0x5A << 24) | 0x10 | 6);
    // GPIO 7's field sits at bits 21..24 of the first select register.
    assert_eq!(fsel_update_word(0xFFFF_FFFF, 7, GPIOFunction::Input), 0xFFFF_FFFF & !(0b111 << 21));
}

#[test]
fn gpio_conflicts_are_reported() {
    assert_eq!(
        check_gpio_conflicts(true, false, 0),
        Err(GpioInitializationError::SoundModuleLoaded)
    );
    assert_eq!(
        check_gpio_conflicts(false, true, 1 << 4),
        Err(GpioInitializationError::OneWireProtocolEnabled)
    );
    assert_eq!(check_gpio_conflicts(false, true, 1 << 5), Ok(()));
    assert_eq!(check_gpio_conflicts(false, false, 1 << 4), Ok(()));
}

#[test]
fn gpio_plan_claims_every_used_pin() {
    let used = HardwareMapping::regular().used_bits();
    let plan = plan_gpio_init(used);
    assert_eq!(plan.output_bits, used);
    // The regular mapping drives GPIO 4 as the strobe, so nothing stays
    // reserved.
    assert_eq!(plan.reserved_bits, 0);
    assert_eq!(plan.fsel[0], (4, GPIOFunction::Input));
    assert_eq!(plan.fsel[1], (18, GPIOFunction::Input));
    let mut claimed = 0u32;
    for (pin, function) in plan.fsel.iter().skip(2) {
        assert_eq!(*function, GPIOFunction::Output);
        claimed |= 1 << pin;
    }
    assert_eq!(claimed, used);
}

#[test]
fn enabled_inputs_skip_every_taken_pin() {
    let (enabled, fsel) = plan_enabled_inputs(0b1111, 0b0001, 0b0010, 0b0100);
    assert_eq!(enabled, 0b1000);
    assert_eq!(fsel.len(), 1);
    assert_eq!(fsel[0], (3, GPIOFunction::Input));
}
