use rpi_led_panels::HardwareMapping;

fn control_group(m: &HardwareMapping) -> u32 {
    m.output_enable | m.clock | m.strobe
}

fn row_group(m: &HardwareMapping) -> u32 {
    m.a | m.b | m.c | m.d | m.e
}

#[test]
fn regular_pin_assignments() {
    let m = HardwareMapping::regular();
    assert_eq!(m.output_enable, 1 << 18);
    assert_eq!(m.clock, 1 << 17);
    assert_eq!(m.strobe, 1 << 4);
    assert_eq!(m.a, 1 << 22);
    assert_eq!(m.e, 1 << 15);
    assert_eq!(m.panels.color_bits[0].r1, 1 << 11);
    assert_eq!(m.panels.color_bits[0].b2, 1 << 10);
    assert_eq!(m.panels.color_bits[2].b2, 1 << 21);
}

#[test]
fn pin_groups_do_not_overlap() {
    // The E line of the first-generation regular mapping shares a pin with
    // its chain-0 red line by design, so that variant is not listed here.
    let mappings = [
        HardwareMapping::regular(),
        HardwareMapping::adafruit_hat(),
        HardwareMapping::adafruit_hat_pwm(),
        HardwareMapping::classic(),
        HardwareMapping::classic_pi1(),
    ];
    for m in mappings.iter() {
        assert_eq!(control_group(m) & row_group(m), 0);
        assert_eq!(control_group(m) & m.panels.used_bits(), 0);
        assert_eq!(row_group(m) & m.panels.used_bits(), 0);
        for i in 0..6 {
            for j in 0..6 {
                if i != j {
                    let a = m.panels.color_bits[i].used_bits();
                    let b = m.panels.color_bits[j].used_bits();
                    assert_eq!(a & b, 0);
                }
            }
        }
    }
}

#[test]
fn max_parallel_chains_counts_populated_chains() {
    assert_eq!(HardwareMapping::regular().max_parallel_chains(), 3);
    assert_eq!(HardwareMapping::classic().max_parallel_chains(), 3);
    assert_eq!(HardwareMapping::adafruit_hat().max_parallel_chains(), 1);
    assert_eq!(HardwareMapping::adafruit_hat_pwm().max_parallel_chains(), 1);
    assert_eq!(HardwareMapping::regular_pi1().max_parallel_chains(), 1);
    assert_eq!(HardwareMapping::classic_pi1().max_parallel_chains(), 1);
}

#[test]
fn color_clock_mask_covers_active_chains() {
    let m = HardwareMapping::regular();
    let one = m.get_color_clock_mask(1);
    assert_eq!(one, m.clock | m.panels.color_bits[0].used_bits());
    let three = m.get_color_clock_mask(3);
    assert_eq!(
        three,
        m.clock
            | m.panels.color_bits[0].used_bits()
            | m.panels.color_bits[1].used_bits()
            | m.panels.color_bits[2].used_bits()
    );
}

#[test]
fn used_bits_is_the_union_of_all_groups() {
    let m = HardwareMapping::adafruit_hat();
    assert_eq!(m.used_bits(), m.output_enable | m.clock | m.strobe | m.panels.used_bits());
}

#[test]
fn wiring_names_parse_to_their_mappings() {
    assert_eq!(
        HardwareMapping::parse("Regular").unwrap(),
        HardwareMapping::regular()
    );
    assert_eq!(
        HardwareMapping::parse("AdafruitHatPwm").unwrap(),
        HardwareMapping::adafruit_hat_pwm()
    );
    assert_eq!(
        HardwareMapping::parse("ClassicPi1").unwrap(),
        HardwareMapping::classic_pi1()
    );
    assert!(HardwareMapping::parse("regular").is_err());
    assert!(HardwareMapping::parse("SomethingElse").is_err());
}
