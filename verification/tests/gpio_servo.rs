use bud::gpio_servo::{pulse_us_to_duty, servo_duty};

#[test]
fn pulse_us_to_duty_scales_by_period() {
    assert_eq!(pulse_us_to_duty(0, 16_383), 0);
    assert_eq!(pulse_us_to_duty(10_000, 16_383), 8_191);
    assert_eq!(pulse_us_to_duty(20_000, 16_383), 16_383);
}

#[test]
fn servo_duty_limits_pulse_range() {
    assert_eq!(servo_duty(1_500, 16_383), 1_228);
    assert_eq!(servo_duty(100, 16_383), servo_duty(500, 16_383));
    assert_eq!(servo_duty(9_999, 16_383), servo_duty(2_500, 16_383));
    assert_eq!(servo_duty(2_500, 16_383), 2_047);
    assert_eq!(servo_duty(500, 16_383), 409);
}

#[test]
fn pulse_us_to_duty_cuts_to_32_bits() {
    let wide = (u32::MAX as u64 * u32::MAX as u64 / 20_000) as u32;
    assert_eq!(pulse_us_to_duty(u32::MAX, u32::MAX), wide);
}
