use bud::atomic_motion::{
    adjust_servo_center, adjust_servo_gain, apply_servo_gain, apply_stick_deadzone,
    motor_speed_frame, motor_speed_register, servo_angle_register, servo_pulse_frame,
    servo_pulse_from_bytes, servo_pulse_register, stick_to_servo_pulse, MotionError,
};

#[test]
fn motor_speed_register_maps_channel_to_register() {
    assert_eq!(motor_speed_register(0).unwrap(), 0x20);
    assert_eq!(motor_speed_register(1).unwrap(), 0x21);
    assert!(motor_speed_register(2).is_err());
}

#[test]
fn servo_angle_register_maps_channel_to_register() {
    assert_eq!(servo_angle_register(0).unwrap(), 0x00);
    assert_eq!(servo_angle_register(3).unwrap(), 0x03);
    assert!(servo_angle_register(4).is_err());
}

#[test]
fn stick_to_servo_pulse_maps_stick_range_to_pulse_range() {
    assert_eq!(stick_to_servo_pulse(-100, 1_500), 500);
    assert_eq!(stick_to_servo_pulse(0, 1_500), 1_500);
    assert_eq!(stick_to_servo_pulse(100, 1_500), 2_500);
}

#[test]
fn stick_to_servo_pulse_moves_neutral_and_keeps_endpoints() {
    assert_eq!(stick_to_servo_pulse(0, 1_600), 1_600);
    assert_eq!(stick_to_servo_pulse(-100, 1_600), 500);
    assert_eq!(stick_to_servo_pulse(100, 1_600), 2_500);
    assert_eq!(stick_to_servo_pulse(50, 1_500), 2_000);
}

#[test]
fn adjust_servo_center_clamps_to_valid_range() {
    assert_eq!(adjust_servo_center(1_500, 10), 1_510);
    assert_eq!(adjust_servo_center(1_500, -10), 1_490);
    assert_eq!(adjust_servo_center(2_495, 10), 2_500);
    assert_eq!(adjust_servo_center(505, -10), 500);
}

#[test]
fn apply_servo_gain_scales_and_reverses() {
    assert_eq!(apply_servo_gain(100, 100), 100);
    assert_eq!(apply_servo_gain(100, 50), 50);
    assert_eq!(apply_servo_gain(-100, 50), -50);
    assert_eq!(apply_servo_gain(100, -100), -100);
    assert_eq!(apply_servo_gain(40, -50), -20);
    assert_eq!(apply_servo_gain(100, 0), 0);
}

#[test]
fn adjust_servo_gain_clamps_to_valid_range() {
    assert_eq!(adjust_servo_gain(100, 10), 100);
    assert_eq!(adjust_servo_gain(0, -10), -10);
    assert_eq!(adjust_servo_gain(-95, -10), -100);
}

#[test]
fn apply_stick_deadzone_zeroes_values_within_deadzone() {
    assert_eq!(apply_stick_deadzone(0), 0);
    assert_eq!(apply_stick_deadzone(10), 0);
    assert_eq!(apply_stick_deadzone(-10), 0);
}

#[test]
fn apply_stick_deadzone_rescales_values_outside_deadzone() {
    assert_eq!(apply_stick_deadzone(11), 1);
    assert_eq!(apply_stick_deadzone(-11), -1);
}

#[test]
fn apply_stick_deadzone_preserves_extremes() {
    assert_eq!(apply_stick_deadzone(100), 100);
    assert_eq!(apply_stick_deadzone(-100), -100);
}

#[test]
fn servo_pulse_register_maps_channel_to_register() {
    assert_eq!(servo_pulse_register(0), Ok(0x10));
    assert_eq!(servo_pulse_register(1), Ok(0x12));
    assert_eq!(servo_pulse_register(2), Ok(0x14));
    assert_eq!(servo_pulse_register(3), Ok(0x16));
    assert_eq!(servo_pulse_register(4), Err(MotionError::ServoChannel(4)));
}

#[test]
fn register_errors_name_the_channel() {
    assert_eq!(motor_speed_register(7), Err(MotionError::MotorChannel(7)));
    assert_eq!(servo_angle_register(200), Err(MotionError::ServoChannel(200)));
}

#[test]
fn motor_speed_frame_limits_speed_and_encodes_twos_complement() {
    assert_eq!(motor_speed_frame(0, 50), Ok([0x20, 50]));
    assert_eq!(motor_speed_frame(1, -1), Ok([0x21, 0xFF]));
    assert_eq!(motor_speed_frame(1, 127), Ok([0x21, 100]));
    assert_eq!(motor_speed_frame(0, -128), Ok([0x20, 0x9C]));
    assert_eq!(motor_speed_frame(2, 10), Err(MotionError::MotorChannel(2)));
}

#[test]
fn servo_pulse_frame_is_big_endian() {
    assert_eq!(servo_pulse_frame(0, 1_500), Ok([0x10, 0x05, 0xDC]));
    assert_eq!(servo_pulse_frame(3, 0x1234), Ok([0x16, 0x12, 0x34]));
    assert_eq!(servo_pulse_frame(4, 1_500), Err(MotionError::ServoChannel(4)));
}

#[test]
fn servo_pulse_roundtrips_through_frame_and_read_back() {
    for width in [0u16, 1, 255, 256, 500, 1_500, 2_500, 0xABCD, u16::MAX] {
        let frame = servo_pulse_frame(2, width).unwrap();
        assert_eq!(servo_pulse_from_bytes(frame[1], frame[2]), width);
    }
    assert_eq!(servo_pulse_from_bytes(0x09, 0xC4), 2_500);
}

#[test]
fn stick_to_servo_pulse_limits_stick_and_center() {
    assert_eq!(stick_to_servo_pulse(127, 1_500), 2_500);
    assert_eq!(stick_to_servo_pulse(-128, 1_500), 500);
    assert_eq!(stick_to_servo_pulse(0, 100), 500);
    assert_eq!(stick_to_servo_pulse(0, 9_000), 2_500);
    // rounding toward zero below the center: 1100 * 33 / 100 = 363
    assert_eq!(stick_to_servo_pulse(-33, 1_600), 1_237);
    assert_eq!(stick_to_servo_pulse(33, 1_600), 1_897);
}

#[test]
fn stick_to_servo_pulse_never_decreases() {
    for center in [500u16, 1_000, 1_500, 2_200, 2_500] {
        let mut previous = 0u16;
        for stick in -128i16..=127 {
            let pulse = stick_to_servo_pulse(stick as i8, center);
            assert!(pulse >= previous);
            previous = pulse;
        }
    }
}

#[test]
fn apply_servo_gain_rounds_toward_zero_and_limits() {
    assert_eq!(apply_servo_gain(33, 50), 16);
    assert_eq!(apply_servo_gain(-33, 50), -16);
    assert_eq!(apply_servo_gain(127, 300), 100);
    assert_eq!(apply_servo_gain(-128, -300), 100);
    for stick in -128i16..=127 {
        assert_eq!(apply_servo_gain(stick as i8, -70), -apply_servo_gain(stick as i8, 70));
    }
}

#[test]
fn apply_stick_deadzone_is_symmetric_and_monotone() {
    let mut previous = -100i8;
    for stick in -127i16..=127 {
        let out = apply_stick_deadzone(stick as i8);
        assert_eq!(apply_stick_deadzone(-(stick as i8)), -out);
        assert!(out >= previous);
        previous = out;
    }
    assert_eq!(apply_stick_deadzone(55), 50);
    assert_eq!(apply_stick_deadzone(127), 100);
    assert_eq!(apply_stick_deadzone(-128), -100);
}
