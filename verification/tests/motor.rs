use bud::motor::dc_motor::{dc_motor_drive, DcDrive};
use bud::motor::{motor_speed_register, servo_angle_register};

#[test]
fn mod_motor_speed_register_maps_channel_to_register() {
    assert_eq!(motor_speed_register(0).unwrap(), 0x20);
    assert_eq!(motor_speed_register(1).unwrap(), 0x21);
    assert!(motor_speed_register(2).is_err());
}

#[test]
fn mod_servo_angle_register_maps_channel_to_register() {
    assert_eq!(servo_angle_register(0).unwrap(), 0x00);
    assert_eq!(servo_angle_register(3).unwrap(), 0x03);
    assert!(servo_angle_register(4).is_err());
}

#[test]
fn dc_motor_drive_sets_direction_and_duty() {
    assert_eq!(dc_motor_drive(50, 1_000), DcDrive { in1: true, in2: false, duty: 500 });
    assert_eq!(dc_motor_drive(-25, 1_000), DcDrive { in1: false, in2: true, duty: 250 });
    assert_eq!(dc_motor_drive(0, 1_000), DcDrive { in1: false, in2: false, duty: 0 });
    assert_eq!(dc_motor_drive(127, 8_191), DcDrive { in1: true, in2: false, duty: 8_191 });
    assert_eq!(dc_motor_drive(-128, 8_191), DcDrive { in1: false, in2: true, duty: 8_191 });
    assert_eq!(dc_motor_drive(33, 8_191), DcDrive { in1: true, in2: false, duty: 2_703 });
}
