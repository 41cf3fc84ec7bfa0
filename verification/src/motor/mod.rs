//! Motor control through the ATOMIC Motion base (the register protocol lives in
//! [`crate::atomic_motion`]) and through an H-bridge driver ([`dc_motor`]).

pub mod dc_motor;

pub use crate::atomic_motion::{
    motor_speed_frame, motor_speed_register, servo_angle_register, MotionError,
};
