//! Servo signal generated straight from an ESP32 GPIO by the LEDC peripheral (50 Hz,
//! 0.5 to 2.5 ms pulses), without the ATOMIC Motion base: the conversion of a pulse
//! width into an LEDC duty value.

use vstd::prelude::*;

use crate::arith::{clamp_int, clamp_u32};

verus! {

/// Period of the servo signal in µs (50 Hz).
pub const SERVO_PERIOD_US: u32 = 20_000;

pub const SERVO_FREQUENCY_HZ: u32 = 50;

/// Pulse widths of 0 and 180 degrees, in µs (SG90 class servos).
pub const MIN_PULSE_US: u32 = 500;

pub const MAX_PULSE_US: u32 = 2_500;

/// Duty value of a pulse `pulse_us` µs long, for a timer whose full period has the duty
/// value `max_duty`: `pulse_us * max_duty / 20000`, rounded down and cut to 32 bits.
pub fn pulse_us_to_duty(pulse_us: u32, max_duty: u32) -> (duty: u32)
    ensures
        duty == (pulse_us as int * max_duty as int / SERVO_PERIOD_US as int) as u32,
        pulse_us <= SERVO_PERIOD_US ==> duty == pulse_us as int * max_duty as int
            / SERVO_PERIOD_US as int,
{
    proof {
        assert(0 <= pulse_us as int * max_duty as int <= 0xffff_ffff * 0xffff_ffff)
            by (nonlinear_arith);
        if pulse_us <= SERVO_PERIOD_US {
            lemma_period_share(pulse_us as int, max_duty as int);
        }
    }
    (pulse_us as u64 * max_duty as u64 / SERVO_PERIOD_US as u64) as u32
}

/// A pulse no longer than the period gets a duty value no larger than `max_duty`.
proof fn lemma_period_share(pulse_us: int, max_duty: int)
    requires
        0 <= pulse_us <= SERVO_PERIOD_US,
        0 <= max_duty,
    ensures
        0 <= pulse_us * max_duty / SERVO_PERIOD_US as int <= max_duty,
{
    assert(0 <= pulse_us * max_duty <= 20000 * max_duty) by (nonlinear_arith)
        requires
            0 <= pulse_us <= 20000,
            0 <= max_duty,
    ;
    vstd::arithmetic::div_mod::lemma_div_is_ordered(pulse_us * max_duty, 20000 * max_duty, 20000);
    vstd::arithmetic::div_mod::lemma_div_pos_is_pos(pulse_us * max_duty, 20000);
    assert((20000 * max_duty) / 20000 == max_duty) by (nonlinear_arith);
}

/// Duty value that sets a pulse of `pulse_us` µs, limited first to 500..=2500 µs.
pub fn servo_duty(pulse_us: u32, max_duty: u32) -> (duty: u32)
    ensures
        duty == clamp_int(pulse_us as int, MIN_PULSE_US as int, MAX_PULSE_US as int)
            * max_duty as int / SERVO_PERIOD_US as int,
        duty <= max_duty,
{
    let pulse_us = clamp_u32(pulse_us, MIN_PULSE_US, MAX_PULSE_US);
    proof {
        lemma_period_share(pulse_us as int, max_duty as int);
    }
    pulse_us_to_duty(pulse_us, max_duty)
}

} // verus!
