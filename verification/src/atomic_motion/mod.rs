//! Register protocol of the ATOMIC Motion base v1.2 (2 DC motor channels, 4 servo
//! channels, driven by an STM32 behind I2C address `0x38`) and the stick shaping that
//! feeds its servo channels.
//!
//! A register write is one I2C transaction of `[register, data...]`, as the vendor's
//! Arduino library `M5Atomic-Motion` sends it. The frames are computed here; sending
//! them is the firmware's job.

use vstd::prelude::*;

use crate::arith::{
    abs_int, clamp_i32, clamp_i8, clamp_int, div_toward_zero, lemma_div_toward_zero_monotone,
    lemma_div_toward_zero_neg, lemma_scaled_share,
};

verus! {

/// A channel number that the ATOMIC Motion base does not have.
#[derive(Debug, Clone, Copy, PartialEq, Eq, Structural)]
pub enum MotionError {
    /// DC motor channels are 0 and 1.
    MotorChannel(u8),
    /// Servo channels are 0 to 3.
    ServoChannel(u8),
}

/// Lower and upper servo pulse width in µs (0.5 to 2.5 ms, SG90 class servos).
pub const SERVO_PULSE_MIN_US: u16 = 500;

pub const SERVO_PULSE_MAX_US: u16 = 2_500;

/// Initial neutral (center) pulse width in µs.
pub const SERVO_CENTER_DEFAULT_US: u16 = 1_500;

/// Amount by which one D-pad press moves the neutral pulse width, in µs.
pub const SERVO_CENTER_STEP_US: u16 = 10;

/// Initial servo gain, its adjustment step and its limit, in percent. A negative gain
/// reverses the direction of travel.
pub const SERVO_GAIN_DEFAULT_PERCENT: i32 = 100;

pub const SERVO_GAIN_STEP_PERCENT: i32 = 10;

pub const SERVO_GAIN_LIMIT_PERCENT: i32 = 100;

/// Half width of the stick dead zone around the center, on the -100..=100 scale.
pub const DEADZONE: i8 = 10;

// ---------------------------------------------------------------------------------
// Registers
// ---------------------------------------------------------------------------------

/// Speed register of DC motor `channel`: 0x20 + channel.
pub open spec fn motor_speed_register_spec(channel: u8) -> Result<u8, MotionError> {
    if channel > 1 {
        Err(MotionError::MotorChannel(channel))
    } else {
        Ok((0x20 + channel) as u8)
    }
}

/// Angle register of servo `channel`: the channel number itself.
pub open spec fn servo_angle_register_spec(channel: u8) -> Result<u8, MotionError> {
    if channel > 3 {
        Err(MotionError::ServoChannel(channel))
    } else {
        Ok(channel)
    }
}

/// Pulse width register of servo `channel`: 0x10, 0x12, 0x14, 0x16.
pub open spec fn servo_pulse_register_spec(channel: u8) -> Result<u8, MotionError> {
    if channel > 3 {
        Err(MotionError::ServoChannel(channel))
    } else {
        Ok((0x10 + 2 * channel) as u8)
    }
}

/// Maps DC motor channel 0/1 to its speed register 0x20/0x21.
pub fn motor_speed_register(channel: u8) -> (res: Result<u8, MotionError>)
    ensures
        res == motor_speed_register_spec(channel),
{
    if channel > 1 {
        return Err(MotionError::MotorChannel(channel));
    }
    Ok(0x20 + channel)
}

/// Maps servo channel 0..=3 to its angle register 0x00..=0x03.
pub fn servo_angle_register(channel: u8) -> (res: Result<u8, MotionError>)
    ensures
        res == servo_angle_register_spec(channel),
{
    if channel > 3 {
        return Err(MotionError::ServoChannel(channel));
    }
    Ok(channel)
}

/// Maps servo channel 0..=3 to its pulse width register 0x10, 0x12, 0x14, 0x16.
pub fn servo_pulse_register(channel: u8) -> (res: Result<u8, MotionError>)
    ensures
        res == servo_pulse_register_spec(channel),
{
    if channel > 3 {
        return Err(MotionError::ServoChannel(channel));
    }
    let doubled: u8 = 2 * channel;
    let reg: u8 = doubled | 0x10;
    assert(doubled | 0x10 == doubled + 0x10) by (bit_vector)
        requires
            doubled <= 6,
    ;
    Ok(reg)
}

// ---------------------------------------------------------------------------------
// Register frames
// ---------------------------------------------------------------------------------

/// The I2C frame that sets DC motor `channel` to `speed`: the speed register, then the
/// speed limited to -100..=100 (the project's stick convention; the device itself
/// accepts -127..=127) as a two's complement byte.
pub fn motor_speed_frame(channel: u8, speed: i8) -> (res: Result<[u8; 2], MotionError>)
    ensures
        match res {
            Ok(frame) => {
                &&& motor_speed_register_spec(channel) is Ok
                &&& frame@ == seq![
                    motor_speed_register_spec(channel)->Ok_0,
                    clamp_int(speed as int, -100, 100) as i8 as u8,
                ]
            },
            Err(e) => motor_speed_register_spec(channel) == Err::<u8, MotionError>(e),
        },
{
    let speed: i8 = clamp_i8(speed, -100, 100);
    let reg = motor_speed_register(channel)?;
    Ok([reg, speed as u8])
}

/// The I2C frame that sets the pulse width of servo `channel` to `width_us`: the pulse
/// register, then the width big-endian.
pub fn servo_pulse_frame(channel: u8, width_us: u16) -> (res: Result<[u8; 3], MotionError>)
    ensures
        match res {
            Ok(frame) => {
                &&& servo_pulse_register_spec(channel) is Ok
                &&& frame@ == seq![
                    servo_pulse_register_spec(channel)->Ok_0,
                    (width_us / 256) as u8,
                    (width_us % 256) as u8,
                ]
            },
            Err(e) => servo_pulse_register_spec(channel) == Err::<u8, MotionError>(e),
        },
{
    let reg = servo_pulse_register(channel)?;
    let hi: u8 = (width_us >> 8) as u8;
    let lo: u8 = (width_us & 0xFF) as u8;
    assert(width_us >> 8 == width_us / 256 && width_us & 0xFF == width_us % 256) by (bit_vector);
    Ok([reg, hi, lo])
}

/// The pulse width that the two bytes read back from a pulse register encode
/// (big-endian).
pub fn servo_pulse_from_bytes(hi: u8, lo: u8) -> (width_us: u16)
    ensures
        width_us == hi as int * 256 + lo as int,
{
    assert(((hi as u16) << 8) == hi as u16 * 256) by (bit_vector);
    ((hi as u16) << 8) + lo as u16
}

/// Reading back a pulse width register gives the width that was written to it.
pub proof fn lemma_servo_pulse_roundtrip(width_us: u16)
    ensures
        ((width_us / 256) as u8) as int * 256 + ((width_us % 256) as u8) as int == width_us,
{
}

// ---------------------------------------------------------------------------------
// Servo pulse mapping
// ---------------------------------------------------------------------------------

/// Pulse width for `stick` (-100..=100) around the neutral width `center_us`: 0 gives
/// the center, -100 the lower limit, 100 the upper limit, and each side of the center is
/// mapped linearly on its own, so that moving the center keeps both end points.
pub open spec fn servo_pulse_spec(stick: int, center_us: int) -> int {
    let s = clamp_int(stick, -100, 100);
    let c = clamp_int(center_us, SERVO_PULSE_MIN_US as int, SERVO_PULSE_MAX_US as int);
    let span = if s >= 0 {
        SERVO_PULSE_MAX_US - c
    } else {
        c - SERVO_PULSE_MIN_US
    };
    c + div_toward_zero(s * span, 100)
}

/// Converts a stick value (-100..=100) to a servo pulse width in µs: 0 maps to
/// `center_us`, -100 to 500 µs and 100 to 2500 µs, linearly on each side of the center.
/// Out-of-range sticks and centers are limited first.
pub fn stick_to_servo_pulse(stick: i8, center_us: u16) -> (pulse: u16)
    ensures
        pulse == servo_pulse_spec(stick as int, center_us as int),
        SERVO_PULSE_MIN_US <= pulse <= SERVO_PULSE_MAX_US,
{
    let s: i32 = clamp_i8(stick, -100, 100) as i32;
    let center: i32 = clamp_i32(
        center_us as i32,
        SERVO_PULSE_MIN_US as i32,
        SERVO_PULSE_MAX_US as i32,
    );
    let pulse: i32 = if s >= 0 {
        let span: i32 = SERVO_PULSE_MAX_US as i32 - center;
        proof {
            lemma_scaled_share(s as int, span as int);
        }
        center + s * span / 100
    } else {
        let span: i32 = center - SERVO_PULSE_MIN_US as i32;
        proof {
            lemma_scaled_share(-s as int, span as int);
            assert(-(s * span) == (-s) * span) by (nonlinear_arith);
        }
        center - (-s) * span / 100
    };
    pulse as u16
}

/// The pulse width never decreases as the stick moves up, whatever the center.
pub proof fn lemma_servo_pulse_monotone(s1: int, s2: int, center_us: int)
    requires
        s1 <= s2,
    ensures
        servo_pulse_spec(s1, center_us) <= servo_pulse_spec(s2, center_us),
{
    let a = clamp_int(s1, -100, 100);
    let b = clamp_int(s2, -100, 100);
    let c = clamp_int(center_us, SERVO_PULSE_MIN_US as int, SERVO_PULSE_MAX_US as int);
    if a >= 0 {
        let span = SERVO_PULSE_MAX_US - c;
        assert(a * span <= b * span) by (nonlinear_arith)
            requires
                a <= b,
                span >= 0,
        ;
        lemma_div_toward_zero_monotone(a * span, b * span, 100);
    } else if b < 0 {
        let span = c - SERVO_PULSE_MIN_US;
        assert(a * span <= b * span) by (nonlinear_arith)
            requires
                a <= b,
                span >= 0,
        ;
        lemma_div_toward_zero_monotone(a * span, b * span, 100);
    } else {
        let lspan = c - SERVO_PULSE_MIN_US;
        let rspan = SERVO_PULSE_MAX_US - c;
        assert(a * lspan <= 0 && 0 <= b * rspan) by (nonlinear_arith)
            requires
                a < 0,
                b >= 0,
                lspan >= 0,
                rspan >= 0,
        ;
        lemma_div_toward_zero_monotone(a * lspan, 0, 100);
        lemma_div_toward_zero_monotone(0, b * rspan, 100);
    }
}

/// The end points stay at 500 µs and 2500 µs and the neutral stick gives the (limited)
/// center, whatever the center is.
pub proof fn lemma_servo_pulse_end_points(center_us: int)
    ensures
        servo_pulse_spec(-100, center_us) == SERVO_PULSE_MIN_US,
        servo_pulse_spec(100, center_us) == SERVO_PULSE_MAX_US,
        servo_pulse_spec(0, center_us) == clamp_int(
            center_us,
            SERVO_PULSE_MIN_US as int,
            SERVO_PULSE_MAX_US as int,
        ),
{
    let c = clamp_int(center_us, SERVO_PULSE_MIN_US as int, SERVO_PULSE_MAX_US as int);
    let lspan = c - SERVO_PULSE_MIN_US;
    let rspan = SERVO_PULSE_MAX_US - c;
    assert((-100) * lspan == -(100 * lspan)) by (nonlinear_arith);
    assert((100 * lspan) / 100 == lspan) by (nonlinear_arith);
    assert((100 * rspan) / 100 == rspan) by (nonlinear_arith);
    assert(0 * rspan == 0) by (nonlinear_arith);
}

/// Center pulse width moved by `delta_us` and limited to 500..=2500 µs.
pub fn adjust_servo_center(center_us: u16, delta_us: i32) -> (new_center: u16)
    requires
        center_us as int + delta_us as int <= i32::MAX,
    ensures
        new_center == clamp_int(
            center_us as int + delta_us as int,
            SERVO_PULSE_MIN_US as int,
            SERVO_PULSE_MAX_US as int,
        ),
{
    clamp_i32(center_us as i32 + delta_us, SERVO_PULSE_MIN_US as i32, SERVO_PULSE_MAX_US as i32)
        as u16
}

// ---------------------------------------------------------------------------------
// Servo gain
// ---------------------------------------------------------------------------------

/// `stick` (limited to -100..=100) scaled by `gain_percent` (limited to -100..=100),
/// rounded toward zero.
pub open spec fn servo_gain_spec(stick: int, gain_percent: int) -> int {
    div_toward_zero(
        clamp_int(stick, -100, 100) * clamp_int(
            gain_percent,
            -SERVO_GAIN_LIMIT_PERCENT as int,
            SERVO_GAIN_LIMIT_PERCENT as int,
        ),
        100,
    )
}

/// Multiplies a stick value (-100..=100) by the gain `gain_percent` (-100..=100); a
/// negative gain reverses the direction.
pub fn apply_servo_gain(stick: i8, gain_percent: i32) -> (scaled: i8)
    ensures
        scaled == servo_gain_spec(stick as int, gain_percent as int),
        -100 <= scaled <= 100,
{
    let gain: i32 = clamp_i32(gain_percent, -SERVO_GAIN_LIMIT_PERCENT, SERVO_GAIN_LIMIT_PERCENT);
    let s: i32 = clamp_i8(stick, -100, 100) as i32;
    assert(-10000 <= s * gain <= 10000) by (nonlinear_arith)
        requires
            -100 <= s <= 100,
            -100 <= gain <= 100,
    ;
    let product: i32 = s * gain;
    let q: i32 = if product >= 0 {
        product / 100
    } else {
        -((-product) / 100)
    };
    q as i8
}

/// Negating the gain negates the result.
pub proof fn lemma_servo_gain_reverses(stick: int, gain_percent: int)
    ensures
        servo_gain_spec(stick, -gain_percent) == -servo_gain_spec(stick, gain_percent),
{
    let s = clamp_int(stick, -100, 100);
    let g = clamp_int(gain_percent, -100, 100);
    assert(clamp_int(-gain_percent, -100, 100) == -g);
    assert(s * (-g) == -(s * g)) by (nonlinear_arith);
    lemma_div_toward_zero_neg(s * g, 100);
}

/// The gain never enlarges the stick: the result is at most the (limited) stick in
/// magnitude, and a full positive gain leaves it unchanged.
pub proof fn lemma_servo_gain_bounded(stick: int, gain_percent: int)
    ensures
        abs_int(servo_gain_spec(stick, gain_percent)) <= abs_int(clamp_int(stick, -100, 100)),
        servo_gain_spec(stick, 100) == clamp_int(stick, -100, 100),
        servo_gain_spec(stick, 0) == 0,
{
    let s = clamp_int(stick, -100, 100);
    let g = clamp_int(gain_percent, -100, 100);
    let m = abs_int(s);
    let k = abs_int(g);
    assert(abs_int(s * g) == m * k) by (nonlinear_arith)
        requires
            m == abs_int(s),
            k == abs_int(g),
    ;
    lemma_scaled_share(k, m);
    assert(k * m == m * k) by (nonlinear_arith);
    assert(abs_int(div_toward_zero(s * g, 100)) == (m * k) / 100);
    assert((s * 100) / 100 == s) by (nonlinear_arith);
    assert(((-s) * 100) / 100 == -s) by (nonlinear_arith);
    assert(s * 100 == -((-s) * 100)) by (nonlinear_arith);
    assert(s * 0 == 0) by (nonlinear_arith);
    assert(0int / 100 == 0);
}

/// Gain moved by `delta_percent` and limited to -100..=100.
pub fn adjust_servo_gain(gain_percent: i32, delta_percent: i32) -> (new_gain: i32)
    requires
        i32::MIN <= gain_percent as int + delta_percent as int <= i32::MAX,
    ensures
        new_gain == clamp_int(
            gain_percent as int + delta_percent as int,
            -SERVO_GAIN_LIMIT_PERCENT as int,
            SERVO_GAIN_LIMIT_PERCENT as int,
        ),
{
    clamp_i32(gain_percent + delta_percent, -SERVO_GAIN_LIMIT_PERCENT, SERVO_GAIN_LIMIT_PERCENT)
}

// ---------------------------------------------------------------------------------
// Stick dead zone
// ---------------------------------------------------------------------------------

/// The dead zone curve on the magnitude of a stick value: 0 inside the dead zone, then
/// rescaled linearly so that the edge of the dead zone maps to 0 and 100 to 100.
pub open spec fn deadzone_magnitude(magnitude: int) -> int {
    if magnitude <= DEADZONE as int {
        0
    } else {
        let scaled = (magnitude - DEADZONE as int) * 100 / (100 - DEADZONE as int);
        if scaled > 100 {
            100
        } else {
            scaled
        }
    }
}

/// A stick value (limited to -100..=100) after the dead zone, with its sign kept.
pub open spec fn deadzone_spec(stick: int) -> int {
    let s = clamp_int(stick, -100, 100);
    if s < 0 {
        -deadzone_magnitude(-s)
    } else {
        deadzone_magnitude(s)
    }
}

/// The dead zone curve, defined once for every input -100..=100. Changing the shape of
/// the dead zone (a non-linear curve, say) means changing only this function.
fn deadzone_curve(input: i16) -> (out: i8)
    requires
        -100 <= input <= 100,
    ensures
        out == deadzone_spec(input as int),
{
    let magnitude: i16 = if input < 0 {
        -input
    } else {
        input
    };
    if magnitude <= DEADZONE as i16 {
        0
    } else {
        let scaled: i16 = (magnitude - DEADZONE as i16) * 100 / (100 - DEADZONE as i16);
        let scaled: i16 = if scaled > 100 {
            100
        } else {
            scaled
        };
        proof {
            vstd::arithmetic::div_mod::lemma_div_pos_is_pos(
                (magnitude - DEADZONE as i16) * 100,
                90,
            );
        }
        (if input < 0 {
            -scaled
        } else {
            scaled
        }) as i8
    }
}

/// Applies the stick dead zone (±10 around the center) to a stick value (-100..=100):
/// values inside it become 0, values outside are rescaled to 0..=100 (or 0..=-100).
pub fn apply_stick_deadzone(stick: i8) -> (out: i8)
    ensures
        out == deadzone_spec(stick as int),
        -100 <= out <= 100,
{
    let s: i16 = clamp_i8(stick, -100, 100) as i16;
    let out = deadzone_curve(s);
    proof {
        lemma_deadzone_range(stick as int);
    }
    out
}

/// The magnitude curve never decreases.
proof fn lemma_deadzone_magnitude_monotone(m1: int, m2: int)
    requires
        0 <= m1 <= m2,
    ensures
        0 <= deadzone_magnitude(m1) <= deadzone_magnitude(m2) <= 100,
{
    if m1 > DEADZONE as int {
        vstd::arithmetic::div_mod::lemma_div_is_ordered((m1 - 10) * 100, (m2 - 10) * 100, 90);
    }
    if m2 > DEADZONE as int {
        vstd::arithmetic::div_mod::lemma_div_pos_is_pos((m2 - 10) * 100, 90);
    }
    if m1 > DEADZONE as int {
        vstd::arithmetic::div_mod::lemma_div_pos_is_pos((m1 - 10) * 100, 90);
    }
}

/// Dead zone output stays within -100..=100, is 0 inside the dead zone and keeps the
/// extremes.
pub proof fn lemma_deadzone_range(stick: int)
    ensures
        -100 <= deadzone_spec(stick) <= 100,
        -(DEADZONE as int) <= stick <= DEADZONE as int ==> deadzone_spec(stick) == 0,
        stick >= 100 ==> deadzone_spec(stick) == 100,
        stick <= -100 ==> deadzone_spec(stick) == -100,
{
    let s = clamp_int(stick, -100, 100);
    let m = abs_int(s);
    lemma_deadzone_magnitude_monotone(m, 100);
    lemma_deadzone_magnitude_monotone(0, m);
    assert(9000int / 90 == 100);
}

/// The dead zone keeps the order of stick values.
pub proof fn lemma_deadzone_monotone(s1: int, s2: int)
    requires
        s1 <= s2,
    ensures
        deadzone_spec(s1) <= deadzone_spec(s2),
{
    let a = clamp_int(s1, -100, 100);
    let b = clamp_int(s2, -100, 100);
    if a >= 0 {
        lemma_deadzone_magnitude_monotone(a, b);
    } else if b < 0 {
        lemma_deadzone_magnitude_monotone(-b, -a);
    } else {
        lemma_deadzone_magnitude_monotone(0, -a);
        lemma_deadzone_magnitude_monotone(0, b);
    }
}

/// The dead zone treats both directions alike.
pub proof fn lemma_deadzone_symmetric(stick: int)
    requires
        -127 <= stick <= 127,
    ensures
        deadzone_spec(-stick) == -deadzone_spec(stick),
{
}

} // verus!
