//! One channel of an H-bridge driver (TB6612FNG, DRV8833 and the like): two direction
//! inputs and a PWM input, as AIN1/AIN2/PWMA of a TB6612FNG.

use vstd::prelude::*;

use crate::arith::{abs_int, clamp_i8, clamp_int};

verus! {

/// Levels of the two direction inputs and the PWM duty value for one output setting.
#[derive(Debug, Clone, Copy, PartialEq, Eq, Structural)]
pub struct DcDrive {
    pub in1: bool,
    pub in2: bool,
    pub duty: u32,
}

/// The drive for `power` (-100 full reverse to 100 full forward, limited first): IN1 high
/// for forward, IN2 high for reverse, both low to stop, and a duty proportional to the
/// magnitude.
pub open spec fn dc_drive_spec(power: int, max_duty: int) -> DcDrive {
    let p = clamp_int(power, -100, 100);
    DcDrive { in1: p > 0, in2: p < 0, duty: (max_duty * abs_int(p) / 100) as u32 }
}

/// Computes the drive of one output setting; `max_duty` is the duty value of a full
/// period.
pub fn dc_motor_drive(power: i8, max_duty: u32) -> (drive: DcDrive)
    requires
        max_duty as int * abs_int(clamp_int(power as int, -100, 100)) <= u32::MAX,
    ensures
        drive == dc_drive_spec(power as int, max_duty as int),
        drive.duty <= max_duty,
{
    let power: i8 = clamp_i8(power, -100, 100);
    let magnitude: u32 = if power < 0 {
        (-(power as i16)) as u32
    } else {
        power as u32
    };
    proof {
        crate::arith::lemma_scaled_share(magnitude as int, max_duty as int);
        assert(magnitude as int * max_duty as int == max_duty as int * magnitude as int)
            by (nonlinear_arith);
    }
    DcDrive { in1: power > 0, in2: power < 0, duty: max_duty * magnitude / 100 }
}

/// The drive that stops the motor: both inputs low, no duty.
pub proof fn lemma_stop_drive(max_duty: int)
    ensures
        dc_drive_spec(0, max_duty) == (DcDrive { in1: false, in2: false, duty: 0 }),
{
    assert(max_duty * 0 == 0) by (nonlinear_arith);
}

} // verus!
