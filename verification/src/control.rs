//! Decisions of the main loop: which pulse each servo gets from which stick, the
//! neutral pulse adjustment, when a failed servo write is retried, and which status the
//! LED shows. The DC motors are not assigned to any input.

use vstd::prelude::*;

use crate::arith::clamp_int;
use crate::atomic_motion::{
    apply_stick_deadzone, deadzone_spec, lemma_deadzone_monotone, lemma_deadzone_range,
    lemma_servo_pulse_end_points, lemma_servo_pulse_monotone,
    servo_pulse_spec, stick_to_servo_pulse, SERVO_CENTER_DEFAULT_US, SERVO_CENTER_STEP_US,
    SERVO_PULSE_MAX_US, SERVO_PULSE_MIN_US,
};
use crate::gamepad::{Dpad, GamepadState};

verus! {

/// Number of frames a servo channel waits after a failed write before it is written
/// again (an unconnected I2C bus blocks each write until its timeout, which would slow
/// the whole loop down).
pub const SERVO_RETRY_INTERVAL_FRAMES: u32 = 20;

/// How long after the connection the LED waits for the Bluetooth link to become ready
/// before it falls back to the normal status display, in ms.
pub const OPERATION_READY_TIMEOUT_MS: u64 = 45_000;

/// The stick that drives servo `channel`: S1 (channel 0) the left stick up/down, S2
/// (channel 1) the left stick left/right, S3 (channel 2) the right stick up/down, S4
/// (channel 3) the right stick left/right.
pub open spec fn servo_stick(state: GamepadState, channel: int) -> i8 {
    if channel == 0 {
        state.left_stick_y
    } else if channel == 1 {
        state.left_stick_x
    } else if channel == 2 {
        state.right_stick_y
    } else {
        state.right_stick_x
    }
}

/// Whether this frame starts a press of `direction` on the D-pad: it points there now
/// and did not in the previous frame.
pub open spec fn pressed(dpad: Dpad, previous_dpad: Dpad, direction: Dpad) -> bool {
    dpad == direction && previous_dpad != direction
}

/// The neutral pulse width after one frame: each new press of the D-pad left raises it
/// by one step, each new press of the D-pad right lowers it by one step (saturating at
/// the ends of `u16`); holding the D-pad does not move it further.
pub open spec fn next_center_spec(dpad: Dpad, previous_dpad: Dpad, center_us: u16) -> int {
    if pressed(dpad, previous_dpad, Dpad::Left) {
        if center_us + SERVO_CENTER_STEP_US > u16::MAX {
            u16::MAX as int
        } else {
            center_us + SERVO_CENTER_STEP_US
        }
    } else if pressed(dpad, previous_dpad, Dpad::Right) {
        if center_us < SERVO_CENTER_STEP_US {
            0
        } else {
            center_us - SERVO_CENTER_STEP_US
        }
    } else {
        center_us as int
    }
}

/// What one frame of the main loop does with the controller input.
#[derive(Debug, Clone, Copy, PartialEq, Eq)]
pub struct ControlOutput {
    /// Pulse width in µs for each servo channel 0..=3.
    pub servo_pulses: [u16; 4],
    /// Neutral pulse width from the next frame on.
    pub center_us: u16,
    /// Whether the neutral pulse width is to be stored (a new press of the D-pad left or
    /// right).
    pub save_center: bool,
}

/// Computes one frame of the main loop from the controller input, the D-pad direction
/// of the previous frame and the current neutral pulse width: each servo gets the pulse
/// of its stick after the dead zone, and a new press of the D-pad left or right moves
/// the neutral width by one step.
pub fn control_step(state: &GamepadState, previous_dpad: Dpad, center_us: u16) -> (out:
    ControlOutput)
    ensures
        forall|ch: int|
            0 <= ch < 4 ==> #[trigger] out.servo_pulses@[ch] == servo_pulse_spec(
                deadzone_spec(servo_stick(*state, ch) as int),
                center_us as int,
            ),
        out.servo_pulses@[0] == servo_pulse_spec(
            deadzone_spec(state.left_stick_y as int),
            center_us as int,
        ),
        out.servo_pulses@[1] == servo_pulse_spec(
            deadzone_spec(state.left_stick_x as int),
            center_us as int,
        ),
        out.servo_pulses@[2] == servo_pulse_spec(
            deadzone_spec(state.right_stick_y as int),
            center_us as int,
        ),
        out.servo_pulses@[3] == servo_pulse_spec(
            deadzone_spec(state.right_stick_x as int),
            center_us as int,
        ),
        out.center_us == next_center_spec(state.buttons.dpad, previous_dpad, center_us),
        out.save_center == (pressed(state.buttons.dpad, previous_dpad, Dpad::Left) || pressed(
            state.buttons.dpad,
            previous_dpad,
            Dpad::Right,
        )),
{
    let p0 = stick_to_servo_pulse(apply_stick_deadzone(state.left_stick_y), center_us);
    let p1 = stick_to_servo_pulse(apply_stick_deadzone(state.left_stick_x), center_us);
    let p2 = stick_to_servo_pulse(apply_stick_deadzone(state.right_stick_y), center_us);
    let p3 = stick_to_servo_pulse(apply_stick_deadzone(state.right_stick_x), center_us);
    let servo_pulses = [p0, p1, p2, p3];
    let dpad = state.buttons.dpad;
    let (new_center, save_center) = if dpad == previous_dpad {
        (center_us, false)
    } else {
        match dpad {
            Dpad::Left => (center_us.saturating_add(SERVO_CENTER_STEP_US), true),
            Dpad::Right => (center_us.saturating_sub(SERVO_CENTER_STEP_US), true),
            _ => (center_us, false),
        }
    };
    ControlOutput { servo_pulses, center_us: new_center, save_center }
}

/// Which stick drives which servo, and which way: S1 (channel 0) follows the left stick
/// up/down, S2 (channel 1) the left stick left/right, S3 (channel 2) the right stick
/// up/down, S4 (channel 3) the right stick left/right. On every channel a stick at 100
/// gives the upper pulse limit, a stick at -100 the lower one, and pushing a stick further
/// never lowers the pulse of its channel.
pub proof fn lemma_servo_channel_wiring(s1: GamepadState, s2: GamepadState, center_us: u16)
    ensures
        servo_stick(s1, 0) == s1.left_stick_y,
        servo_stick(s1, 1) == s1.left_stick_x,
        servo_stick(s1, 2) == s1.right_stick_y,
        servo_stick(s1, 3) == s1.right_stick_x,
        forall|ch: int|
            0 <= ch < 4 ==> {
                let p1 = servo_pulse_spec(
                    deadzone_spec(#[trigger] servo_stick(s1, ch) as int),
                    center_us as int,
                );
                let p2 = servo_pulse_spec(
                    deadzone_spec(servo_stick(s2, ch) as int),
                    center_us as int,
                );
                &&& servo_stick(s1, ch) == 100 ==> p1 == SERVO_PULSE_MAX_US
                &&& servo_stick(s1, ch) == -100 ==> p1 == SERVO_PULSE_MIN_US
                &&& servo_stick(s1, ch) <= servo_stick(s2, ch) ==> p1 <= p2
            },
{
    lemma_servo_pulse_end_points(center_us as int);
    lemma_deadzone_range(100);
    lemma_deadzone_range(-100);
    assert forall|ch: int| 0 <= ch < 4 implies {
        let p1 = servo_pulse_spec(
            deadzone_spec(#[trigger] servo_stick(s1, ch) as int),
            center_us as int,
        );
        let p2 = servo_pulse_spec(deadzone_spec(servo_stick(s2, ch) as int), center_us as int);
        &&& servo_stick(s1, ch) == 100 ==> p1 == SERVO_PULSE_MAX_US
        &&& servo_stick(s1, ch) == -100 ==> p1 == SERVO_PULSE_MIN_US
        &&& servo_stick(s1, ch) <= servo_stick(s2, ch) ==> p1 <= p2
    } by {
        if servo_stick(s1, ch) <= servo_stick(s2, ch) {
            lemma_deadzone_monotone(servo_stick(s1, ch) as int, servo_stick(s2, ch) as int);
            lemma_servo_pulse_monotone(
                deadzone_spec(servo_stick(s1, ch) as int),
                deadzone_spec(servo_stick(s2, ch) as int),
                center_us as int,
            );
        }
    }
}

/// Holding the D-pad moves the neutral width only in the frame the press begins: with
/// the same direction as in the previous frame nothing moves and nothing is stored.
pub proof fn lemma_held_dpad_moves_once(dpad: Dpad, center_us: u16)
    ensures
        next_center_spec(dpad, dpad, center_us) == center_us,
        !pressed(dpad, dpad, Dpad::Left) && !pressed(dpad, dpad, Dpad::Right),
{
}

/// A stick resting within the dead zone holds its servo at the (limited) neutral pulse
/// width.
pub proof fn lemma_idle_stick_holds_center(state: GamepadState, center_us: u16, channel: int)
    requires
        0 <= channel < 4,
        -10 <= servo_stick(state, channel) <= 10,
    ensures
        servo_pulse_spec(deadzone_spec(servo_stick(state, channel) as int), center_us as int)
            == clamp_int(center_us as int, SERVO_PULSE_MIN_US as int, SERVO_PULSE_MAX_US as int),
{
    lemma_deadzone_range(servo_stick(state, channel) as int);
    lemma_servo_pulse_end_points(center_us as int);
}

/// The neutral pulse width to start with: the stored one (cut to 16 bits), or 1500 µs
/// when none is stored.
pub fn initial_center(stored: Option<u32>) -> (center_us: u16)
    ensures
        center_us == (match stored {
            Some(v) => v,
            None => SERVO_CENTER_DEFAULT_US as u32,
        }) as u16,
{
    let v: u32 = match stored {
        Some(v) => v,
        None => SERVO_CENTER_DEFAULT_US as u32,
    };
    v as u16
}

// ---------------------------------------------------------------------------------
// Retry of failed servo writes
// ---------------------------------------------------------------------------------

/// Retry bookkeeping of one servo channel.
pub struct ServoRetry {
    countdown: u32,
    failing: bool,
}

/// Frames still to wait before the next write, and whether the last write failed.
pub struct ServoRetryModel {
    pub countdown: nat,
    pub failing: bool,
}

impl View for ServoRetry {
    type V = ServoRetryModel;

    closed spec fn view(&self) -> ServoRetryModel {
        ServoRetryModel { countdown: self.countdown as nat, failing: self.failing }
    }
}

/// One frame of a channel: whether it is written this frame, and the bookkeeping after.
pub open spec fn retry_frame(m: ServoRetryModel) -> (bool, ServoRetryModel) {
    if m.countdown == 0 {
        (true, m)
    } else {
        (false, ServoRetryModel { countdown: (m.countdown - 1) as nat, failing: m.failing })
    }
}

/// The bookkeeping after a write: cleared on success; on failure the channel is marked
/// failing and waits [`SERVO_RETRY_INTERVAL_FRAMES`] frames.
pub open spec fn retry_record(ok: bool) -> ServoRetryModel {
    if ok {
        ServoRetryModel { countdown: 0, failing: false }
    } else {
        ServoRetryModel { countdown: SERVO_RETRY_INTERVAL_FRAMES as nat, failing: true }
    }
}

/// `n` frames in which the channel is not written.
pub open spec fn skip_frames(m: ServoRetryModel, n: nat) -> ServoRetryModel
    decreases n,
{
    if n == 0 {
        m
    } else {
        skip_frames(retry_frame(m).1, (n - 1) as nat)
    }
}

impl ServoRetry {
    /// A channel that has not failed.
    pub fn new() -> (r: Self)
        ensures
            r@ == (ServoRetryModel { countdown: 0, failing: false }),
    {
        ServoRetry { countdown: 0, failing: false }
    }

    /// Whether the last write failed.
    pub fn is_failing(&self) -> (b: bool)
        ensures
            b == self@.failing,
    {
        self.failing
    }

    /// Starts a frame: says whether the channel is written in it, and counts down the
    /// wait when it is not.
    pub fn begin_frame(&mut self) -> (write: bool)
        ensures
            (write, final(self)@) == retry_frame(old(self)@),
    {
        if self.countdown == 0 {
            true
        } else {
            self.countdown = self.countdown - 1;
            false
        }
    }

    /// Records the outcome of a write.
    pub fn record(&mut self, ok: bool)
        ensures
            final(self)@ == retry_record(ok),
    {
        if ok {
            self.countdown = 0;
            self.failing = false;
        } else {
            self.countdown = SERVO_RETRY_INTERVAL_FRAMES;
            self.failing = true;
        }
    }
}

/// After a failed write the channel sits out exactly [`SERVO_RETRY_INTERVAL_FRAMES`]
/// frames and is written again in the frame after; it stays marked failing meanwhile.
pub proof fn lemma_retry_after_interval(k: nat)
    ensures
        k < SERVO_RETRY_INTERVAL_FRAMES ==> !retry_frame(skip_frames(retry_record(false), k)).0,
        retry_frame(skip_frames(retry_record(false), SERVO_RETRY_INTERVAL_FRAMES as nat)).0,
        skip_frames(retry_record(false), k).failing,
{
    lemma_skip_frames_count(retry_record(false), k);
    lemma_skip_frames_count(retry_record(false), SERVO_RETRY_INTERVAL_FRAMES as nat);
}

proof fn lemma_skip_frames_count(m: ServoRetryModel, n: nat)
    ensures
        skip_frames(m, n).countdown == if n <= m.countdown {
            (m.countdown - n) as nat
        } else {
            0
        },
        skip_frames(m, n).failing == m.failing,
    decreases n,
{
    if n > 0 {
        lemma_skip_frames_count(retry_frame(m).1, (n - 1) as nat);
    }
}

/// A successful write clears the failure and the channel is written again next frame.
pub proof fn lemma_success_clears()
    ensures
        !retry_record(true).failing,
        retry_frame(retry_record(true)).0,
{
}

/// Whether any channel's last write failed.
pub fn any_failing(channels: &[ServoRetry]) -> (b: bool)
    ensures
        b == exists|i: int| 0 <= i < channels@.len() && (#[trigger] channels@[i])@.failing,
{
    let mut i: usize = 0;
    while i < channels.len()
        invariant
            i <= channels@.len(),
            forall|j: int| 0 <= j < i ==> !(#[trigger] channels@[j])@.failing,
        decreases channels@.len() - i,
    {
        if channels[i].is_failing() {
            return true;
        }
        i = i + 1;
    }
    false
}

// ---------------------------------------------------------------------------------
// Status shown by the LED
// ---------------------------------------------------------------------------------

/// What the LED shows in the main loop.
#[derive(Debug, Clone, Copy, PartialEq, Eq, Structural)]
pub enum Indicator {
    /// Connected, but the Bluetooth link is not ready yet (blue).
    Preparing,
    /// Every servo write succeeds (green).
    Normal,
    /// Some servo write fails (red).
    Error,
}

/// The status to show: "preparing" until the link is ready or the timeout has passed
/// since the connection, then "error" while some servo channel fails, else "ok".
pub open spec fn indicator_spec(operation_ready: bool, ms_since_connected: u64, any_failing: bool) -> Indicator {
    if !operation_ready && ms_since_connected < OPERATION_READY_TIMEOUT_MS {
        Indicator::Preparing
    } else if any_failing {
        Indicator::Error
    } else {
        Indicator::Normal
    }
}

/// Blue ("preparing") shows only while the link is not ready and the timeout has not
/// passed; otherwise the color follows the servo writes alone: red while one fails,
/// green while all succeed.
pub proof fn lemma_indicator_status(operation_ready: bool, ms_since_connected: u64, any_failing: bool)
    ensures
        (indicator_spec(operation_ready, ms_since_connected, any_failing) == Indicator::Preparing)
            <==> (!operation_ready && ms_since_connected < OPERATION_READY_TIMEOUT_MS),
        operation_ready ==> indicator_spec(operation_ready, ms_since_connected, any_failing) == (
        if any_failing {
            Indicator::Error
        } else {
            Indicator::Normal
        }),
        ms_since_connected >= OPERATION_READY_TIMEOUT_MS ==> indicator_spec(
            operation_ready,
            ms_since_connected,
            any_failing,
        ) == (if any_failing {
            Indicator::Error
        } else {
            Indicator::Normal
        }),
        indicator_spec(operation_ready, ms_since_connected, any_failing) == Indicator::Error
            ==> any_failing,
        indicator_spec(operation_ready, ms_since_connected, any_failing) == Indicator::Normal
            ==> !any_failing,
{
}

/// Chooses what the LED shows in the main loop.
pub fn indicator(operation_ready: bool, ms_since_connected: u64, any_failing: bool) -> (i: Indicator)
    ensures
        i == indicator_spec(operation_ready, ms_since_connected, any_failing),
        operation_ready ==> i == (if any_failing {
            Indicator::Error
        } else {
            Indicator::Normal
        }),
        ms_since_connected >= OPERATION_READY_TIMEOUT_MS ==> i != Indicator::Preparing,
        !operation_ready && ms_since_connected < OPERATION_READY_TIMEOUT_MS ==> i
            == Indicator::Preparing,
{
    if !operation_ready && ms_since_connected < OPERATION_READY_TIMEOUT_MS {
        Indicator::Preparing
    } else if any_failing {
        Indicator::Error
    } else {
        Indicator::Normal
    }
}

/// The color that shows a status.
pub fn indicator_color(i: Indicator) -> (c: crate::led::Rgb)
    ensures
        c == match i {
            Indicator::Preparing => crate::led::rgb(0, 0, 16),
            Indicator::Normal => crate::led::rgb(0, 16, 0),
            Indicator::Error => crate::led::rgb(16, 0, 0),
        },
{
    match i {
        Indicator::Preparing => crate::led::preparing_color(),
        Indicator::Normal => crate::led::ok_color(),
        Indicator::Error => crate::led::error_color(),
    }
}

/// What the main loop does about the status display in one frame.
#[derive(Debug, Clone, Copy, PartialEq, Eq, Structural)]
pub struct StatusAction {
    /// The LED must be redrawn: the status differs from the one last drawn.
    pub redraw: bool,
    /// Log that the Bluetooth link became ready (once).
    pub announce_ready: bool,
    /// Warn that the link did not become ready in time and the normal display took
    /// over (once).
    pub warn_timeout: bool,
}

/// Bookkeeping of the status display: what was last drawn, and which one-time log
/// lines were already written.
pub struct StatusDisplay {
    shown: Option<Indicator>,
    ready_announced: bool,
    timeout_warned: bool,
}

pub struct StatusDisplayModel {
    pub shown: Option<Indicator>,
    pub ready_announced: bool,
    pub timeout_warned: bool,
}

impl View for StatusDisplay {
    type V = StatusDisplayModel;

    closed spec fn view(&self) -> StatusDisplayModel {
        StatusDisplayModel {
            shown: self.shown,
            ready_announced: self.ready_announced,
            timeout_warned: self.timeout_warned,
        }
    }
}

/// One frame of the status display for `status`, with the link ready or not: redraw
/// when the status differs from the one drawn; announce the ready link the first time it
/// is seen; warn the first time a status other than "preparing" is shown while the link
/// is not ready (the readiness timeout has passed).
pub open spec fn status_frame(m: StatusDisplayModel, status: Indicator, operation_ready: bool) -> (
    StatusAction,
    StatusDisplayModel,
) {
    let announce = operation_ready && !m.ready_announced;
    let warn = !operation_ready && status != Indicator::Preparing && !m.timeout_warned;
    (
        StatusAction { redraw: m.shown != Some(status), announce_ready: announce, warn_timeout: warn },
        StatusDisplayModel {
            shown: m.shown,
            ready_announced: m.ready_announced || announce,
            timeout_warned: m.timeout_warned || warn,
        },
    )
}

impl StatusDisplay {
    /// Nothing drawn yet, nothing logged yet.
    pub fn new() -> (d: Self)
        ensures
            d@ == (StatusDisplayModel { shown: None, ready_announced: false, timeout_warned: false }),
    {
        StatusDisplay { shown: None, ready_announced: false, timeout_warned: false }
    }

    /// Decides what this frame does about the status display.
    pub fn frame(&mut self, status: Indicator, operation_ready: bool) -> (action: StatusAction)
        ensures
            (action, final(self)@) == status_frame(old(self)@, status, operation_ready),
    {
        let redraw = match self.shown {
            Some(s) => s != status,
            None => true,
        };
        let announce = operation_ready && !self.ready_announced;
        let warn = !operation_ready && status != Indicator::Preparing && !self.timeout_warned;
        if announce {
            self.ready_announced = true;
        }
        if warn {
            self.timeout_warned = true;
        }
        StatusAction { redraw, announce_ready: announce, warn_timeout: warn }
    }

    /// Records that `status` is now drawn on the LED.
    pub fn drawn(&mut self, status: Indicator)
        ensures
            final(self)@ == (StatusDisplayModel { shown: Some(status), ..old(self)@ }),
    {
        self.shown = Some(status);
    }
}

/// Each one-time log line is written at most once: once written, no later frame writes
/// it again.
pub proof fn lemma_status_logs_once(m: StatusDisplayModel, status: Indicator, ready: bool)
    ensures
        m.ready_announced ==> !status_frame(m, status, ready).0.announce_ready,
        m.timeout_warned ==> !status_frame(m, status, ready).0.warn_timeout,
        status_frame(m, status, ready).0.announce_ready ==> status_frame(
            m,
            status,
            ready,
        ).1.ready_announced,
        status_frame(m, status, ready).0.warn_timeout ==> status_frame(
            m,
            status,
            ready,
        ).1.timeout_warned,
{
}

/// A status that is already drawn is not drawn again.
pub proof fn lemma_no_redraw_when_unchanged(m: StatusDisplayModel, status: Indicator, ready: bool)
    ensures
        m.shown == Some(status) <==> !status_frame(m, status, ready).0.redraw,
{
}

} // verus!
