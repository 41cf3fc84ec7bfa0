use bud::control::{
    any_failing, control_step, indicator, indicator_color, initial_center, Indicator,
    ServoRetry, StatusAction, StatusDisplay, SERVO_RETRY_INTERVAL_FRAMES,
};
use bud::gamepad::{Buttons, Dpad, GamepadState};
use bud::led::Rgb;

fn state_with(left_x: i8, left_y: i8, right_x: i8, right_y: i8, dpad: Dpad) -> GamepadState {
    GamepadState {
        left_stick_x: left_x,
        left_stick_y: left_y,
        right_stick_x: right_x,
        right_stick_y: right_y,
        l2_analog: 0,
        r2_analog: 0,
        buttons: Buttons { dpad, ..Buttons::default() },
    }
}

#[test]
fn sticks_drive_their_servo_channels() {
    let state = state_with(100, -100, 5, 55, Dpad::Neutral);
    let out = control_step(&state, Dpad::Neutral, 1_500);
    // S1: left stick up/down, S2: left stick left/right,
    // S3: right stick up/down, S4: right stick left/right
    assert_eq!(out.servo_pulses, [500, 2_500, 2_000, 1_500]);
    assert_eq!(out.center_us, 1_500);
    assert!(!out.save_center);
}

#[test]
fn dpad_press_moves_center_and_asks_to_save() {
    let out = control_step(&state_with(0, 0, 0, 0, Dpad::Left), Dpad::Neutral, 1_500);
    assert_eq!(out.center_us, 1_510);
    assert!(out.save_center);
    assert_eq!(out.servo_pulses, [1_500; 4]);
    let out = control_step(&state_with(0, 0, 0, 0, Dpad::Right), Dpad::Neutral, 1_500);
    assert_eq!(out.center_us, 1_490);
    assert!(out.save_center);
    let out = control_step(&state_with(0, 0, 0, 0, Dpad::Right), Dpad::Left, 5);
    assert_eq!(out.center_us, 0);
    let out = control_step(&state_with(0, 0, 0, 0, Dpad::Left), Dpad::UpLeft, u16::MAX - 3);
    assert_eq!(out.center_us, u16::MAX);
    let out = control_step(&state_with(0, 0, 0, 0, Dpad::Up), Dpad::Neutral, 1_700);
    assert_eq!(out.center_us, 1_700);
    assert!(!out.save_center);
    assert_eq!(out.servo_pulses, [1_700; 4]);
}

#[test]
fn held_dpad_moves_center_once_per_press() {
    let mut center: u16 = 1_500;
    let mut previous = Dpad::Neutral;
    let mut saves: u32 = 0;
    for dpad in [Dpad::Left, Dpad::Left, Dpad::Left, Dpad::Neutral, Dpad::Left, Dpad::Right, Dpad::Right] {
        let out = control_step(&state_with(0, 0, 0, 0, dpad), previous, center);
        if out.save_center {
            saves += 1;
        }
        center = out.center_us;
        previous = dpad;
    }
    // two presses left, one press right
    assert_eq!(center, 1_510);
    assert_eq!(saves, 3);
}

#[test]
fn initial_center_defaults_and_truncates() {
    assert_eq!(initial_center(None), 1_500);
    assert_eq!(initial_center(Some(1_620)), 1_620);
    assert_eq!(initial_center(Some(0x1_0005)), 5);
}

#[test]
fn failed_servo_is_retried_after_interval() {
    let mut r = ServoRetry::new();
    assert!(r.begin_frame());
    r.record(false);
    assert!(r.is_failing());
    for _ in 0..SERVO_RETRY_INTERVAL_FRAMES {
        assert!(!r.begin_frame());
        assert!(r.is_failing());
    }
    assert!(r.begin_frame());
    r.record(true);
    assert!(!r.is_failing());
    assert!(r.begin_frame());
}

#[test]
fn any_failing_checks_every_channel() {
    let mut channels = [ServoRetry::new(), ServoRetry::new(), ServoRetry::new(), ServoRetry::new()];
    assert!(!any_failing(&channels));
    channels[3].record(false);
    assert!(any_failing(&channels));
    channels[3].record(true);
    assert!(!any_failing(&channels));
}

#[test]
fn indicator_prefers_preparing_until_ready_or_timeout() {
    assert_eq!(indicator(false, 0, true), Indicator::Preparing);
    assert_eq!(indicator(false, 44_999, false), Indicator::Preparing);
    assert_eq!(indicator(false, 45_000, false), Indicator::Normal);
    assert_eq!(indicator(false, 45_000, true), Indicator::Error);
    assert_eq!(indicator(true, 0, true), Indicator::Error);
    assert_eq!(indicator(true, 0, false), Indicator::Normal);
}

#[test]
fn indicator_colors() {
    assert_eq!(indicator_color(Indicator::Preparing), Rgb { r: 0, g: 0, b: 16 });
    assert_eq!(indicator_color(Indicator::Normal), Rgb { r: 0, g: 16, b: 0 });
    assert_eq!(indicator_color(Indicator::Error), Rgb { r: 16, g: 0, b: 0 });
}

#[test]
fn status_display_redraws_on_change_and_logs_once() {
    let mut d = StatusDisplay::new();
    let a = d.frame(Indicator::Preparing, false);
    assert_eq!(a, StatusAction { redraw: true, announce_ready: false, warn_timeout: false });
    d.drawn(Indicator::Preparing);
    let a = d.frame(Indicator::Preparing, false);
    assert_eq!(a, StatusAction { redraw: false, announce_ready: false, warn_timeout: false });
    // timeout passed without the link becoming ready
    let a = d.frame(Indicator::Normal, false);
    assert_eq!(a, StatusAction { redraw: true, announce_ready: false, warn_timeout: true });
    d.drawn(Indicator::Normal);
    let a = d.frame(Indicator::Error, false);
    assert_eq!(a, StatusAction { redraw: true, announce_ready: false, warn_timeout: false });
    // drawing failed: still redrawn next frame
    let a = d.frame(Indicator::Error, true);
    assert_eq!(a, StatusAction { redraw: true, announce_ready: true, warn_timeout: false });
    d.drawn(Indicator::Error);
    let a = d.frame(Indicator::Error, true);
    assert_eq!(a, StatusAction { redraw: false, announce_ready: false, warn_timeout: false });
}
