use bud::gamepad::ds4_report::parse;
use bud::gamepad::{Buttons, Dpad, GamepadState};

fn neutral_report() -> Vec<u8> {
    vec![128, 128, 128, 128, 0x08, 0, 0, 0, 0]
}

#[test]
fn wrong_report_id_returns_none() {
    assert_eq!(parse(0x11, &neutral_report()), None);
}

#[test]
fn too_short_returns_none() {
    let short = vec![128, 128, 128, 128];
    assert_eq!(parse(0x01, &short), None);
}

#[test]
fn centered_sticks_are_neutral() {
    let state = parse(0x01, &neutral_report()).unwrap();
    assert_eq!(state.left_stick_x, 0);
    assert_eq!(state.left_stick_y, 0);
    assert_eq!(state.right_stick_x, 0);
    assert_eq!(state.right_stick_y, 0);
    assert_eq!(state.buttons, Buttons::default());
}

#[test]
fn circle_bit_sets_circle_button_only() {
    let mut data = neutral_report();
    data[4] = 0x08 | 0x40;
    let state = parse(0x01, &data).unwrap();
    assert_eq!(
        state.buttons,
        Buttons {
            circle: true,
            ..Buttons::default()
        }
    );
}

#[test]
fn all_shape_buttons_combination() {
    let mut data = neutral_report();
    data[4] = 0x08 | 0xF0;
    let state = parse(0x01, &data).unwrap();
    assert_eq!(
        state.buttons,
        Buttons {
            square: true,
            cross: true,
            circle: true,
            triangle: true,
            ..Buttons::default()
        }
    );
}

#[test]
fn dpad_directions() {
    for (hat, expected) in [
        (0, Dpad::Up),
        (1, Dpad::UpRight),
        (2, Dpad::Right),
        (3, Dpad::DownRight),
        (4, Dpad::Down),
        (5, Dpad::DownLeft),
        (6, Dpad::Left),
        (7, Dpad::UpLeft),
        (8, Dpad::Neutral),
    ] {
        let mut data = neutral_report();
        data[4] = hat;
        let state = parse(0x01, &data).unwrap();
        assert_eq!(state.buttons.dpad, expected, "hat={hat}");
    }
}

#[test]
fn shoulder_and_stick_click_buttons() {
    let mut data = neutral_report();
    data[5] = 0x01 | 0x02 | 0x04 | 0x08 | 0x10 | 0x20 | 0x40 | 0x80;
    let state = parse(0x01, &data).unwrap();
    assert_eq!(
        state.buttons,
        Buttons {
            dpad: Dpad::Neutral,
            l1: true,
            r1: true,
            l2: true,
            r2: true,
            share: true,
            options: true,
            l3: true,
            r3: true,
            ..Buttons::default()
        }
    );
}

#[test]
fn trigger_analog_values() {
    let mut data = neutral_report();
    data[7] = 255;
    data[8] = 0;
    let state = parse(0x01, &data).unwrap();
    assert_eq!(state.l2_analog, 100);
    assert_eq!(state.r2_analog, 0);
}

#[test]
fn stick_extremes_clamp_to_100() {
    let mut data = neutral_report();
    data[0] = 255; // left stick X, right end -> +100
    data[1] = 0; // left stick Y raw minimum (full up) -> inverted to +100
    data[2] = 0; // right stick X raw minimum (full left) -> -100
    data[3] = 255; // right stick Y raw maximum (full down) -> inverted to -100
    let state = parse(0x01, &data).unwrap();
    assert_eq!(state.left_stick_x, 100);
    assert_eq!(state.left_stick_y, 100);
    assert_eq!(state.right_stick_x, -100);
    assert_eq!(state.right_stick_y, -100);
}

#[test]
fn intermediate_values_round_toward_zero() {
    let data = vec![192, 64, 100, 200, 0x0F, 0x00, 0xFF, 128, 1];
    let state = parse(0x01, &data).unwrap();
    // (192 - 128) * 100 / 127 = 50.39 -> 50
    assert_eq!(state.left_stick_x, 50);
    // (64 - 128) * 100 / 127 = -50.39 -> -50, inverted -> 50
    assert_eq!(state.left_stick_y, 50);
    // (100 - 128) * 100 / 127 = -22.04 -> -22
    assert_eq!(state.right_stick_x, -22);
    // (200 - 128) * 100 / 127 = 56.69 -> 56, inverted -> -56
    assert_eq!(state.right_stick_y, -56);
    // 128 * 100 / 255 = 50.19 -> 50
    assert_eq!(state.l2_analog, 50);
    assert_eq!(state.r2_analog, 0);
    // hat 0x0F is not a direction
    assert_eq!(state.buttons, Buttons::default());
}

#[test]
fn trailing_bytes_are_ignored() {
    let mut long = neutral_report();
    long.extend_from_slice(&[1, 2, 3, 4, 5]);
    assert_eq!(parse(0x01, &long), parse(0x01, &neutral_report()));
}

#[test]
fn default_state_is_neutral() {
    let state = GamepadState::default();
    assert_eq!(state, parse(0x01, &neutral_report()).unwrap());
    assert_eq!(Dpad::default(), Dpad::Neutral);
}
