//! Decoder of the HID input report that a DualShock 4 sends over Bluetooth Classic
//! (report ID `0x01`, the 9-byte short format).
//!
//! `data` is the report without its ID, as the HID host hands it over. Layout:
//!
//! | offset | content |
//! | --- | --- |
//! | 0 | left stick X |
//! | 1 | left stick Y |
//! | 2 | right stick X |
//! | 3 | right stick Y |
//! | 4 | bits 0-3: D-pad (hat switch, 8 = center), bits 4-7: Square/Cross/Circle/Triangle |
//! | 5 | bit 0: L1, 1: R1, 2: L2, 3: R2, 4: Share, 5: Options, 6: L3, 7: R3 |
//! | 6 | bit 0: PS, bit 1: touchpad, bits 2-7: counter (not used) |
//! | 7 | L2 analog value |
//! | 8 | R2 analog value |

use vstd::prelude::*;

use super::{Buttons, Dpad, GamepadState};
use crate::arith::{clamp_int, div_toward_zero};

verus! {

/// Report ID of the short Bluetooth input report.
pub const BT_INPUT_REPORT_ID: u16 = 0x01;

/// Length of the short Bluetooth input report.
pub const MIN_LEN: usize = 9;

/// D-pad direction of a hat switch value: 0 to 7 clockwise from up, anything else
/// centered.
pub open spec fn dpad_spec(hat: u8) -> Dpad {
    if hat == 0 {
        Dpad::Up
    } else if hat == 1 {
        Dpad::UpRight
    } else if hat == 2 {
        Dpad::Right
    } else if hat == 3 {
        Dpad::DownRight
    } else if hat == 4 {
        Dpad::Down
    } else if hat == 5 {
        Dpad::DownLeft
    } else if hat == 6 {
        Dpad::Left
    } else if hat == 7 {
        Dpad::UpLeft
    } else {
        Dpad::Neutral
    }
}

/// Trigger value 0..=255 scaled to 0..=100, rounded down.
pub open spec fn trigger_spec(raw: u8) -> int {
    raw as int * 100 / 255
}

/// Stick value 0..=255 (center 128) scaled to -100..=100, rounded toward zero and
/// limited; negated when `invert` (the DS4 Y axes grow downward, while this project
/// counts up as positive).
pub open spec fn axis_spec(raw: u8, invert: bool) -> int {
    let scaled = clamp_int(div_toward_zero((raw as int - 128) * 100, 127), -100, 100);
    if invert {
        -scaled
    } else {
        scaled
    }
}

/// Buttons of the shape byte (offset 4) and the shoulder byte (offset 5).
pub open spec fn buttons_spec(shape: u8, shoulder: u8) -> Buttons {
    Buttons {
        square: shape & 0x10 != 0,
        cross: shape & 0x20 != 0,
        circle: shape & 0x40 != 0,
        triangle: shape & 0x80 != 0,
        dpad: dpad_spec(shape & 0x0F),
        l1: shoulder & 0x01 != 0,
        r1: shoulder & 0x02 != 0,
        l2: shoulder & 0x04 != 0,
        r2: shoulder & 0x08 != 0,
        share: shoulder & 0x10 != 0,
        options: shoulder & 0x20 != 0,
        l3: shoulder & 0x40 != 0,
        r3: shoulder & 0x80 != 0,
    }
}

/// The state that a short report of at least 9 bytes describes.
pub open spec fn report_state(data: Seq<u8>) -> GamepadState
    recommends
        data.len() >= 9,
{
    GamepadState {
        left_stick_x: axis_spec(data[0], false) as i8,
        left_stick_y: axis_spec(data[1], true) as i8,
        right_stick_x: axis_spec(data[2], false) as i8,
        right_stick_y: axis_spec(data[3], true) as i8,
        l2_analog: trigger_spec(data[7]) as u8,
        r2_analog: trigger_spec(data[8]) as u8,
        buttons: buttons_spec(data[4], data[5]),
    }
}

/// What `parse` gives: a state for a short Bluetooth input report, nothing for another
/// report ID or a report shorter than 9 bytes.
pub open spec fn parse_spec(report_id: u16, data: Seq<u8>) -> Option<GamepadState> {
    if report_id == BT_INPUT_REPORT_ID && data.len() >= MIN_LEN {
        Some(report_state(data))
    } else {
        None
    }
}

/// Converts a DS4 Bluetooth input report (report ID `0x01`, 9 bytes) into a
/// [`GamepadState`]. Returns `None` for another report ID or a shorter report.
pub fn parse(report_id: u16, data: &[u8]) -> (res: Option<GamepadState>)
    ensures
        res == parse_spec(report_id, data@),
        res is Some <==> (report_id == 0x01 && data@.len() >= 9),
        res matches Some(s) ==> {
            &&& s.buttons.square == (data@[4] & 0x10 != 0)
            &&& s.buttons.cross == (data@[4] & 0x20 != 0)
            &&& s.buttons.circle == (data@[4] & 0x40 != 0)
            &&& s.buttons.triangle == (data@[4] & 0x80 != 0)
            &&& s.buttons.l1 == (data@[5] & 0x01 != 0)
            &&& s.buttons.r1 == (data@[5] & 0x02 != 0)
            &&& s.buttons.l2 == (data@[5] & 0x04 != 0)
            &&& s.buttons.r2 == (data@[5] & 0x08 != 0)
            &&& s.buttons.share == (data@[5] & 0x10 != 0)
            &&& s.buttons.options == (data@[5] & 0x20 != 0)
            &&& s.buttons.l3 == (data@[5] & 0x40 != 0)
            &&& s.buttons.r3 == (data@[5] & 0x80 != 0)
        },
{
    if report_id != BT_INPUT_REPORT_ID || data.len() < MIN_LEN {
        return None;
    }
    let shape_byte = data[4];
    let shoulder_byte = data[5];
    Some(
        GamepadState {
            left_stick_x: axis_from_raw(data[0], false),
            left_stick_y: axis_from_raw(data[1], true),
            right_stick_x: axis_from_raw(data[2], false),
            right_stick_y: axis_from_raw(data[3], true),
            l2_analog: trigger_from_raw(data[7]),
            r2_analog: trigger_from_raw(data[8]),
            buttons: Buttons {
                square: shape_byte & 0x10 != 0,
                cross: shape_byte & 0x20 != 0,
                circle: shape_byte & 0x40 != 0,
                triangle: shape_byte & 0x80 != 0,
                dpad: dpad_from_raw(shape_byte & 0x0F),
                l1: shoulder_byte & 0x01 != 0,
                r1: shoulder_byte & 0x02 != 0,
                l2: shoulder_byte & 0x04 != 0,
                r2: shoulder_byte & 0x08 != 0,
                share: shoulder_byte & 0x10 != 0,
                options: shoulder_byte & 0x20 != 0,
                l3: shoulder_byte & 0x40 != 0,
                r3: shoulder_byte & 0x80 != 0,
            },
        },
    )
}

/// Converts a hat switch value (0 to 7 clockwise from up, 8 = center) to a [`Dpad`].
fn dpad_from_raw(hat: u8) -> (d: Dpad)
    ensures
        d == dpad_spec(hat),
{
    match hat {
        0 => Dpad::Up,
        1 => Dpad::UpRight,
        2 => Dpad::Right,
        3 => Dpad::DownRight,
        4 => Dpad::Down,
        5 => Dpad::DownLeft,
        6 => Dpad::Left,
        7 => Dpad::UpLeft,
        _ => Dpad::Neutral,
    }
}

/// Converts a raw trigger value (0..=255) to 0..=100.
fn trigger_from_raw(raw: u8) -> (v: u8)
    ensures
        v == trigger_spec(raw),
        v <= 100,
{
    (raw as u16 * 100 / 255) as u8
}

/// Converts a raw stick value (0..=255, center 128) to -100..=100.
fn axis_from_raw(raw: u8, invert: bool) -> (v: i8)
    ensures
        v == axis_spec(raw, invert),
        -100 <= v <= 100,
{
    let centered: i16 = raw as i16 - 128;
    let scaled: i16 = if centered >= 0 {
        centered * 100 / 127
    } else {
        -((-centered) * 100 / 127)
    };
    let scaled: i16 = if scaled < -100 {
        -100
    } else if scaled > 100 {
        100
    } else {
        scaled
    };
    let scaled: i16 = if invert {
        -scaled
    } else {
        scaled
    };
    scaled as i8
}

/// A centered stick reads 0, a stick pushed to either end reads ±100, and the reading
/// never decreases as the raw value grows (before inversion).
pub proof fn lemma_axis_shape(r1: u8, r2: u8)
    ensures
        axis_spec(128, false) == 0,
        axis_spec(255, false) == 100,
        axis_spec(0, false) == -100,
        r1 <= r2 ==> axis_spec(r1, false) <= axis_spec(r2, false),
        axis_spec(r1, true) == -axis_spec(r1, false),
{
    assert(12700int / 127 == 100);
    assert(12800int / 127 == 100);
    assert(0int / 127 == 0);
    if r1 <= r2 {
        crate::arith::lemma_div_toward_zero_monotone(
            (r1 as int - 128) * 100,
            (r2 as int - 128) * 100,
            127,
        );
    }
}

/// A released trigger reads 0, a fully pressed one 100.
pub proof fn lemma_trigger_ends()
    ensures
        trigger_spec(0) == 0,
        trigger_spec(255) == 100,
{
    assert(25500int / 255 == 100);
    assert(0int / 255 == 0);
}

/// Only the first nine bytes of a report matter.
pub proof fn lemma_parse_ignores_trailing_bytes(report_id: u16, data: Seq<u8>, extra: Seq<u8>)
    requires
        data.len() >= MIN_LEN,
    ensures
        parse_spec(report_id, data + extra) == parse_spec(report_id, data),
{
    let joined = data + extra;
    assert(joined[0] == data[0] && joined[1] == data[1] && joined[2] == data[2] && joined[3]
        == data[3] && joined[4] == data[4] && joined[5] == data[5] && joined[7] == data[7]
        && joined[8] == data[8]);
}

/// Each button of a report is read from its own bit: the face buttons from bits 4 to 7
/// of byte 4 (Square, Cross, Circle, Triangle), the shoulder and stick buttons from bits
/// 0 to 7 of byte 5 (L1, R1, L2, R2, Share, Options, L3, R3).
pub proof fn lemma_parse_button_bits(data: Seq<u8>)
    requires
        data.len() >= 9,
    ensures
        parse_spec(0x01, data) is Some,
        ({
            let b = parse_spec(0x01, data)->Some_0.buttons;
            &&& b.square == (data[4] & 0x10 != 0)
            &&& b.cross == (data[4] & 0x20 != 0)
            &&& b.circle == (data[4] & 0x40 != 0)
            &&& b.triangle == (data[4] & 0x80 != 0)
            &&& b.l1 == (data[5] & 0x01 != 0)
            &&& b.r1 == (data[5] & 0x02 != 0)
            &&& b.l2 == (data[5] & 0x04 != 0)
            &&& b.r2 == (data[5] & 0x08 != 0)
            &&& b.share == (data[5] & 0x10 != 0)
            &&& b.options == (data[5] & 0x20 != 0)
            &&& b.l3 == (data[5] & 0x40 != 0)
            &&& b.r3 == (data[5] & 0x80 != 0)
        }),
{
}

/// The D-pad is read from the low nibble of byte 4: 0 to 7 clockwise from up, anything
/// else centered.
pub proof fn lemma_parse_dpad(data: Seq<u8>)
    requires
        data.len() >= 9,
    ensures
        ({
            let d = parse_spec(0x01, data)->Some_0.buttons.dpad;
            let hat = data[4] & 0x0F;
            &&& hat == 0 ==> d == Dpad::Up
            &&& hat == 1 ==> d == Dpad::UpRight
            &&& hat == 2 ==> d == Dpad::Right
            &&& hat == 3 ==> d == Dpad::DownRight
            &&& hat == 4 ==> d == Dpad::Down
            &&& hat == 5 ==> d == Dpad::DownLeft
            &&& hat == 6 ==> d == Dpad::Left
            &&& hat == 7 ==> d == Dpad::UpLeft
            &&& hat > 7 ==> d == Dpad::Neutral
        }),
{
}

/// Where each analog value comes from and which way it goes: bytes 0 and 2 are the X
/// axes (right is positive), bytes 1 and 3 the Y axes (the raw value grows downward,
/// up is positive), bytes 7 and 8 the L2 and R2 triggers. A centered stick reads 0, the
/// ends read ±100, a released trigger 0 and a full one 100, and every value moves with
/// its own byte alone.
pub proof fn lemma_parse_analog_layout(d1: Seq<u8>, d2: Seq<u8>)
    requires
        d1.len() >= 9,
        d2.len() >= 9,
    ensures
        ({
            let s1 = parse_spec(0x01, d1)->Some_0;
            let s2 = parse_spec(0x01, d2)->Some_0;
            &&& d1[0] <= d2[0] ==> s1.left_stick_x <= s2.left_stick_x
            &&& d1[1] <= d2[1] ==> s1.left_stick_y >= s2.left_stick_y
            &&& d1[2] <= d2[2] ==> s1.right_stick_x <= s2.right_stick_x
            &&& d1[3] <= d2[3] ==> s1.right_stick_y >= s2.right_stick_y
            &&& d1[7] <= d2[7] ==> s1.l2_analog <= s2.l2_analog
            &&& d1[8] <= d2[8] ==> s1.r2_analog <= s2.r2_analog
            &&& d1[0] == 128 ==> s1.left_stick_x == 0
            &&& d1[0] == 255 ==> s1.left_stick_x == 100
            &&& d1[0] == 0 ==> s1.left_stick_x == -100
            &&& d1[1] == 128 ==> s1.left_stick_y == 0
            &&& d1[1] == 0 ==> s1.left_stick_y == 100
            &&& d1[1] == 255 ==> s1.left_stick_y == -100
            &&& d1[2] == 128 ==> s1.right_stick_x == 0
            &&& d1[2] == 255 ==> s1.right_stick_x == 100
            &&& d1[2] == 0 ==> s1.right_stick_x == -100
            &&& d1[3] == 128 ==> s1.right_stick_y == 0
            &&& d1[3] == 0 ==> s1.right_stick_y == 100
            &&& d1[3] == 255 ==> s1.right_stick_y == -100
            &&& d1[7] == 0 ==> s1.l2_analog == 0
            &&& d1[7] == 255 ==> s1.l2_analog == 100
            &&& d1[8] == 0 ==> s1.r2_analog == 0
            &&& d1[8] == 255 ==> s1.r2_analog == 100
        }),
{
    lemma_axis_shape(d1[0], d2[0]);
    lemma_axis_shape(d1[1], d2[1]);
    lemma_axis_shape(d1[2], d2[2]);
    lemma_axis_shape(d1[3], d2[3]);
    lemma_axis_shape(d2[1], d1[1]);
    lemma_axis_shape(d2[3], d1[3]);
    lemma_axis_range(d1[0]);
    lemma_axis_range(d2[0]);
    lemma_axis_range(d1[1]);
    lemma_axis_range(d2[1]);
    lemma_axis_range(d1[2]);
    lemma_axis_range(d2[2]);
    lemma_axis_range(d1[3]);
    lemma_axis_range(d2[3]);
    lemma_trigger_ends();
    lemma_trigger_shape(d1[7], d2[7]);
    lemma_trigger_shape(d1[8], d2[8]);
}

proof fn lemma_axis_range(raw: u8)
    ensures
        -100 <= axis_spec(raw, false) <= 100,
        -100 <= axis_spec(raw, true) <= 100,
{
}

proof fn lemma_trigger_shape(r1: u8, r2: u8)
    ensures
        0 <= trigger_spec(r1) <= 100,
        0 <= trigger_spec(r2) <= 100,
        r1 <= r2 ==> trigger_spec(r1) <= trigger_spec(r2),
{
    vstd::arithmetic::div_mod::lemma_div_is_ordered(r1 as int * 100, 25500int, 255);
    vstd::arithmetic::div_mod::lemma_div_is_ordered(r2 as int * 100, 25500int, 255);
    vstd::arithmetic::div_mod::lemma_div_pos_is_pos(r1 as int * 100, 255);
    vstd::arithmetic::div_mod::lemma_div_pos_is_pos(r2 as int * 100, 255);
    if r1 <= r2 {
        vstd::arithmetic::div_mod::lemma_div_is_ordered(r1 as int * 100, r2 as int * 100, 255);
    }
}

} // verus!
