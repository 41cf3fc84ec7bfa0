use bud::led::{connecting_animation_frame, solid_frame, LedState, Rgb};

const ON: Rgb = Rgb { r: 16, g: 16, b: 16 };
const OFF: Rgb = Rgb { r: 0, g: 0, b: 0 };

#[test]
fn solid_frame_fills_every_pixel() {
    let c = Rgb { r: 1, g: 2, b: 3 };
    assert_eq!(solid_frame(c, 3), vec![c, c, c]);
    assert!(solid_frame(c, 0).is_empty());
}

#[test]
fn matrix_animation_marches_one_pixel() {
    let frame = connecting_animation_frame(25, 27);
    assert_eq!(frame.len(), 25);
    for (i, pixel) in frame.iter().enumerate() {
        assert_eq!(*pixel, if i == 2 { ON } else { OFF });
    }
    assert_eq!(connecting_animation_frame(25, 0)[0], ON);
}

#[test]
fn lite_animation_blinks() {
    assert_eq!(connecting_animation_frame(1, 0), vec![ON]);
    assert_eq!(connecting_animation_frame(1, 1), vec![OFF]);
    assert_eq!(connecting_animation_frame(1, 4_000_000_001), vec![OFF]);
    assert!(connecting_animation_frame(0, 3).is_empty());
}

#[test]
fn led_state_toggles() {
    let mut led = LedState::new(25);
    assert!(!led.is_on());
    assert_eq!(led.pixel_count(), 25);
    let on = led.toggle_target();
    assert!(on);
    assert_eq!(led.switch_frame(on), vec![ON; 25]);
    led.record(on);
    assert!(led.is_on());
    assert!(!led.toggle_target());
    assert_eq!(led.switch_frame(false), vec![OFF; 25]);
}
