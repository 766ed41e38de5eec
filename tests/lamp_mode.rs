use ambient_lamp::lamp::{enter_lamp_mode, handle_cycle, handle_set, handle_status, Color, CYCLE_DURATION};
use ambient_lamp::led::Led;

#[test]
fn set_hue_moves_smoothly_then_holds() {
    let mut led = Led::new();
    led.tick(0);
    let start = handle_status(&led).hue;
    handle_set(&mut led, Color { hue: Some(12000), sat: None, val: None }, 1000);
    led.tick(1090);
    let mid = handle_status(&led);
    assert!(mid.hue > start && mid.hue < 12000);
    assert!(!mid.cycling);
    led.tick(1200);
    assert_eq!(handle_status(&led).hue, 12000);
    led.tick(60000);
    assert_eq!(handle_status(&led).hue, 12000);
}

#[test]
fn set_with_all_fields() {
    let mut led = Led::new();
    handle_set(&mut led, Color { hue: Some(-9000), sat: Some(5000), val: Some(2500) }, 0);
    led.tick(250);
    let s = handle_status(&led);
    assert_eq!((s.hue, s.saturation, s.value), (27000, 5000, 2500));
}

#[test]
fn empty_set_changes_nothing() {
    let mut led = Led::new();
    handle_cycle(&mut led, 0);
    handle_set(&mut led, Color { hue: None, sat: None, val: None }, 10);
    assert!(handle_status(&led).cycling);
}

#[test]
fn cycle_status_rises_every_second() {
    let mut led = Led::new();
    assert_eq!(handle_cycle(&mut led, 0), 30);
    let mut last = handle_status(&led).hue;
    for s in 1..=(3 * CYCLE_DURATION) {
        led.tick(s * 1000);
        let st = handle_status(&led);
        assert!(st.cycling);
        assert_eq!(st.duration, Some(30));
        assert_eq!((st.hue + 36000 - last) % 36000, 1200);
        last = st.hue;
    }
    assert_eq!(last, 0);
}

#[test]
fn status_when_idle_has_no_period() {
    let led = Led::new();
    let s = handle_status(&led);
    assert!(!s.cycling);
    assert_eq!(s.duration, None);
    assert_eq!((s.hue, s.saturation, s.value), (0, 10000, 10000));
}

#[test]
fn lamp_mode_starts_red_and_cycling() {
    let mut led = Led::new();
    led.set_hsv(ambient_lamp::color::black());
    let c = enter_lamp_mode(&mut led, 0);
    assert_eq!(c, ambient_lamp::color::red());
    assert!(led.is_cycling());
    assert_eq!(led.tick(15000).hue, 18000);
}
