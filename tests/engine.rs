use ambient_lamp::color::{Hsv, CHANNEL_ONE};
use ambient_lamp::led::{Led, SHIFT_DURATION_MS};
use ambient_lamp::transition::{BackupValues, Transition, TransitionMode};

fn shift(mode: TransitionMode) -> Transition {
    Transition { mode, start_at: 1000, duration: 200, backup: None }
}

#[test]
fn shift_hue_lands_on_target_and_finishes() {
    let t = shift(TransitionMode::ShiftHue { start: 1000, change: 11000 });
    let mut c = Hsv { hue: 1000, saturation: 5000, value: 5000 };
    assert!(!t.tick(&mut c, 1000));
    assert_eq!(c.hue, 1000);
    assert!(!t.tick(&mut c, 1100));
    assert_eq!(c.hue, 6500);
    assert!(t.tick(&mut c, 1200));
    assert_eq!(c.hue, 12000);
    assert!(t.tick(&mut c, 9000));
    assert_eq!(c.hue, 12000);
    assert_eq!(c.saturation, 5000);
}

#[test]
fn shift_saturation_and_value_endpoints() {
    let s = shift(TransitionMode::ShiftSaturation { start: 8000, change: -6000 });
    let v = shift(TransitionMode::ShiftValue { start: 0, change: 10000 });
    let mut c = Hsv { hue: 0, saturation: 8000, value: 0 };
    assert!(!s.tick(&mut c, 1000));
    assert!(!v.tick(&mut c, 1000));
    assert_eq!((c.saturation, c.value), (8000, 0));
    assert!(!s.tick(&mut c, 1050));
    assert!(!v.tick(&mut c, 1050));
    assert_eq!((c.saturation, c.value), (6500, 2500));
    assert!(s.tick(&mut c, 1300));
    assert!(v.tick(&mut c, 1300));
    assert_eq!((c.saturation, c.value), (2000, 10000));
}

#[test]
fn shift_before_its_start_stays_at_start() {
    let t = shift(TransitionMode::ShiftValue { start: 3000, change: 4000 });
    let mut c = Hsv { hue: 0, saturation: 0, value: 0 };
    assert!(!t.tick(&mut c, 10));
    assert_eq!(c.value, 3000);
}

#[test]
fn hue_shift_wraps_onto_the_circle() {
    let t = shift(TransitionMode::ShiftHue { start: 1000, change: -3000 });
    let mut c = Hsv { hue: 1000, saturation: 0, value: 0 };
    assert!(t.tick(&mut c, 1200));
    assert_eq!(c.hue, 34000);
}

#[test]
fn cycle_is_periodic() {
    let t = Transition {
        mode: TransitionMode::Cycle { start_hue: 6000 },
        start_at: 0,
        duration: 30000,
        backup: None,
    };
    let mut a = Hsv { hue: 0, saturation: 1, value: 2 };
    let mut b = a;
    assert!(!t.tick(&mut a, 7500));
    assert!(!t.tick(&mut b, 37500));
    assert_eq!(a.hue, 15000);
    assert_eq!(a, b);
    let mut c = a;
    t.tick(&mut c, 30000 * 5 + 25000);
    assert_eq!(c.hue, 0);
}

#[test]
fn pulse_follows_a_sine_wave() {
    let t = Transition { mode: TransitionMode::Pulse, start_at: 0, duration: 2000, backup: None };
    let mut c = Hsv { hue: 0, saturation: 10000, value: 10000 };
    let mut at = |ms: u64| {
        t.tick(&mut c, ms);
        c.value
    };
    assert_eq!(at(0), 5000);
    assert_eq!(at(500), 10000);
    assert_eq!(at(1000), 5000);
    assert_eq!(at(1500), 0);
    assert_eq!(at(2500), 10000);
    let v = at(250);
    assert!(v > 8500 && v < 8600, "sin(45deg)/2 + 0.5 is about 0.854, got {v}");
}

#[test]
fn pulse_stop_restores_snapshot() {
    let mut led = Led::new();
    led.set_hsv(Hsv { hue: 24000, saturation: 7000, value: 9000 });
    led.pulse(2000, 0);
    for ms in [20u64, 333, 1250, 4999, 123456] {
        led.tick(ms);
    }
    assert_ne!(led.color().value, 9000);
    led.stop_transition();
    let c = led.color();
    assert_eq!((c.saturation, c.value), (7000, 9000));
    assert_eq!(c.hue, 24000);
}

#[test]
fn clearing_without_snapshot_keeps_colour() {
    let mut led = Led::new();
    led.set_value(2000, 0);
    let mid = led.tick(100);
    led.stop_transition();
    assert_eq!(led.color(), mid);
    assert_eq!(led.tick(5000), mid);
}

#[test]
fn saturation_settles_beside_cycle() {
    let mut led = Led::new();
    led.set_hsv(Hsv { hue: 0, saturation: 10000, value: 10000 });
    led.cycle_colors(30000, 0);
    let mut alone = Led::new();
    alone.set_hsv(Hsv { hue: 0, saturation: 10000, value: 10000 });
    alone.cycle_colors(30000, 0);

    led.set_saturation(2000, 1000);
    let c = led.tick(1100);
    assert_eq!(c.hue, alone.tick(1100).hue);
    assert_eq!(c.saturation, 6000);
    let c = led.tick(1200);
    assert_eq!(c.hue, alone.tick(1200).hue);
    assert_eq!(c.saturation, 2000);
    let c = led.tick(16000);
    assert_eq!(c.hue, 19200);
    assert_eq!(c.saturation, 2000);
    assert!(led.is_cycling());
}

#[test]
fn hue_change_stops_cycle() {
    let mut led = Led::new();
    led.cycle_colors(30000, 0);
    assert!(led.is_cycling());
    led.set_hue(9000, 100);
    assert!(!led.is_cycling());
}

#[test]
fn saturation_target_is_capped() {
    let mut led = Led::new();
    led.set_hsv(Hsv { hue: 0, saturation: 0, value: 0 });
    led.set_saturation(25000, 0);
    led.set_value(CHANNEL_ONE + 1, 0);
    let c = led.tick(SHIFT_DURATION_MS);
    assert_eq!((c.saturation, c.value), (CHANNEL_ONE, CHANNEL_ONE));
}

#[test]
fn later_shift_on_same_channel_wins() {
    let mut led = Led::new();
    led.set_value(0, 0);
    led.set_value(4000, 0);
    let c = led.tick(500);
    assert_eq!(c.value, 4000);
}

#[test]
fn new_led_is_full_red() {
    let led = Led::new();
    assert_eq!(led.color(), Hsv { hue: 0, saturation: 10000, value: 10000 });
    assert!(!led.is_cycling());
    let b = BackupValues { saturation: 1, value: 2 };
    assert_eq!(b.saturation + b.value, 3);
}

#[test]
fn finished_shifts_leave_the_set() {
    let mut led = Led::new();
    led.set_hsv(Hsv { hue: 0, saturation: 0, value: 0 });
    led.set_saturation(3000, 0);
    led.set_value(7000, 100);
    let c = led.tick(250);
    assert_eq!(c.saturation, 3000);
    assert_eq!(c.value, 5250);
    let c = led.tick(300);
    assert_eq!((c.saturation, c.value), (3000, 7000));
    led.set_hsv(Hsv { hue: 100, saturation: 1, value: 2 });
    assert_eq!(led.tick(400), Hsv { hue: 100, saturation: 1, value: 2 });
}
