use vstd::prelude::*;

use crate::color::{red, red_spec, Hsv};
use crate::led::{Led, LedView};

verus! {

/// Period of the hue rotation in lamp mode, in seconds.
pub const CYCLE_DURATION: u64 = 30;

/// Pause between two ticks of the colour engine in lamp mode, in milliseconds.
pub const TICK_INTERVAL_MS: u64 = 20;

/// A colour change asked for by a client. Each part that is present is applied:
/// `hue` in hundredths of a degree (any angle), `sat` and `val` in ten-thousandths.
#[derive(Clone, Copy, Debug, PartialEq, Eq, Structural)]
pub struct Color {
    pub hue: Option<i32>,
    pub sat: Option<u32>,
    pub val: Option<u32>,
}

/// What a client is told of the fixture: the colour in fixed point, whether the hue
/// rotates, and if so its period in seconds.
#[derive(Clone, Copy, Debug, PartialEq, Eq, Structural)]
pub struct Status {
    pub cycling: bool,
    pub hue: u32,
    pub saturation: u32,
    pub value: u32,
    pub duration: Option<u64>,
}

/// The engine state after a colour change: a hue stops the animations first,
/// then hue, saturation and value each settle towards their target.
pub open spec fn set_applied(v: LedView, color: Color, now: u64) -> LedView {
    let a = match color.hue {
        Some(h) => v.hue_set(h, now),
        None => v,
    };
    let b = match color.sat {
        Some(s) => a.saturation_set(s, now),
        None => a,
    };
    match color.val {
        Some(x) => b.value_set(x, now),
        None => b,
    }
}

/// Enters lamp mode: full red, then a hue rotation of `CYCLE_DURATION` seconds.
/// Returns the colour to show.
pub fn enter_lamp_mode(led: &mut Led, now: u64) -> (r: Hsv)
    requires
        old(led)@.wf(),
    ensures
        final(led)@ == (LedView { color: red_spec(), ..old(led)@ }).cycled(
            (CYCLE_DURATION * 1000) as u64,
            now,
        ),
        final(led)@.wf(),
        r == final(led)@.color,
{
    led.set_hsv(red());
    led.cycle_colors(CYCLE_DURATION * 1000, now);
    led.color()
}

/// Applies a colour change asked for by a client.
pub fn handle_set(led: &mut Led, color: Color, now: u64)
    requires
        old(led)@.wf(),
    ensures
        final(led)@ == set_applied(old(led)@, color, now),
        final(led)@.wf(),
{
    if let Some(hue) = color.hue {
        led.set_hue(hue, now);
    }
    if let Some(sat) = color.sat {
        led.set_saturation(sat, now);
    }
    if let Some(val) = color.val {
        led.set_value(val, now);
    }
}

/// Starts the hue rotation of lamp mode; returns its period in seconds.
pub fn handle_cycle(led: &mut Led, now: u64) -> (r: u64)
    requires
        old(led)@.wf(),
    ensures
        final(led)@ == old(led)@.cycled((CYCLE_DURATION * 1000) as u64, now),
        final(led)@.wf(),
        r == CYCLE_DURATION,
{
    led.cycle_colors(CYCLE_DURATION * 1000, now);
    CYCLE_DURATION
}

/// Reports the colour and whether the hue rotates.
pub fn handle_status(led: &Led) -> (r: Status)
    ensures
        r.cycling == led@.cycling(),
        r.hue == led@.color.hue,
        r.saturation == led@.color.saturation,
        r.value == led@.color.value,
        r.duration == (if r.cycling {
            Some(CYCLE_DURATION)
        } else {
            None
        }),
{
    let c = led.color();
    let cycling = led.is_cycling();
    Status {
        cycling,
        hue: c.hue,
        saturation: c.saturation,
        value: c.value,
        duration: if cycling {
            Some(CYCLE_DURATION)
        } else {
            None
        },
    }
}

} // verus!
