use vstd::prelude::*;

use crate::color::{normalize_hue, wrap_hue, Hsv, CHANNEL_ONE, HUE_TURN};

verus! {

/// What an animation does to the colour.
#[derive(Clone, Copy, Debug, PartialEq, Eq, Structural)]
pub enum TransitionMode {
    /// Rotates the hue one full turn per duration, starting from `start_hue`; never ends.
    Cycle { start_hue: u32 },
    /// Swings the value along a sine wave once per duration; never ends.
    Pulse,
    /// Moves the hue from `start` by `change` over the duration, then ends.
    ShiftHue { start: u32, change: i64 },
    /// Moves the saturation from `start` by `change` over the duration, then ends.
    ShiftSaturation { start: u32, change: i64 },
    /// Moves the value from `start` by `change` over the duration, then ends.
    ShiftValue { start: u32, change: i64 },
}

/// Saturation and value as they were when an animation began.
#[derive(Clone, Copy, Debug, PartialEq, Eq, Structural)]
pub struct BackupValues {
    pub saturation: u32,
    pub value: u32,
}

/// One animation: its effect, when it started and how long one run of it lasts
/// (both in milliseconds), and what to restore when it is cancelled.
#[derive(Clone, Copy, Debug, PartialEq, Eq, Structural)]
pub struct Transition {
    pub mode: TransitionMode,
    pub start_at: u64,
    pub duration: u64,
    pub backup: Option<BackupValues>,
}

/// Milliseconds from `start` to `now`; zero when `now` lies before `start`.
pub open spec fn elapsed_since(start: u64, now: u64) -> int {
    if now >= start {
        (now - start) as int
    } else {
        0
    }
}

/// Hue of a cycle that began at `start_hue`, `elapsed` ms into a rotation of `duration` ms.
pub open spec fn cycle_hue(start_hue: int, elapsed: int, duration: int) -> int {
    normalize_hue(start_hue + (elapsed * HUE_TURN) / duration)
}

/// Position in the current period as an angle in hundredths of a degree, in `[0, HUE_TURN)`.
pub open spec fn phase_of(elapsed: int, duration: int) -> int {
    ((elapsed % duration) * HUE_TURN) / duration
}

/// Half-wave of Bhaskara's rational sine approximation scaled to `[0, 5000]`,
/// for an angle `x` in `[0, 18000]` hundredths of a degree.
pub open spec fn half_wave(x: int) -> int {
    (20000 * (x * (18000 - x))) / (405_000_000 - x * (18000 - x))
}

/// Brightness of a pulse at angle `phase`, in ten-thousandths: `0.5 + sin(phase) / 2`
/// with the sine taken from Bhaskara's rational approximation (see `half_wave`), which
/// is exact at multiples of 90 degrees and off by less than 0.002 elsewhere.
pub open spec fn pulse_level(phase: int) -> int {
    if phase < 18000 {
        5000 + half_wave(phase)
    } else {
        5000 - half_wave(phase - 18000)
    }
}

/// Linear interpolation from `start` by `change`, `elapsed` ms into `duration` ms,
/// held at the end once `elapsed` reaches `duration`; rounded towards `start`.
pub open spec fn shift_point(start: int, change: int, elapsed: int, duration: int) -> int {
    let e = if elapsed >= duration {
        duration
    } else {
        elapsed
    };
    if change >= 0 {
        start + (change * e) / duration
    } else {
        start - ((-change) * e) / duration
    }
}

impl Transition {
    pub open spec fn wf(self) -> bool {
        &&& self.duration > 0
        &&& match self.mode {
            TransitionMode::Cycle { start_hue } => start_hue < HUE_TURN,
            TransitionMode::Pulse => true,
            TransitionMode::ShiftHue { start, change } => start < HUE_TURN && -0x8000_0000
                <= start + change < 0x8000_0000,
            TransitionMode::ShiftSaturation { start, change } => start <= CHANNEL_ONE && 0
                <= start + change <= CHANNEL_ONE,
            TransitionMode::ShiftValue { start, change } => start <= CHANNEL_ONE && 0 <= start
                + change <= CHANNEL_ONE,
        }
        &&& match self.backup {
            Some(b) => b.saturation <= CHANNEL_ONE && b.value <= CHANNEL_ONE,
            None => true,
        }
    }

    /// Whether the animation has run its course at `now`: only shifts end, once their duration is over.
    pub open spec fn finished(self, now: u64) -> bool {
        match self.mode {
            TransitionMode::Cycle { .. } | TransitionMode::Pulse => false,
            _ => elapsed_since(self.start_at, now) >= self.duration,
        }
    }

    /// The colour after this animation is applied to `c` at `now`.
    pub open spec fn apply(self, c: Hsv, now: u64) -> Hsv {
        let e = elapsed_since(self.start_at, now);
        let d = self.duration as int;
        match self.mode {
            TransitionMode::Cycle { start_hue } => Hsv { hue: cycle_hue(start_hue as int, e, d) as u32, ..c },
            TransitionMode::Pulse => Hsv { value: pulse_level(phase_of(e, d)) as u32, ..c },
            TransitionMode::ShiftHue { start, change } => Hsv {
                hue: normalize_hue(shift_point(start as int, change as int, e, d)) as u32,
                ..c
            },
            TransitionMode::ShiftSaturation { start, change } => Hsv {
                saturation: shift_point(start as int, change as int, e, d) as u32,
                ..c
            },
            TransitionMode::ShiftValue { start, change } => Hsv {
                value: shift_point(start as int, change as int, e, d) as u32,
                ..c
            },
        }
    }

    /// Advances the animation to `now` on `color`; returns whether it has finished.
    pub fn tick(&self, color: &mut Hsv, now: u64) -> (done: bool)
        requires
            self.wf(),
            old(color).wf(),
        ensures
            *final(color) == self.apply(*old(color), now),
            final(color).wf(),
            done == self.finished(now),
    {
        let elapsed: u64 = if now >= self.start_at {
            now - self.start_at
        } else {
            0
        };
        match self.mode {
            TransitionMode::Cycle { start_hue } => {
                color.hue = cycle_step(start_hue, elapsed, self.duration);
                false
            },
            TransitionMode::Pulse => {
                color.value = pulse_step(elapsed, self.duration);
                false
            },
            TransitionMode::ShiftHue { start, change } => {
                let offset = shift_offset(change, elapsed, self.duration);
                color.hue = wrap_hue(start as i64 + offset);
                elapsed >= self.duration
            },
            TransitionMode::ShiftSaturation { start, change } => {
                let offset = shift_offset(change, elapsed, self.duration);
                color.saturation = (start as i64 + offset) as u32;
                elapsed >= self.duration
            },
            TransitionMode::ShiftValue { start, change } => {
                let offset = shift_offset(change, elapsed, self.duration);
                color.value = (start as i64 + offset) as u32;
                elapsed >= self.duration
            },
        }
    }
}

/// Moving `elapsed` along a whole number of periods changes nothing of the cycle hue.
proof fn lemma_cycle_reduces(start_hue: int, elapsed: int, duration: int)
    requires
        elapsed >= 0,
        duration > 0,
    ensures
        cycle_hue(start_hue, elapsed, duration) == cycle_hue(
            start_hue,
            elapsed % duration,
            duration,
        ),
        (elapsed % duration) * HUE_TURN / duration < HUE_TURN,
{
    let e = elapsed as int;
    let d = duration as int;
    let q = e / d;
    let r = e % d;
    let t = HUE_TURN as int;
    vstd::arithmetic::div_mod::lemma_fundamental_div_mod(e, d);
    assert(e * t == d * (q * t) + r * t) by (nonlinear_arith)
        requires
            e == d * q + r,
    ;
    assert(0 <= r * t < d * t) by (nonlinear_arith)
        requires
            0 <= r < d,
            t > 0,
    ;
    vstd::arithmetic::div_mod::lemma_hoist_over_denominator(r * t, q * t, duration as nat);
    assert(q * t * d == d * (q * t)) by (nonlinear_arith);
    assert((e * t) / d == (r * t) / d + q * t);
    vstd::arithmetic::div_mod::lemma_div_by_multiple_is_strongly_ordered(r * t, d * t, t, d);
    assert((d * t) / d == t) by {
        vstd::arithmetic::div_mod::lemma_div_multiples_vanish(t, d);
    }
    vstd::arithmetic::div_mod::lemma_mod_multiples_vanish(q, start_hue + (r * t) / d, t);
    assert(t * q + (start_hue + (r * t) / d) == start_hue + (e * t) / d) by (nonlinear_arith)
        requires
            (e * t) / d == (r * t) / d + q * t,
    ;
    assert(e % d == elapsed % duration);
}

/// Hue of a cycle, computed from the position within the current period.
fn cycle_step(start_hue: u32, elapsed: u64, duration: u64) -> (r: u32)
    requires
        start_hue < HUE_TURN,
        duration > 0,
    ensures
        r as int == cycle_hue(start_hue as int, elapsed as int, duration as int),
        r < HUE_TURN,
{
    let within: u64 = elapsed % duration;
    proof {
        lemma_cycle_reduces(start_hue as int, elapsed as int, duration as int);
        assert((within as int) * 36000 <= 0xFFFF_FFFF_FFFF_FFFF * 36000) by (nonlinear_arith)
            requires
                within <= 0xFFFF_FFFF_FFFF_FFFFu64,
        ;
    }
    let step: u128 = (within as u128) * 36000 / (duration as u128);
    let sum: u64 = start_hue as u64 + step as u64;
    (sum % 36000) as u32
}

/// The pulse brightness `elapsed` ms into a period of `duration` ms.
fn pulse_step(elapsed: u64, duration: u64) -> (r: u32)
    requires
        duration > 0,
    ensures
        r as int == pulse_level(phase_of(elapsed as int, duration as int)),
        r <= CHANNEL_ONE,
{
    let within: u64 = elapsed % duration;
    proof {
        lemma_cycle_reduces(0, elapsed as int, duration as int);
        assert((within as int) * 36000 <= 0xFFFF_FFFF_FFFF_FFFF * 36000) by (nonlinear_arith)
            requires
                within <= 0xFFFF_FFFF_FFFF_FFFFu64,
        ;
    }
    let phase: u64 = ((within as u128) * 36000 / (duration as u128)) as u64;
    if phase < 18000 {
        5000 + half_wave_step(phase)
    } else {
        5000 - half_wave_step(phase - 18000)
    }
}

/// Bhaskara's half-wave; never above 5000.
fn half_wave_step(x: u64) -> (r: u32)
    requires
        x <= 18000,
    ensures
        r as int == half_wave(x as int),
        r <= 5000,
{
    assert(0 <= x * (18000 - x) <= 81_000_000) by (nonlinear_arith)
        requires
            x <= 18000,
    ;
    let p: u64 = x * (18000 - x);
    let num: u64 = 20000 * p;
    let den: u64 = 405_000_000 - p;
    assert(num / den <= 5000) by {
        assert(num <= 5000 * den);
        vstd::arithmetic::div_mod::lemma_div_is_ordered(num as int, 5000 * den as int, den as int);
        vstd::arithmetic::div_mod::lemma_div_multiples_vanish(5000, den as int);
        assert(5000 * den == den * 5000) by (nonlinear_arith);
    }
    (num / den) as u32
}

/// How far a shift by `change` has moved after `elapsed` of `duration` ms, rounded towards zero.
fn shift_offset(change: i64, elapsed: u64, duration: u64) -> (r: i64)
    requires
        -0x1_0000_0000 <= change <= 0x1_0000_0000,
        duration > 0,
    ensures
        r as int == shift_point(0, change as int, elapsed as int, duration as int),
        change >= 0 ==> 0 <= r <= change,
        change < 0 ==> change <= r <= 0,
{
    let e: u64 = if elapsed >= duration {
        duration
    } else {
        elapsed
    };
    let m: u64 = if change >= 0 {
        change as u64
    } else {
        (-change) as u64
    };
    proof {
        assert(m * e <= m * duration) by (nonlinear_arith)
            requires
                e <= duration,
        ;
        assert(m * e <= 0x1_0000_0000 * 0xFFFF_FFFF_FFFF_FFFF) by (nonlinear_arith)
            requires
                m <= 0x1_0000_0000,
                e <= 0xFFFF_FFFF_FFFF_FFFFu64,
        ;
        vstd::arithmetic::div_mod::lemma_div_is_ordered(m * e, m * duration, duration as int);
        vstd::arithmetic::div_mod::lemma_div_multiples_vanish(m as int, duration as int);
        assert(m * duration == duration * m) by (nonlinear_arith);
    }
    let moved: u64 = ((m as u128) * (e as u128) / (duration as u128)) as u64;
    if change >= 0 {
        moved as i64
    } else {
        -(moved as i64)
    }
}

/// A settle animation never leaves the stretch between its start and its target.
pub proof fn lemma_shift_between(start: int, change: int, elapsed: int, duration: int)
    requires
        elapsed >= 0,
        duration > 0,
    ensures
        change >= 0 ==> start <= shift_point(start, change, elapsed, duration) <= start + change,
        change < 0 ==> start + change <= shift_point(start, change, elapsed, duration) <= start,
{
    let e = if elapsed >= duration {
        duration
    } else {
        elapsed
    };
    let m = if change >= 0 {
        change
    } else {
        -change
    };
    assert(0 <= m * e <= m * duration) by (nonlinear_arith)
        requires
            0 <= e <= duration,
            m >= 0,
    ;
    vstd::arithmetic::div_mod::lemma_div_is_ordered(m * e, m * duration, duration);
    vstd::arithmetic::div_mod::lemma_div_is_ordered(0, m * e, duration);
    vstd::arithmetic::div_mod::lemma_div_multiples_vanish(m, duration);
    assert(m * duration == duration * m) by (nonlinear_arith);
}

/// A settle animation reports that it is over and stands exactly on its target once its
/// duration has passed, and stands exactly on its start, still running, when no time has passed.
pub proof fn lemma_shift_endpoints(t: Transition, c: Hsv, now: u64)
    requires
        t.wf(),
        !(t.mode is Cycle),
        !(t.mode is Pulse),
    ensures
        elapsed_since(t.start_at, now) >= t.duration ==> {
            &&& t.finished(now)
            &&& match t.mode {
                TransitionMode::ShiftHue { start, change } => t.apply(c, now).hue == normalize_hue(
                    start + change,
                ),
                TransitionMode::ShiftSaturation { start, change } => t.apply(c, now).saturation
                    == start + change,
                TransitionMode::ShiftValue { start, change } => t.apply(c, now).value == start
                    + change,
                _ => true,
            }
        },
        elapsed_since(t.start_at, now) == 0 ==> {
            &&& !t.finished(now)
            &&& match t.mode {
                TransitionMode::ShiftHue { start, change } => t.apply(c, now).hue == start,
                TransitionMode::ShiftSaturation { start, change } => t.apply(c, now).saturation
                    == start,
                TransitionMode::ShiftValue { start, change } => t.apply(c, now).value == start,
                _ => true,
            }
        },
{
    let d = t.duration as int;
    let (start, change) = match t.mode {
        TransitionMode::ShiftHue { start, change } => (start as int, change as int),
        TransitionMode::ShiftSaturation { start, change } => (start as int, change as int),
        TransitionMode::ShiftValue { start, change } => (start as int, change as int),
        _ => (0, 0),
    };
    if elapsed_since(t.start_at, now) >= t.duration {
        vstd::arithmetic::div_mod::lemma_div_multiples_vanish(change, d);
        vstd::arithmetic::div_mod::lemma_div_multiples_vanish(-change, d);
        assert(change * d == d * change && (-change) * d == d * (-change)) by (nonlinear_arith);
        assert(shift_point(start, change, elapsed_since(t.start_at, now), d) == start + change);
    }
    if elapsed_since(t.start_at, now) == 0 {
        assert(shift_point(start, change, 0, d) == start);
        if t.mode is ShiftHue {
            vstd::arithmetic::div_mod::lemma_small_mod(start as nat, HUE_TURN as nat);
        }
    }
}

/// A hue rotation shows the same hue again after each full period.
pub proof fn lemma_cycle_periodic(t: Transition, c: Hsv, now: u64)
    requires
        t.wf(),
        t.mode is Cycle,
        now >= t.start_at,
        now + t.duration <= u64::MAX,
    ensures
        t.apply(c, (now + t.duration) as u64) == t.apply(c, now),
{
    let e = elapsed_since(t.start_at, now);
    let d = t.duration as int;
    let start_hue = match t.mode {
        TransitionMode::Cycle { start_hue } => start_hue as int,
        _ => 0,
    };
    assert(elapsed_since(t.start_at, (now + t.duration) as u64) == e + d);
    lemma_cycle_reduces(start_hue, e, d);
    lemma_cycle_reduces(start_hue, e + d, d);
    vstd::arithmetic::div_mod::lemma_mod_add_multiples_vanish(e, d);
    assert((d + e) % d == (e + d) % d);
}

} // verus!
