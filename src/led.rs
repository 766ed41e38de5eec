use vstd::prelude::*;

use crate::color::{clamp_channel, Hsv, CHANNEL_ONE};
use crate::transition::{lemma_shift_endpoints, BackupValues, Transition, TransitionMode};

verus! {

/// How long a direct change of hue, saturation or value takes to settle, in milliseconds.
pub const SHIFT_DURATION_MS: u64 = 200;

/// The colour state and its active animations, as a mathematical value.
pub struct LedView {
    pub color: Hsv,
    pub active: Seq<Transition>,
}

/// The colour after every animation of `ts` has been applied in order at `now`.
pub open spec fn run_all(ts: Seq<Transition>, c: Hsv, now: u64) -> Hsv
    decreases ts.len(),
{
    if ts.len() == 0 {
        c
    } else {
        ts.last().apply(run_all(ts.drop_last(), c, now), now)
    }
}

/// The colour after each animation of `ts` that holds a snapshot has put it back, in order.
pub open spec fn restore(ts: Seq<Transition>, c: Hsv) -> Hsv
    decreases ts.len(),
{
    if ts.len() == 0 {
        c
    } else {
        let before = restore(ts.drop_last(), c);
        match ts.last().backup {
            Some(b) => Hsv { saturation: b.saturation, value: b.value, ..before },
            None => before,
        }
    }
}

/// Selects the animations that are still running at `now`.
pub open spec fn still_running(now: u64) -> spec_fn(Transition) -> bool {
    |t: Transition| !t.finished(now)
}

/// A settle animation of the default length that starts at `now`.
pub open spec fn shift_spec(mode: TransitionMode, now: u64) -> Transition {
    Transition { mode, start_at: now, duration: SHIFT_DURATION_MS, backup: None }
}

impl LedView {
    pub open spec fn wf(self) -> bool {
        &&& self.color.wf()
        &&& forall|i: int| 0 <= i < self.active.len() ==> (#[trigger] self.active[i]).wf()
    }

    /// One tick at `now`: every animation is applied, the finished ones are dropped.
    pub open spec fn ticked(self, now: u64) -> LedView {
        LedView {
            color: run_all(self.active, self.color, now),
            active: self.active.filter(still_running(now)),
        }
    }

    /// Ticks at each of `times` in turn.
    pub open spec fn ticked_through(self, times: Seq<u64>) -> LedView
        decreases times.len(),
    {
        if times.len() == 0 {
            self
        } else {
            self.ticked_through(times.drop_last()).ticked(times.last())
        }
    }

    /// Every animation stopped; snapshots are put back.
    pub open spec fn cleared(self) -> LedView {
        LedView { color: restore(self.active, self.color), active: Seq::empty() }
    }

    pub open spec fn with_transition(self, t: Transition) -> LedView {
        LedView { active: self.active.push(t), ..self }
    }

    /// Animations stopped, then a settle of the hue from where it is to `hue`.
    pub open spec fn hue_set(self, hue: i32, now: u64) -> LedView {
        let c = self.cleared();
        c.with_transition(
            shift_spec(
                TransitionMode::ShiftHue { start: c.color.hue, change: (hue - c.color.hue) as i64 },
                now,
            ),
        )
    }

    /// A settle of the saturation from where it is to `saturation`, brought into range.
    pub open spec fn saturation_set(self, saturation: u32, now: u64) -> LedView {
        self.with_transition(
            shift_spec(
                TransitionMode::ShiftSaturation {
                    start: self.color.saturation,
                    change: (clamp_channel(saturation as int) - self.color.saturation) as i64,
                },
                now,
            ),
        )
    }

    /// A settle of the value from where it is to `value`, brought into range.
    pub open spec fn value_set(self, value: u32, now: u64) -> LedView {
        self.with_transition(
            shift_spec(
                TransitionMode::ShiftValue {
                    start: self.color.value,
                    change: (clamp_channel(value as int) - self.color.value) as i64,
                },
                now,
            ),
        )
    }

    /// Animations stopped, then a hue rotation of period `duration` from the current hue.
    pub open spec fn cycled(self, duration: u64, now: u64) -> LedView {
        let c = self.cleared();
        c.with_transition(
            Transition {
                mode: TransitionMode::Cycle { start_hue: c.color.hue },
                start_at: now,
                duration,
                backup: None,
            },
        )
    }

    /// Animations stopped, then a brightness pulse of period `duration` that keeps a snapshot.
    pub open spec fn pulsed(self, duration: u64, now: u64) -> LedView {
        let c = self.cleared();
        c.with_transition(
            Transition {
                mode: TransitionMode::Pulse,
                start_at: now,
                duration,
                backup: Some(BackupValues { saturation: c.color.saturation, value: c.color.value }),
            },
        )
    }

    /// Whether a hue rotation is among the active animations.
    pub open spec fn cycling(self) -> bool {
        exists|i: int| 0 <= i < self.active.len() && (#[trigger] self.active[i]).mode is Cycle
    }
}

/// The colour engine: one colour and the animations that act on it.
pub struct Led {
    transitions: Vec<Transition>,
    color: Hsv,
}

impl View for Led {
    type V = LedView;

    closed spec fn view(&self) -> LedView {
        LedView { color: self.color, active: self.transitions@ }
    }
}

impl Led {
    /// A fixture at full red, with no animation.
    pub fn new() -> (r: Led)
        ensures
            r@.color == (Hsv { hue: 0, saturation: CHANNEL_ONE, value: CHANNEL_ONE }),
            r@.active == Seq::<Transition>::empty(),
            r@.wf(),
    {
        let r = Led { transitions: Vec::new(), color: Hsv { hue: 0, saturation: CHANNEL_ONE, value: CHANNEL_ONE } };
        proof {
            assert(r@.active =~= Seq::<Transition>::empty());
        }
        r
    }

    /// The current colour.
    pub fn color(&self) -> (r: Hsv)
        ensures
            r == self@.color,
    {
        self.color
    }

    /// Whether a hue rotation is running.
    pub fn is_cycling(&self) -> (r: bool)
        ensures
            r == self@.cycling(),
    {
        let mut i: usize = 0;
        while i < self.transitions.len()
            invariant
                0 <= i <= self.transitions@.len(),
                forall|j: int| 0 <= j < i ==> !((#[trigger] self.transitions@[j]).mode is Cycle),
            decreases self.transitions@.len() - i,
        {
            if let TransitionMode::Cycle { .. } = self.transitions[i].mode {
                return true;
            }
            i += 1;
        }
        false
    }

    /// Sets the colour outright; the animations go on.
    pub fn set_hsv(&mut self, hsv: Hsv)
        requires
            old(self)@.wf(),
            hsv.wf(),
        ensures
            final(self)@ == (LedView { color: hsv, ..old(self)@ }),
            final(self)@.wf(),
    {
        self.color = hsv;
    }

    fn push_transition(&mut self, t: Transition)
        requires
            old(self)@.wf(),
            t.wf(),
        ensures
            final(self)@ == old(self)@.with_transition(t),
            final(self)@.wf(),
    {
        self.transitions.push(t);
        proof {
            assert(self@.active =~= old(self)@.active.push(t));
        }
    }

    /// Stops every animation; those that hold a snapshot put saturation and value back.
    pub fn stop_transition(&mut self)
        requires
            old(self)@.wf(),
        ensures
            final(self)@ == old(self)@.cleared(),
            final(self)@.wf(),
    {
        let ghost ts = self.transitions@;
        let ghost c0 = self.color;
        proof {
            assert forall|j: int| 0 <= j < ts.len() implies (#[trigger] ts[j]).wf() by {
                assert(old(self)@.active[j] == ts[j]);
            }
        }
        let mut color = self.color;
        let mut i: usize = 0;
        while i < self.transitions.len()
            invariant
                self.transitions@ == ts,
                old(self)@ == (LedView { color: c0, active: ts }),
                old(self)@.wf(),
                forall|j: int| 0 <= j < ts.len() ==> (#[trigger] ts[j]).wf(),
                0 <= i <= ts.len(),
                color == restore(ts.take(i as int), c0),
                color.wf(),
            decreases ts.len() - i,
        {
            proof {
                assert(ts.take(i + 1).drop_last() =~= ts.take(i as int));
                assert(ts.take(i + 1).last() == ts[i as int]);
            }
            if let Some(b) = self.transitions[i].backup {
                color.saturation = b.saturation;
                color.value = b.value;
            }
            i += 1;
        }
        proof {
            assert(ts.take(ts.len() as int) =~= ts);
        }
        self.transitions = Vec::new();
        self.color = color;
        proof {
            assert(self@.active =~= Seq::<Transition>::empty());
        }
    }

    /// Advances every animation to `now`, drops the finished ones, and returns the colour to show.
    pub fn tick(&mut self, now: u64) -> (r: Hsv)
        requires
            old(self)@.wf(),
        ensures
            final(self)@ == old(self)@.ticked(now),
            final(self)@.wf(),
            r == final(self)@.color,
    {
        let ghost ts = self.transitions@;
        let ghost c0 = self.color;
        proof {
            assert forall|j: int| 0 <= j < ts.len() implies (#[trigger] ts[j]).wf() by {
                assert(old(self)@.active[j] == ts[j]);
            }
        }
        let mut color = self.color;
        let mut kept: Vec<Transition> = Vec::new();
        let mut i: usize = 0;
        while i < self.transitions.len()
            invariant
                self.transitions@ == ts,
                old(self)@ == (LedView { color: c0, active: ts }),
                old(self)@.wf(),
                forall|j: int| 0 <= j < ts.len() ==> (#[trigger] ts[j]).wf(),
                0 <= i <= ts.len(),
                color == run_all(ts.take(i as int), c0, now),
                color.wf(),
                kept@ == ts.take(i as int).filter(still_running(now)),
                forall|j: int| 0 <= j < kept@.len() ==> (#[trigger] kept@[j]).wf(),
            decreases ts.len() - i,
        {
            proof {
                assert(ts.take(i + 1).drop_last() =~= ts.take(i as int));
                assert(ts.take(i + 1).last() == ts[i as int]);
                reveal(Seq::filter);
            }
            let t = self.transitions[i];
            let done = t.tick(&mut color, now);
            if !done {
                kept.push(t);
            }
            i += 1;
        }
        proof {
            assert(ts.take(ts.len() as int) =~= ts);
        }
        self.transitions = kept;
        self.color = color;
        color
    }

    /// Stops the animations and settles the hue towards `hue` (hundredths of a degree,
    /// any angle; the colour ends on the matching point of the hue circle).
    pub fn set_hue(&mut self, hue: i32, now: u64)
        requires
            old(self)@.wf(),
        ensures
            final(self)@ == old(self)@.hue_set(hue, now),
            final(self)@.wf(),
    {
        self.stop_transition();
        let start = self.color.hue;
        let t = Transition {
            mode: TransitionMode::ShiftHue { start, change: hue as i64 - start as i64 },
            start_at: now,
            duration: SHIFT_DURATION_MS,
            backup: None,
        };
        self.push_transition(t);
    }

    /// Settles the saturation towards `saturation` (ten-thousandths, capped at `CHANNEL_ONE`);
    /// running animations go on.
    pub fn set_saturation(&mut self, saturation: u32, now: u64)
        requires
            old(self)@.wf(),
        ensures
            final(self)@ == old(self)@.saturation_set(saturation, now),
            final(self)@.wf(),
    {
        let target = if saturation > CHANNEL_ONE {
            CHANNEL_ONE
        } else {
            saturation
        };
        let start = self.color.saturation;
        let t = Transition {
            mode: TransitionMode::ShiftSaturation { start, change: target as i64 - start as i64 },
            start_at: now,
            duration: SHIFT_DURATION_MS,
            backup: None,
        };
        self.push_transition(t);
    }

    /// Settles the value towards `value` (ten-thousandths, capped at `CHANNEL_ONE`);
    /// running animations go on.
    pub fn set_value(&mut self, value: u32, now: u64)
        requires
            old(self)@.wf(),
        ensures
            final(self)@ == old(self)@.value_set(value, now),
            final(self)@.wf(),
    {
        let target = if value > CHANNEL_ONE {
            CHANNEL_ONE
        } else {
            value
        };
        let start = self.color.value;
        let t = Transition {
            mode: TransitionMode::ShiftValue { start, change: target as i64 - start as i64 },
            start_at: now,
            duration: SHIFT_DURATION_MS,
            backup: None,
        };
        self.push_transition(t);
    }

    /// Stops the animations and rotates the hue one turn every `duration` ms from now on.
    pub fn cycle_colors(&mut self, duration: u64, now: u64)
        requires
            old(self)@.wf(),
            duration > 0,
        ensures
            final(self)@ == old(self)@.cycled(duration, now),
            final(self)@.wf(),
    {
        self.stop_transition();
        let t = Transition {
            mode: TransitionMode::Cycle { start_hue: self.color.hue },
            start_at: now,
            duration,
            backup: None,
        };
        self.push_transition(t);
    }

    /// Stops the animations and swings the brightness once every `duration` ms from now on,
    /// keeping the saturation and value of this moment to put back when it is stopped.
    pub fn pulse(&mut self, duration: u64, now: u64)
        requires
            old(self)@.wf(),
            duration > 0,
        ensures
            final(self)@ == old(self)@.pulsed(duration, now),
            final(self)@.wf(),
    {
        self.stop_transition();
        let backup = BackupValues { saturation: self.color.saturation, value: self.color.value };
        let t = Transition { mode: TransitionMode::Pulse, start_at: now, duration, backup: Some(backup) };
        self.push_transition(t);
    }
}

/// A tick leaves a lone pulse in place.
proof fn lemma_lone_pulse_stays(v: LedView, now: u64)
    requires
        v.active.len() == 1,
        v.active[0].mode is Pulse,
    ensures
        v.ticked(now).active == v.active,
{
    reveal(Seq::filter);
    assert(v.active.drop_last() =~= Seq::<Transition>::empty());
    assert(v.active.drop_last().filter(still_running(now)) =~= Seq::<Transition>::empty());
    assert(Seq::<Transition>::empty().push(v.active.last()) =~= v.active);
}

/// Any run of ticks leaves a lone pulse in place.
proof fn lemma_lone_pulse_stays_through(v: LedView, times: Seq<u64>)
    requires
        v.active.len() == 1,
        v.active[0].mode is Pulse,
    ensures
        v.ticked_through(times).active == v.active,
    decreases times.len(),
{
    if times.len() > 0 {
        lemma_lone_pulse_stays_through(v, times.drop_last());
        lemma_lone_pulse_stays(v.ticked_through(times.drop_last()), times.last());
    }
}

/// Stopping a pulse, however many ticks it has run for, gives back exactly the saturation
/// and value that the colour had when the pulse was started.
pub proof fn lemma_pulse_stop_restores(v: LedView, duration: u64, start: u64, times: Seq<u64>)
    requires
        v.wf(),
        duration > 0,
    ensures
        ({
            let p = v.pulsed(duration, start);
            let after = p.ticked_through(times).cleared();
            &&& after.color.saturation == p.color.saturation
            &&& after.color.value == p.color.value
        }),
{
    let p = v.pulsed(duration, start);
    assert(p.active.len() == 1 && p.active[0] == p.active.last());
    lemma_lone_pulse_stays_through(p, times);
    let w = p.ticked_through(times);
    assert(w.active.drop_last() =~= Seq::<Transition>::empty());
}

/// The channel that an animation writes: 0 for hue, 1 for saturation, 2 for value.
pub open spec fn writes(t: Transition) -> int {
    match t.mode {
        TransitionMode::Cycle { .. } | TransitionMode::ShiftHue { .. } => 0,
        TransitionMode::ShiftSaturation { .. } => 1,
        TransitionMode::Pulse | TransitionMode::ShiftValue { .. } => 2,
    }
}

/// Channel `ch` of a colour, numbered as in `writes`.
pub open spec fn channel(c: Hsv, ch: int) -> int {
    if ch == 0 {
        c.hue as int
    } else if ch == 1 {
        c.saturation as int
    } else {
        c.value as int
    }
}

/// Whether an animation leaves the hue alone.
pub open spec fn keeps_hue(t: Transition) -> bool {
    writes(t) != 0
}

/// After a run of animations a channel holds what the last animation to write it left.
proof fn lemma_last_writer(ts: Seq<Transition>, k: int, ch: int, c: Hsv, now: u64)
    requires
        0 <= k < ts.len(),
        writes(ts[k]) == ch,
        forall|j: int| k < j < ts.len() ==> writes(#[trigger] ts[j]) != ch,
    ensures
        channel(run_all(ts, c, now), ch) == channel(ts[k].apply(run_all(ts.take(k), c, now), now), ch),
    decreases ts.len(),
{
    if ts.len() == k + 1 {
        assert(ts.drop_last() =~= ts.take(k));
    } else {
        let rest = ts.drop_last();
        assert forall|j: int| k < j < rest.len() implies writes(#[trigger] rest[j]) != ch by {
            assert(rest[j] == ts[j]);
        }
        lemma_last_writer(rest, k, ch, c, now);
        assert(rest.take(k) =~= ts.take(k));
        assert(writes(ts[ts.len() - 1]) != ch);
    }
}

/// A tick drops every settle animation whose time is over, and leaves its channel exactly
/// on its target, unless an animation later in the set writes the same channel.
pub proof fn lemma_finished_shift_in_set(v: LedView, i: int, now: u64)
    requires
        v.wf(),
        0 <= i < v.active.len(),
        !(v.active[i].mode is Cycle),
        !(v.active[i].mode is Pulse),
        crate::transition::elapsed_since(v.active[i].start_at, now) >= v.active[i].duration,
        forall|j: int| i < j < v.active.len() ==> writes(#[trigger] v.active[j]) != writes(v.active[i]),
    ensures
        !v.ticked(now).active.contains(v.active[i]),
        match v.active[i].mode {
            TransitionMode::ShiftHue { start, change } => v.ticked(now).color.hue
                == crate::color::normalize_hue(start + change),
            TransitionMode::ShiftSaturation { start, change } => v.ticked(now).color.saturation
                == start + change,
            TransitionMode::ShiftValue { start, change } => v.ticked(now).color.value == start
                + change,
            _ => true,
        },
{
    let t = v.active[i];
    let kept = v.active.filter(still_running(now));
    if kept.contains(t) {
        let j = choose|j: int| 0 <= j < kept.len() && kept[j] == t;
        v.active.lemma_filter_pred(still_running(now), j);
    }
    assert(t.wf());
    lemma_last_writer(v.active, i, writes(t), v.color, now);
    lemma_shift_endpoints(t, run_all(v.active.take(i), v.color, now), now);
}

/// From rest, a hue change that has moved by at least one step (a hundredth of a degree)
/// stands strictly between the old hue and the new one until its settle time is over,
/// and is still running.
pub proof fn lemma_hue_set_midway(v: LedView, hue: i32, now: u64, later: u64)
    requires
        v.wf(),
        v.active.len() == 0,
        0 <= hue < crate::color::HUE_TURN,
        now < later < now + SHIFT_DURATION_MS,
        (if hue >= v.color.hue {
            hue - v.color.hue
        } else {
            v.color.hue - hue
        }) * (later - now) >= SHIFT_DURATION_MS,
    ensures
        ({
            let w = v.hue_set(hue, now).ticked(later);
            &&& hue > v.color.hue ==> v.color.hue < w.color.hue < hue
            &&& hue < v.color.hue ==> hue < w.color.hue < v.color.hue
            &&& w.active.len() == 1
        }),
{
    let h0 = v.color.hue as int;
    let u = v.hue_set(hue, now);
    assert(v.cleared().color == v.color);
    let sh = u.active[0];
    assert(u.active =~= seq![sh]);
    assert(u.active.drop_last() =~= Seq::<Transition>::empty());
    let e = (later - now) as int;
    let d = SHIFT_DURATION_MS as int;
    let m = if hue >= h0 {
        hue - h0
    } else {
        h0 - hue
    };
    assert(m > 0) by (nonlinear_arith)
        requires
            m * e >= d,
            d > 0,
            m >= 0,
    ;
    assert(m * e < m * d) by (nonlinear_arith)
        requires
            e < d,
            m > 0,
    ;
    vstd::arithmetic::div_mod::lemma_div_by_multiple_is_strongly_ordered(m * e, m * d, m, d);
    vstd::arithmetic::div_mod::lemma_div_multiples_vanish(m, d);
    assert(m * d == d * m) by (nonlinear_arith);
    vstd::arithmetic::div_mod::lemma_div_is_ordered(d, m * e, d);
    vstd::arithmetic::div_mod::lemma_div_by_self(d);
    let p = crate::transition::shift_point(h0, hue - h0, e, d);
    assert(0 < p < crate::color::HUE_TURN);
    vstd::arithmetic::div_mod::lemma_small_mod(p as nat, crate::color::HUE_TURN as nat);
    reveal(Seq::filter);
    assert(u.active.filter(still_running(later)) =~= u.active);
}

/// Changing the saturation while the hue rotates leaves the rotation running and the hue
/// exactly where the rotation alone puts it, while the saturation moves along its settle
/// and stands on its target once the settle time is over. `k` is the place of the rotation
/// among the active animations; none after it writes the hue.
pub proof fn lemma_saturation_beside_cycle(
    v: LedView,
    k: int,
    saturation: u32,
    now: u64,
    later: u64,
)
    requires
        v.wf(),
        0 <= k < v.active.len(),
        v.active[k].mode is Cycle,
        forall|j: int| k < j < v.active.len() ==> keeps_hue(#[trigger] v.active[j]),
    ensures
        ({
            let w = v.saturation_set(saturation, now).ticked(later);
            &&& w.color.hue == v.ticked(later).color.hue
            &&& w.color.hue == v.active[k].apply(v.color, later).hue
            &&& w.active.contains(v.active[k])
            &&& w.cycling()
            &&& w.color.saturation == crate::transition::shift_point(
                v.color.saturation as int,
                clamp_channel(saturation as int) - v.color.saturation,
                crate::transition::elapsed_since(now, later),
                SHIFT_DURATION_MS as int,
            )
            &&& crate::transition::elapsed_since(now, later) >= SHIFT_DURATION_MS
                ==> w.color.saturation == clamp_channel(saturation as int)
        }),
{
    let u = v.saturation_set(saturation, now);
    let cyc = v.active[k];
    let sh = u.active.last();
    assert(u.active.drop_last() =~= v.active);
    assert forall|j: int| k < j < u.active.len() implies keeps_hue(#[trigger] u.active[j]) by {
        if j < v.active.len() {
            assert(u.active[j] == v.active[j]);
        }
    }
    assert(u.active[k] == cyc);
    assert(u.active.take(k) =~= v.active.take(k));
    lemma_last_writer(u.active, k, 0, v.color, later);
    lemma_last_writer(v.active, k, 0, v.color, later);
    u.active.lemma_filter_contains(still_running(later), k);
    let w = u.ticked(later);
    assert(w.active.contains(cyc));
    let i = choose|i: int| 0 <= i < w.active.len() && w.active[i] == cyc;
    assert(w.active[i].mode is Cycle);
    assert(w.cycling());
    assert(sh.wf());
    lemma_shift_endpoints(sh, run_all(v.active, v.color, later), later);
    crate::transition::lemma_shift_between(
        v.color.saturation as int,
        clamp_channel(saturation as int) - v.color.saturation,
        crate::transition::elapsed_since(now, later),
        SHIFT_DURATION_MS as int,
    );
}

} // verus!
