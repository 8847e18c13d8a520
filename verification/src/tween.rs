//! Time-indexed color keyframe animation.
//!
//! An animation holds keyframes at strictly increasing time offsets
//! (thousandths of a time unit) and an elapsed-time accumulator. For an
//! elapsed time within the timeline, the current color is interpolated
//! channel by channel between the two bounding keyframes, eased by the
//! easing style of the keyframe being approached; past the final
//! keyframe the query yields nothing and the caller supplies a
//! fallback.

use vstd::arithmetic::div_mod::{lemma_div_is_ordered, lemma_div_pos_is_pos};
use vstd::prelude::*;

use crate::color_scheme::TweenableColor;

verus! {

/// How a segment eases toward its target keyframe.
#[derive(Copy, Clone, Debug, PartialEq, Eq, Structural)]
pub enum Easing {
    Linear,
    EaseInOut,
}

/// One stop of an animation: a color to reach, at a time offset in
/// thousandths of a time unit, eased by `easing`.
#[derive(Copy, Clone, Debug, PartialEq, Eq, Structural)]
pub struct ColorKeyframe {
    pub value: TweenableColor,
    pub time: u64,
    pub easing: Easing,
}

/// An easing curve over progress in thousandths: `Linear` is the
/// identity, `EaseInOut` a quadratic that starts and ends slow.
pub open spec fn spec_ease(e: Easing, t: int) -> int {
    match e {
        Easing::Linear => t,
        Easing::EaseInOut => if t <= 500 {
            2 * t * t / 1000
        } else {
            1000 - 2 * (1000 - t) * (1000 - t) / 1000
        },
    }
}

/// Interpolation of one channel: `a` at `t == 0`, `b` at `t == 1000`.
pub open spec fn spec_lerp_chan(a: int, b: int, t: int) -> int {
    if b >= a {
        a + (b - a) * t / 1000
    } else {
        a - (a - b) * t / 1000
    }
}

/// Componentwise interpolation of a color.
pub open spec fn spec_lerp_color(a: TweenableColor, b: TweenableColor, t: int) -> TweenableColor {
    TweenableColor {
        r: spec_lerp_chan(a.r as int, b.r as int, t) as u32,
        g: spec_lerp_chan(a.g as int, b.g as int, t) as u32,
        b: spec_lerp_chan(a.b as int, b.b as int, t) as u32,
        a: spec_lerp_chan(a.a as int, b.a as int, t) as u32,
    }
}

/// `x` lies (inclusively) between `a` and `b`, whichever order they
/// stand in.
pub open spec fn chan_between(a: int, x: int, b: int) -> bool {
    (a <= x <= b) || (b <= x <= a)
}

/// Every channel of `x` lies between the channels of `a` and `b`.
pub open spec fn color_between(a: TweenableColor, x: TweenableColor, b: TweenableColor) -> bool {
    &&& chan_between(a.r as int, x.r as int, b.r as int)
    &&& chan_between(a.g as int, x.g as int, b.g as int)
    &&& chan_between(a.b as int, x.b as int, b.b as int)
    &&& chan_between(a.a as int, x.a as int, b.a as int)
}

pub proof fn lemma_ease_range(e: Easing, t: int)
    requires
        0 <= t <= 1000,
    ensures
        0 <= spec_ease(e, t) <= 1000,
        t == 0 ==> spec_ease(e, t) == 0,
{
    match e {
        Easing::Linear => {},
        Easing::EaseInOut => {
            if t <= 500 {
                assert(2 * t * t <= 1000000int) by (nonlinear_arith)
                    requires
                        0 <= t <= 500,
                ;
                assert(0 <= 2 * t * t) by (nonlinear_arith);
                lemma_div_is_ordered(2 * t * t, 1000000int, 1000);
            } else {
                assert(0 <= 2 * (1000 - t) * (1000 - t) <= 1000000int) by (nonlinear_arith)
                    requires
                        500 < t <= 1000,
                ;
                lemma_div_is_ordered(2 * (1000 - t) * (1000 - t), 1000000int, 1000);
                assert(2 * (1000 - t) * (1000 - t) / 1000 >= 0) by {
                    lemma_div_is_ordered(0, 2 * (1000 - t) * (1000 - t), 1000);
                }
            }
        },
    }
}

pub proof fn lemma_lerp_chan_between(a: int, b: int, t: int)
    requires
        0 <= t <= 1000,
    ensures
        chan_between(a, spec_lerp_chan(a, b, t), b),
        t == 0 ==> spec_lerp_chan(a, b, t) == a,
{
    if b >= a {
        assert((b - a) * t <= (b - a) * 1000) by (nonlinear_arith)
            requires
                0 <= t <= 1000,
                b - a >= 0,
        ;
        assert(0 <= (b - a) * t) by (nonlinear_arith)
            requires
                0 <= t,
                b - a >= 0,
        ;
        lemma_div_is_ordered((b - a) * t, (b - a) * 1000, 1000);
        lemma_div_is_ordered(0, (b - a) * t, 1000);
        assert((b - a) * 1000 / 1000 == b - a) by (nonlinear_arith);
    } else {
        assert((a - b) * t <= (a - b) * 1000) by (nonlinear_arith)
            requires
                0 <= t <= 1000,
                a - b >= 0,
        ;
        assert(0 <= (a - b) * t) by (nonlinear_arith)
            requires
                0 <= t,
                a - b >= 0,
        ;
        lemma_div_is_ordered((a - b) * t, (a - b) * 1000, 1000);
        lemma_div_is_ordered(0, (a - b) * t, 1000);
        assert((a - b) * 1000 / 1000 == a - b) by (nonlinear_arith);
    }
}

/// Exact easing on thousandths of progress.
pub fn ease(e: Easing, t: u64) -> (r: u64)
    requires
        t <= 1000,
    ensures
        r == spec_ease(e, t as int),
        r <= 1000,
{
    proof {
        lemma_ease_range(e, t as int);
    }
    match e {
        Easing::Linear => t,
        Easing::EaseInOut => {
            if t <= 500 {
                2 * t * t / 1000
            } else {
                1000 - 2 * (1000 - t) * (1000 - t) / 1000
            }
        },
    }
}

/// Exact interpolation of one channel.
pub fn lerp_chan(a: u32, b: u32, t: u64) -> (r: u32)
    requires
        t <= 1000,
        a <= 255_000,
        b <= 255_000,
    ensures
        r == spec_lerp_chan(a as int, b as int, t as int),
        r <= 255_000,
{
    proof {
        lemma_lerp_chan_between(a as int, b as int, t as int);
    }
    if b >= a {
        let diff: u64 = (b - a) as u64;
        a + (diff * t / 1000) as u32
    } else {
        let diff: u64 = (a - b) as u64;
        a - (diff * t / 1000) as u32
    }
}

/// Exact interpolation of a color.
pub fn lerp_color(a: TweenableColor, b: TweenableColor, t: u64) -> (r: TweenableColor)
    requires
        t <= 1000,
        a.wf(),
        b.wf(),
    ensures
        r == spec_lerp_color(a, b, t as int),
        r.wf(),
{
    TweenableColor {
        r: lerp_chan(a.r, b.r, t),
        g: lerp_chan(a.g, b.g, t),
        b: lerp_chan(a.b, b.b, t),
        a: lerp_chan(a.a, b.a, t),
    }
}

/// Keyframe times are strictly increasing.
pub open spec fn times_increasing(kfs: Seq<ColorKeyframe>) -> bool {
    forall|i: int, j: int|
        0 <= i < j < kfs.len() ==> #[trigger] kfs[i].time < #[trigger] kfs[j].time
}

/// The color an animation shows at elapsed time `e`: nothing at or past
/// the final keyframe's offset, the first keyframe's color before its
/// offset, and otherwise the eased interpolation within the bracketing
/// segment.
pub open spec fn spec_now_seq(kfs: Seq<ColorKeyframe>, e: int) -> Option<TweenableColor>
    decreases kfs.len(),
{
    if kfs.len() == 0 {
        None
    } else if e >= kfs.last().time {
        None
    } else if e < kfs[0].time {
        Some(kfs[0].value)
    } else if kfs.len() >= 2 && e < kfs[1].time {
        Some(
            spec_lerp_color(
                kfs[0].value,
                kfs[1].value,
                spec_ease(kfs[1].easing, (e - kfs[0].time) * 1000 / (kfs[1].time - kfs[0].time)),
            ),
        )
    } else {
        spec_now_seq(kfs.drop_first(), e)
    }
}

/// Within the segment that brackets `e`, the animation's value is the
/// eased interpolation between the segment's two keyframes.
pub proof fn lemma_spec_now_segment(kfs: Seq<ColorKeyframe>, e: int, i: int)
    requires
        times_increasing(kfs),
        0 <= i,
        i + 1 < kfs.len(),
        kfs[i].time <= e < kfs[i + 1].time,
    ensures
        spec_now_seq(kfs, e) == Some(
            spec_lerp_color(
                kfs[i].value,
                kfs[i + 1].value,
                spec_ease(
                    kfs[i + 1].easing,
                    (e - kfs[i].time) * 1000 / (kfs[i + 1].time - kfs[i].time),
                ),
            ),
        ),
    decreases i,
{
    assert(e < kfs.last().time);
    if i == 0 {
    } else {
        let tail = kfs.drop_first();
        assert(forall|j: int| 0 <= j < tail.len() ==> tail[j] == kfs[j + 1]);
        assert(times_increasing(tail));
        assert(kfs[1].time <= kfs[i].time);
        lemma_spec_now_segment(tail, e, i - 1);
        assert(tail[i - 1] == kfs[i]);
        assert(tail[i] == kfs[i + 1]);
    }
}

/// A keyframed color animation with an elapsed-time accumulator, both
/// in thousandths of a time unit.
#[derive(Debug)]
pub struct ColorAnimation {
    pub keyframes: Vec<ColorKeyframe>,
    pub elapsed: u64,
}

impl ColorAnimation {
    /// The final keyframe's time offset (zero when empty).
    pub open spec fn spec_duration(self) -> int {
        if self.keyframes@.len() == 0 {
            0
        } else {
            self.keyframes@.last().time as int
        }
    }

    /// Keyframe times strictly increase, every keyframe color is a real
    /// color, and the accumulator never runs past the end.
    pub open spec fn wf(self) -> bool {
        &&& times_increasing(self.keyframes@)
        &&& forall|i: int|
            0 <= i < self.keyframes@.len() ==> (#[trigger] self.keyframes@[i]).value.wf()
        &&& self.elapsed as int <= self.spec_duration()
    }

    pub open spec fn spec_finished(self) -> bool {
        self.elapsed as int >= self.spec_duration()
    }

    pub open spec fn spec_now(self) -> Option<TweenableColor> {
        spec_now_seq(self.keyframes@, self.elapsed as int)
    }

    /// The elapsed time after advancing by `delta`, clamped to the end
    /// of the timeline.
    pub open spec fn spec_advanced(self, delta: int) -> int {
        if self.elapsed + delta >= self.spec_duration() {
            self.spec_duration()
        } else {
            self.elapsed + delta
        }
    }

    /// An empty animation.
    pub fn new() -> (r: ColorAnimation)
        ensures
            r.keyframes@.len() == 0,
            r.elapsed == 0,
            r.wf(),
    {
        ColorAnimation { keyframes: Vec::new(), elapsed: 0 }
    }

    /// Appends a keyframe; stops must be inserted in increasing time
    /// order.
    pub fn insert(&mut self, kf: ColorKeyframe)
        requires
            old(self).wf(),
            kf.value.wf(),
            old(self).keyframes@.len() > 0 ==> old(self).keyframes@.last().time < kf.time,
        ensures
            final(self).keyframes@ == old(self).keyframes@.push(kf),
            final(self).elapsed == old(self).elapsed,
            final(self).wf(),
    {
        self.keyframes.push(kf);
        proof {
            let prev = old(self).keyframes@;
            let kfs = self.keyframes@;
            assert forall|i: int, j: int| 0 <= i < j < kfs.len() implies kfs[i].time
                < kfs[j].time by {
                if j < prev.len() {
                    assert(prev[i].time < prev[j].time);
                } else if i < prev.len() - 1 {
                    assert(prev[i].time < prev[prev.len() - 1].time);
                }
            }
            assert forall|i: int| 0 <= i < kfs.len() implies (#[trigger] kfs[i]).value.wf() by {
                if i < prev.len() {
                    assert(prev[i].value.wf());
                }
            }
        }
    }

    pub fn duration(&self) -> (d: u64)
        ensures
            d as int == self.spec_duration(),
    {
        let n = self.keyframes.len();
        if n == 0 {
            0
        } else {
            self.keyframes[n - 1].time
        }
    }

    /// Accumulates elapsed time, clamped to the timeline's end.
    pub fn advance_by(&mut self, delta: u64)
        requires
            old(self).wf(),
        ensures
            final(self).keyframes == old(self).keyframes,
            final(self).elapsed as int == old(self).spec_advanced(delta as int),
            final(self).wf(),
    {
        let d = self.duration();
        if delta >= d - self.elapsed {
            self.elapsed = d;
        } else {
            self.elapsed = self.elapsed + delta;
        }
    }

    /// The animation has run to (or past) its final keyframe.
    pub fn finished(&self) -> (r: bool)
        ensures
            r == self.spec_finished(),
    {
        let d = self.duration();
        self.elapsed >= d
    }

    /// The current color, or `None` once the animation is finished; the
    /// caller substitutes its own fallback for `None`.
    pub fn now_strict(&self) -> (r: Option<TweenableColor>)
        requires
            self.wf(),
        ensures
            r == self.spec_now(),
    {
        let n = self.keyframes.len();
        if n == 0 {
            return None;
        }
        if self.elapsed >= self.keyframes[n - 1].time {
            return None;
        }
        if self.elapsed < self.keyframes[0].time {
            return Some(self.keyframes[0].value);
        }
        let mut i: usize = 0;
        while i + 1 < n && self.keyframes[i + 1].time <= self.elapsed
            invariant
                0 <= i < n,
                n == self.keyframes@.len(),
                self.wf(),
                self.keyframes@[i as int].time <= self.elapsed,
                self.elapsed < self.keyframes@[n - 1].time,
            decreases n - i,
        {
            i = i + 1;
        }
        proof {
            assert(i + 1 < n);
        }
        let ti = self.keyframes[i].time;
        let tj = self.keyframes[i + 1].time;
        let num: u128 = ((self.elapsed - ti) as u128) * 1000;
        let dt: u128 = (tj - ti) as u128;
        let t64: u64 = (num / dt) as u64;
        proof {
            assert(num < 1000 * dt) by (nonlinear_arith)
                requires
                    num == (self.elapsed - ti) * 1000,
                    dt == tj - ti,
                    self.elapsed < tj,
                    ti <= self.elapsed,
            ;
            assert(num / dt < 1000) by (nonlinear_arith)
                requires
                    num < 1000 * dt,
                    dt > 0,
            ;
        }
        let eased = ease(self.keyframes[i + 1].easing, t64);
        let c = lerp_color(self.keyframes[i].value, self.keyframes[i + 1].value, eased);
        proof {
            lemma_spec_now_segment(self.keyframes@, self.elapsed as int, i as int);
        }
        Some(c)
    }
}

/// At every elapsed time within the timeline, the animation's color
/// lies channel by channel between the colors of the two keyframes that
/// bracket that time.
pub proof fn lemma_now_between(kfs: Seq<ColorKeyframe>, e: int)
    requires
        times_increasing(kfs),
        kfs.len() >= 2,
        kfs[0].time <= e,
        e < kfs.last().time,
    ensures
        spec_now_seq(kfs, e) is Some,
        exists|i: int|
            0 <= i < kfs.len() - 1 && (#[trigger] kfs[i].time) <= e < kfs[i + 1].time
                && color_between(kfs[i].value, spec_now_seq(kfs, e)->Some_0, kfs[i + 1].value),
    decreases kfs.len(),
{
    if e < kfs[1].time {
        let t = (e - kfs[0].time) * 1000 / (kfs[1].time - kfs[0].time);
        lemma_time_fraction_range(kfs[0].time as int, kfs[1].time as int, e);
        lemma_ease_range(kfs[1].easing, t);
        lemma_lerp_color_between(kfs[0].value, kfs[1].value, spec_ease(kfs[1].easing, t));
        lemma_spec_now_segment(kfs, e, 0);
        assert(0 <= 0int < kfs.len() - 1 && kfs[0].time <= e < kfs[0int + 1].time && color_between(
            kfs[0].value,
            spec_now_seq(kfs, e)->Some_0,
            kfs[0int + 1].value,
        ));
    } else {
        let tail = kfs.drop_first();
        assert(forall|j: int| 0 <= j < tail.len() ==> tail[j] == kfs[j + 1]);
        assert(times_increasing(tail));
        lemma_now_between(tail, e);
        assert(spec_now_seq(kfs, e) == spec_now_seq(tail, e));
        let j = choose|j: int|
            0 <= j < tail.len() - 1 && (#[trigger] tail[j].time) <= e < tail[j + 1].time
                && color_between(tail[j].value, spec_now_seq(tail, e)->Some_0, tail[j + 1].value);
        assert(0 <= j + 1 < kfs.len() - 1 && kfs[j + 1].time <= e < kfs[j + 2].time
            && color_between(kfs[j + 1].value, spec_now_seq(kfs, e)->Some_0, kfs[j + 2].value));
    }
}

/// The progress fraction within a segment stays in [0, 1000).
proof fn lemma_time_fraction_range(ti: int, tj: int, e: int)
    requires
        ti <= e < tj,
    ensures
        0 <= (e - ti) * 1000 / (tj - ti) < 1000,
{
    assert((e - ti) * 1000 < 1000 * (tj - ti)) by (nonlinear_arith)
        requires
            ti <= e < tj,
    ;
    assert(0 <= (e - ti) * 1000) by (nonlinear_arith)
        requires
            ti <= e,
    ;
    assert((e - ti) * 1000 / (tj - ti) < 1000) by (nonlinear_arith)
        requires
            (e - ti) * 1000 < 1000 * (tj - ti),
            tj - ti > 0,
    ;
    lemma_div_pos_is_pos((e - ti) * 1000, tj - ti);
}

/// A timeline that starts at offset zero shows its first keyframe's
/// color at time zero; at or past the final keyframe's offset the
/// query yields nothing and a fallback is the caller's duty.
pub proof fn lemma_now_endpoints(kfs: Seq<ColorKeyframe>, e: int)
    requires
        times_increasing(kfs),
        kfs.len() >= 1,
        kfs[0].time == 0,
    ensures
        0 < kfs.last().time ==> spec_now_seq(kfs, 0) == Some(kfs[0].value),
        e >= kfs.last().time ==> spec_now_seq(kfs, e) is None,
{
    if 0 < kfs.last().time {
        assert(kfs.len() >= 2);
        assert(0 < kfs[1].time);
        let t = (0 - kfs[0].time) * 1000 / (kfs[1].time - kfs[0].time);
        assert(t == 0);
        lemma_ease_range(kfs[1].easing, 0);
        lemma_lerp_chan_between(kfs[0].value.r as int, kfs[1].value.r as int, 0);
        lemma_lerp_chan_between(kfs[0].value.g as int, kfs[1].value.g as int, 0);
        lemma_lerp_chan_between(kfs[0].value.b as int, kfs[1].value.b as int, 0);
        lemma_lerp_chan_between(kfs[0].value.a as int, kfs[1].value.a as int, 0);
        assert(spec_lerp_color(kfs[0].value, kfs[1].value, spec_ease(kfs[1].easing, 0))
            == kfs[0].value);
    }
}

pub proof fn lemma_lerp_color_between(a: TweenableColor, b: TweenableColor, t: int)
    requires
        0 <= t <= 1000,
    ensures
        color_between(a, spec_lerp_color(a, b, t), b),
{
    lemma_lerp_chan_between(a.r as int, b.r as int, t);
    lemma_lerp_chan_between(a.g as int, b.g as int, t);
    lemma_lerp_chan_between(a.b as int, b.b as int, t);
    lemma_lerp_chan_between(a.a as int, b.a as int, t);
}

} // verus!
