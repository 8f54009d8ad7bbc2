//! Automation timelines for node parameters.
//!
//! An [`AudioParam`] holds a base value together with a schedule of future
//! ramp events, each reaching a target value at a context-clock time.  Times
//! are microseconds of the owning context's clock; values are fixed-point
//! numbers in millionths of a unit ([`VALUE_UNIT`]).  Inside a linear ramp
//! the timeline is sampled exactly, along the chord between the two schedule
//! points.  The exact shape inside an exponential ramp needs real
//! exponentiation, which fixed point cannot carry, so the contracts promise
//! of it only what holds of the true curve -- it meets both endpoints
//! exactly and stays between them ([`lemma_exponential_segment_bounds`]) --
//! and leave the interior sample otherwise undetermined; the sampler
//! approximates it within those bounds.

use vstd::prelude::*;
use vstd::arithmetic::div_mod::lemma_div_is_ordered;
use vstd::arithmetic::div_mod::lemma_div_multiples_vanish;
use vstd::arithmetic::div_mod::lemma_div_pos_is_pos;
use vstd::arithmetic::div_mod::lemma_multiply_divide_lt;
use vstd::arithmetic::mul::lemma_mul_inequality;

verus! {

/// One whole unit of parameter value, in fixed-point millionths.
pub const VALUE_UNIT: i64 = 1_000_000;

/// The curve a scheduled ramp asks the renderer for.
#[derive(Debug, Clone, Copy, PartialEq, Eq, Structural)]
pub enum RampCurve {
    /// Straight-line interpolation toward the target.
    Linear,
    /// Exponential interpolation toward the target; start and target must be
    /// non-zero and of the same sign.
    Exponential,
}

/// One scheduled automation event: reach `target` at context time `end_time`.
#[derive(Debug, Clone, Copy, PartialEq, Eq, Structural)]
pub struct ParamEvent {
    /// Value the parameter reaches exactly at `end_time`, in millionths.
    pub target: i64,
    /// Context-clock time at which `target` is reached, in microseconds.
    pub end_time: u64,
    /// Which curve the renderer draws toward the target.
    pub curve: RampCurve,
}

/// Fixed-point interpolation along the chord from `(t0, v0)` to `(t1, v1)`,
/// evaluated at `t`; rounds toward `v0`.
pub open spec fn ramp_value(v0: int, v1: int, t0: int, t1: int, t: int) -> int {
    if v1 >= v0 {
        v0 + (v1 - v0) * (t - t0) / (t1 - t0)
    } else {
        v0 - (v0 - v1) * (t - t0) / (t1 - t0)
    }
}

/// The model's value inside an exponential segment from `(t0, v0)` to
/// `(t1, v1)`.  Its exact shape is not part of the public contract: callers
/// may rely only on what holds of the true exponential curve, stated by
/// [`lemma_exponential_segment_bounds`].  Internally the sampler
/// approximates the curve by its chord, which obeys those bounds.
pub closed spec fn exp_segment_value(v0: int, v1: int, t0: int, t1: int, t: int) -> int {
    ramp_value(v0, v1, t0, t1, t)
}

/// The value of a schedule at time `t`, starting from value `v0` held since
/// time `t0`: the first event whose end time lies beyond `t` is being ramped
/// toward -- along the chord for a linear ramp, along
/// [`exp_segment_value`] for an exponential one -- and after the last event
/// its target holds forever.
pub open spec fn sample_events(v0: int, t0: int, evs: Seq<ParamEvent>, t: int) -> int
    decreases evs.len(),
{
    if evs.len() == 0 {
        v0
    } else if t < evs[0].end_time {
        match evs[0].curve {
            RampCurve::Linear => ramp_value(v0, evs[0].target as int, t0, evs[0].end_time as int, t),
            RampCurve::Exponential => exp_segment_value(
                v0,
                evs[0].target as int,
                t0,
                evs[0].end_time as int,
                t,
            ),
        }
    } else {
        sample_events(evs[0].target as int, evs[0].end_time as int, evs.drop_first(), t)
    }
}

/// How many leading events of `evs` end strictly before time `t`.
pub open spec fn cut_index(evs: Seq<ParamEvent>, t: int) -> int
    decreases evs.len(),
{
    if evs.len() == 0 {
        0
    } else if evs[0].end_time < t {
        1 + cut_index(evs.drop_first(), t)
    } else {
        0
    }
}

/// A scheduled automation timeline attached to one control input of one node.
#[derive(Debug)]
pub struct AudioParam {
    /// The held value before the first scheduled event, in millionths.
    pub base_value: i64,
    /// The context-clock time since which `base_value` has held.
    pub base_time: u64,
    /// Future events, in strictly increasing order of end time.
    pub events: Vec<ParamEvent>,
}

impl AudioParam {
    /// Event end times strictly increase, and all lie after the base time.
    pub open spec fn wf(self) -> bool {
        &&& (self.events@.len() > 0 ==> self.base_time < self.events@[0].end_time)
        &&& (forall|i: int, j: int|
            0 <= i < j < self.events@.len() ==> #[trigger] self.events@[i].end_time
                < #[trigger] self.events@[j].end_time)
    }

    /// The time of the last scheduled event, or the base time if none.
    pub open spec fn last_time(self) -> int {
        if self.events@.len() == 0 {
            self.base_time as int
        } else {
            self.events@[self.events@.len() - 1].end_time as int
        }
    }

    /// The value after every scheduled event has run out.
    pub open spec fn last_value(self) -> int {
        if self.events@.len() == 0 {
            self.base_value as int
        } else {
            self.events@[self.events@.len() - 1].target as int
        }
    }

    /// The effective value of the timeline at context time `t`.
    pub open spec fn sample(self, t: int) -> int {
        if t < self.base_time {
            self.base_value as int
        } else {
            sample_events(self.base_value as int, self.base_time as int, self.events@, t)
        }
    }

    /// A fresh timeline holding `value` from the start of time.
    pub fn new(value: i64) -> (r: AudioParam)
        ensures
            r.base_value == value,
            r.base_time == 0,
            r.events@.len() == 0,
            r.wf(),
    {
        AudioParam { base_value: value, base_time: 0, events: Vec::new() }
    }

    /// Immediately steps the value to `value`, recording an implicit set at
    /// the clock reading `now`: the hold is rebased to `(now, value)`, events
    /// that already ran out (ending at or before `now`) are dropped, and a
    /// ramp still pending keeps its target but now starts from the new hold.
    /// At and before `now` the timeline reads exactly `value`.
    pub fn set_value(&mut self, value: i64, now: u64)
        requires
            old(self).wf(),
        ensures
            final(self).wf(),
            final(self).base_value == value,
            final(self).base_time == now,
            final(self).events@ == old(self).events@.skip(
                cut_index(old(self).events@, now as int + 1),
            ),
            forall|t: int| t <= now ==> final(self).sample(t) == value,
    {
        let ghost before = *self;
        let mut k: usize = 0;
        while k < self.events.len() && self.events[k].end_time <= now
            invariant
                *self == before,
                k <= self.events@.len(),
                forall|i: int| 0 <= i < k ==> #[trigger] self.events@[i].end_time <= now,
            decreases self.events@.len() - k,
        {
            k += 1;
        }
        proof {
            lemma_cut_index_is(self.events@, now as int + 1, k as int);
        }
        let mut kept: Vec<ParamEvent> = Vec::new();
        let mut i: usize = k;
        proof {
            assert(self.events@.subrange(k as int, k as int) =~= Seq::<ParamEvent>::empty());
        }
        while i < self.events.len()
            invariant
                *self == before,
                k <= i <= self.events@.len(),
                kept@ == self.events@.subrange(k as int, i as int),
            decreases self.events@.len() - i,
        {
            let e = self.events[i];
            kept.push(e);
            proof {
                assert(self.events@.subrange(k as int, i + 1) =~= self.events@.subrange(
                    k as int,
                    i as int,
                ).push(e));
            }
            i += 1;
        }
        self.events = kept;
        self.base_value = value;
        self.base_time = now;
        proof {
            assert(before.events@.subrange(k as int, before.events@.len() as int)
                =~= before.events@.skip(k as int));
            assert forall|a: int, b: int|
                0 <= a < b < self.events@.len() implies #[trigger] self.events@[a].end_time
                < #[trigger] self.events@[b].end_time by {
                assert(self.events@[a] == before.events@[k + a]);
                assert(self.events@[b] == before.events@[k + b]);
            }
            if self.events@.len() > 0 {
                assert(self.events@[0] == before.events@[k as int]);
            }
            assert forall|t: int| t <= now implies self.sample(t) == value by {
                if t == now {
                    lemma_sample_at_start(value as int, now as int, self.events@);
                }
            }
        }
    }

    /// The effective value at the clock reading `now`: the base value before
    /// the schedule begins, the chord value inside a pending ramp, and the
    /// last target after the schedule runs out.  Future scheduled events do
    /// not show up before their time.
    pub fn value(&self, now: u64) -> (r: i64)
        requires
            self.wf(),
        ensures
            r as int == self.sample(now as int),
    {
        self.value_at(now)
    }

    /// Schedules a straight-line ramp reaching `value` exactly at context
    /// time `end_time`, which must lie after every already-scheduled event.
    pub fn linear_ramp_to_value_at_time(&mut self, value: i64, end_time: u64)
        requires
            old(self).wf(),
            end_time > old(self).last_time(),
        ensures
            final(self).wf(),
            final(self).base_value == old(self).base_value,
            final(self).base_time == old(self).base_time,
            final(self).events@ == old(self).events@.push(
                ParamEvent { target: value, end_time, curve: RampCurve::Linear },
            ),
            final(self).last_time() == end_time,
    {
        self.events.push(ParamEvent { target: value, end_time, curve: RampCurve::Linear });
    }

    /// Schedules an exponential ramp reaching `value` exactly at context time
    /// `end_time`.  The curve is undefined across zero, so the ramp's start
    /// and target must be non-zero and share a sign.  Of the curve's interior
    /// the timeline promises only what holds of the true exponential shape:
    /// it meets both endpoints exactly and stays between them
    /// ([`lemma_exponential_segment_bounds`]).
    pub fn exponential_ramp_to_value_at_time(&mut self, value: i64, end_time: u64)
        requires
            old(self).wf(),
            end_time > old(self).last_time(),
            value != 0,
            old(self).last_value() != 0,
            (value > 0) <==> (old(self).last_value() > 0),
        ensures
            final(self).wf(),
            final(self).base_value == old(self).base_value,
            final(self).base_time == old(self).base_time,
            final(self).events@ == old(self).events@.push(
                ParamEvent { target: value, end_time, curve: RampCurve::Exponential },
            ),
            final(self).last_time() == end_time,
    {
        self.events.push(ParamEvent { target: value, end_time, curve: RampCurve::Exponential });
    }

    /// Samples the timeline at context time `t`; the body of [`Self::value`].
    fn value_at(&self, t: u64) -> (r: i64)
        requires
            self.wf(),
        ensures
            r as int == self.sample(t as int),
    {
        if t < self.base_time {
            return self.base_value;
        }
        let ghost all = self.events@;
        let mut v0: i64 = self.base_value;
        let mut t0: u64 = self.base_time;
        let mut i: usize = 0;
        proof {
            assert(all.skip(0) =~= all);
        }
        while i < self.events.len()
            invariant
                self.wf(),
                all == self.events@,
                i <= all.len(),
                t0 <= t,
                i == 0 ==> v0 == self.base_value && t0 == self.base_time,
                i > 0 ==> v0 == all[i - 1].target && t0 == all[i - 1].end_time,
                sample_events(self.base_value as int, self.base_time as int, all, t as int)
                    == sample_events(v0 as int, t0 as int, all.skip(i as int), t as int),
            decreases all.len() - i,
        {
            let e = self.events[i];
            proof {
                assert(all.skip(i as int)[0] == e);
                assert(t0 < e.end_time);
            }
            if t < e.end_time {
                let r = chord_at(v0, e.target, t0, e.end_time, t);
                return r;
            }
            proof {
                assert(all.skip(i as int).drop_first() =~= all.skip(i + 1));
            }
            v0 = e.target;
            t0 = e.end_time;
            i += 1;
        }
        proof {
            assert(all.skip(all.len() as int).len() == 0);
        }
        v0
    }

    /// Discards every scheduled event ending at or after `cancel_time`, and
    /// holds, from `cancel_time` on, the value that would have been effective
    /// then: a ramp cut mid-flight is pinned at its chord value at the cut,
    /// and a cancel before the hold began simply empties the schedule.
    pub fn cancel_scheduled_changes(&mut self, cancel_time: u64)
        requires
            old(self).wf(),
        ensures
            final(self).wf(),
            final(self).base_value == old(self).base_value,
            final(self).base_time == old(self).base_time,
            forall|i: int|
                0 <= i < final(self).events@.len()
                    ==> (#[trigger] final(self).events@[i]).end_time <= cancel_time,
            final(self).events@ == ({
                let k = cut_index(old(self).events@, cancel_time as int);
                if k == old(self).events@.len() {
                    old(self).events@
                } else if cancel_time <= old(self).base_time {
                    Seq::<ParamEvent>::empty()
                } else {
                    old(self).events@.subrange(0, k).push(
                        ParamEvent {
                            target: old(self).sample(cancel_time as int) as i64,
                            end_time: cancel_time,
                            curve: RampCurve::Linear,
                        },
                    )
                }
            }),
            forall|s: int|
                s >= cancel_time ==> final(self).sample(s) == old(self).sample(cancel_time as int),
    {
        let ghost before = *self;
        let v_t = self.value_at(cancel_time);
        let mut k: usize = 0;
        while k < self.events.len() && self.events[k].end_time < cancel_time
            invariant
                *self == before,
                k <= self.events@.len(),
                forall|i: int| 0 <= i < k ==> #[trigger] self.events@[i].end_time < cancel_time,
            decreases self.events@.len() - k,
        {
            k += 1;
        }
        proof {
            lemma_cut_index_is(self.events@, cancel_time as int, k as int);
        }
        let dropped = k < self.events.len();
        self.events.truncate(k);
        if dropped && cancel_time > self.base_time {
            self.events.push(
                ParamEvent { target: v_t, end_time: cancel_time, curve: RampCurve::Linear },
            );
        }
        proof {
            let t = cancel_time as int;
            assert forall|s: int| s >= t implies self.sample(s) == before.sample(t) by {
                assert(forall|i: int|
                    0 <= i < self.events@.len() ==> #[trigger] self.events@[i].end_time <= s);
                lemma_sample_past_end(
                    self.base_value as int,
                    self.base_time as int,
                    self.events@,
                    s,
                );
                if !dropped {
                    lemma_sample_past_end(
                        before.base_value as int,
                        before.base_time as int,
                        before.events@,
                        t,
                    );
                } else if cancel_time == before.base_time {
                    lemma_sample_at_start(
                        before.base_value as int,
                        before.base_time as int,
                        before.events@,
                    );
                }
                // A cancel before the hold began reads the base value on
                // both sides: the old sample at the cut and every new
                // sample are the base value itself.
            }
        }
    }
}

/// Exact evaluation of [`ramp_value`] in fixed-point arithmetic.
fn chord_at(v0: i64, v1: i64, t0: u64, t1: u64, t: u64) -> (r: i64)
    requires
        t0 < t1,
        t0 <= t <= t1,
    ensures
        r as int == ramp_value(v0 as int, v1 as int, t0 as int, t1 as int, t as int),
{
    let span: u128 = (t1 - t0) as u128;
    let dt: u128 = (t - t0) as u128;
    if v1 >= v0 {
        let diff: u128 = ((v1 as i128) - (v0 as i128)) as u128;
        proof {
            assert(diff == v1 - v0);
            assert(diff * dt <= u128::MAX) by (nonlinear_arith)
                requires
                    diff <= u64::MAX as u128 + 1,
                    dt <= u64::MAX as u128,
            ;
        }
        let q: u128 = diff * dt / span;
        proof {
            assert(diff * dt <= diff * span) by (nonlinear_arith)
                requires
                    dt <= span,
            ;
            lemma_div_is_ordered((diff * dt) as int, (diff * span) as int, span as int);
            assert((diff * span) as int == (span as int) * (diff as int)) by (nonlinear_arith);
            lemma_div_multiples_vanish(diff as int, span as int);
            lemma_div_pos_is_pos((diff * dt) as int, span as int);
            assert(q <= diff);
        }
        let res: i128 = (v0 as i128) + (q as i128);
        proof {
            assert(v0 as i128 <= res <= v1 as i128);
        }
        res as i64
    } else {
        let diff: u128 = ((v0 as i128) - (v1 as i128)) as u128;
        proof {
            assert(diff == v0 - v1);
            assert(diff * dt <= u128::MAX) by (nonlinear_arith)
                requires
                    diff <= u64::MAX as u128 + 1,
                    dt <= u64::MAX as u128,
            ;
        }
        let q: u128 = diff * dt / span;
        proof {
            assert(diff * dt <= diff * span) by (nonlinear_arith)
                requires
                    dt <= span,
            ;
            lemma_div_is_ordered((diff * dt) as int, (diff * span) as int, span as int);
            assert((diff * span) as int == (span as int) * (diff as int)) by (nonlinear_arith);
            lemma_div_multiples_vanish(diff as int, span as int);
            lemma_div_pos_is_pos((diff * dt) as int, span as int);
            assert(q <= diff);
        }
        let res: i128 = (v0 as i128) - (q as i128);
        proof {
            assert(v1 as i128 <= res <= v0 as i128);
        }
        res as i64
    }
}

/// At the start of a chord the sampled value is the start value.
pub proof fn lemma_ramp_value_at_start(v0: int, v1: int, t0: int, t1: int)
    requires
        t0 < t1,
    ensures
        ramp_value(v0, v1, t0, t1, t0) == v0,
{
    if v1 >= v0 {
        assert((v1 - v0) * 0 == 0);
        assert(0int / (t1 - t0) == 0);
    } else {
        assert((v0 - v1) * 0 == 0);
        assert(0int / (t1 - t0) == 0);
    }
}

/// A chord's sampled value stays between its endpoints.
pub proof fn lemma_ramp_value_bounds(v0: int, v1: int, t0: int, t1: int, t: int)
    requires
        t0 < t1,
        t0 <= t <= t1,
    ensures
        v0 <= v1 ==> v0 <= ramp_value(v0, v1, t0, t1, t) <= v1,
        v1 <= v0 ==> v1 <= ramp_value(v0, v1, t0, t1, t) <= v0,
{
    if v1 >= v0 {
        lemma_mul_inequality(t - t0, t1 - t0, v1 - v0);
        lemma_div_is_ordered((v1 - v0) * (t - t0), (v1 - v0) * (t1 - t0), t1 - t0);
        lemma_div_multiples_vanish(v1 - v0, t1 - t0);
        lemma_div_pos_is_pos((v1 - v0) * (t - t0), t1 - t0);
    } else {
        lemma_mul_inequality(t - t0, t1 - t0, v0 - v1);
        lemma_div_is_ordered((v0 - v1) * (t - t0), (v0 - v1) * (t1 - t0), t1 - t0);
        lemma_div_multiples_vanish(v0 - v1, t1 - t0);
        lemma_div_pos_is_pos((v0 - v1) * (t - t0), t1 - t0);
    }
}

/// What the public model guarantees of an exponential segment's interior:
/// it starts exactly at the segment's start value and stays between the
/// segment's endpoints, as the true exponential curve does.  Nothing more
/// is promised of its shape.
pub proof fn lemma_exponential_segment_bounds(v0: int, v1: int, t0: int, t1: int, t: int)
    requires
        t0 < t1,
        t0 <= t <= t1,
    ensures
        v0 <= v1 ==> v0 <= exp_segment_value(v0, v1, t0, t1, t) <= v1,
        v1 <= v0 ==> v1 <= exp_segment_value(v0, v1, t0, t1, t) <= v0,
        t == t0 ==> exp_segment_value(v0, v1, t0, t1, t) == v0,
{
    lemma_ramp_value_bounds(v0, v1, t0, t1, t);
    if t == t0 {
        lemma_ramp_value_at_start(v0, v1, t0, t1);
    }
}

/// Strictly inside a rising chord the sampled value stays strictly below
/// the target, and strictly above the start once the ramp has progressed
/// far enough for the fixed-point quantum: `(t - t0) * (v1 - v0) >= t1 - t0`.
/// Before that point the rounded value can still sit on the start value.
pub proof fn lemma_ramp_value_strict(v0: int, v1: int, t0: int, t1: int, t: int)
    requires
        t0 < t < t1,
        v0 < v1,
    ensures
        v0 <= ramp_value(v0, v1, t0, t1, t) < v1,
        (t - t0) * (v1 - v0) >= t1 - t0 ==> v0 < ramp_value(v0, v1, t0, t1, t),
{
    let d = v1 - v0;
    let num = d * (t - t0);
    let span = t1 - t0;
    assert(num == (t - t0) * d) by (nonlinear_arith)
        requires
            num == d * (t - t0),
    ;
    lemma_div_pos_is_pos(num, span);
    assert(num >= 0) by (nonlinear_arith)
        requires
            num == d * (t - t0),
            d > 0,
            t - t0 > 0,
    ;
    if num >= span {
        assert(num / span >= span / span) by {
            lemma_div_is_ordered(span, num, span);
        }
        assert(span / span == 1) by {
            lemma_div_multiples_vanish(1, span);
        }
    }
    assert(num < span * d) by (nonlinear_arith)
        requires
            num == d * (t - t0),
            t - t0 < span,
            d > 0,
    ;
    lemma_multiply_divide_lt(num, span, d);
}

/// After the last event of a schedule has ended, its last target holds.
pub proof fn lemma_sample_past_end(v0: int, t0: int, evs: Seq<ParamEvent>, s: int)
    requires
        forall|i: int| 0 <= i < evs.len() ==> #[trigger] evs[i].end_time <= s,
    ensures
        evs.len() == 0 ==> sample_events(v0, t0, evs, s) == v0,
        evs.len() > 0 ==> sample_events(v0, t0, evs, s) == evs[evs.len() - 1].target,
    decreases evs.len(),
{
    if evs.len() > 0 {
        assert(evs[0].end_time <= s);
        lemma_sample_past_end(evs[0].target as int, evs[0].end_time as int, evs.drop_first(), s);
        if evs.len() > 1 {
            assert(evs.drop_first()[evs.drop_first().len() - 1] == evs[evs.len() - 1]);
        }
    }
}

/// Sampling exactly at the base time yields the base value, provided every
/// event ends after the base time.
pub proof fn lemma_sample_at_start(v0: int, t0: int, evs: Seq<ParamEvent>)
    requires
        evs.len() > 0 ==> t0 < evs[0].end_time,
    ensures
        sample_events(v0, t0, evs, t0) == v0,
{
    if evs.len() > 0 {
        lemma_ramp_value_at_start(v0, evs[0].target as int, t0, evs[0].end_time as int);
    }
}

/// Every scheduled event's target is reached exactly at its end time:
/// sampling the schedule at that time yields that target, whatever curve
/// leads there and whatever follows.
proof fn lemma_events_reach_target(v0: int, t0: int, evs: Seq<ParamEvent>, i: int)
    requires
        0 <= i < evs.len(),
        t0 < evs[0].end_time,
        forall|a: int, b: int|
            0 <= a < b < evs.len() ==> #[trigger] evs[a].end_time < #[trigger] evs[b].end_time,
    ensures
        sample_events(v0, t0, evs, evs[i].end_time as int) == evs[i].target,
    decreases i,
{
    let t = evs[i].end_time as int;
    let rest = evs.drop_first();
    assert(forall|a: int| 0 <= a < rest.len() ==> rest[a] == evs[a + 1]);
    assert(t >= evs[0].end_time);
    assert(sample_events(v0, t0, evs, t) == sample_events(
        evs[0].target as int,
        evs[0].end_time as int,
        rest,
        t,
    ));
    if i == 0 {
        if rest.len() > 0 {
            assert(t < rest[0].end_time);
            lemma_sample_at_start(evs[0].target as int, evs[0].end_time as int, rest);
        }
    } else {
        lemma_events_reach_target(evs[0].target as int, evs[0].end_time as int, rest, i - 1);
        assert(rest[i - 1] == evs[i]);
    }
}

/// A timeline reaches each of its scheduled targets exactly at the
/// scheduled time.
pub proof fn lemma_schedule_reaches_targets(p: AudioParam, i: int)
    requires
        p.wf(),
        0 <= i < p.events@.len(),
    ensures
        p.sample(p.events@[i].end_time as int) == p.events@[i].target,
{
    lemma_events_reach_target(p.base_value as int, p.base_time as int, p.events@, i);
}

/// For a sorted schedule, the first index at or past `t` determines
/// [`cut_index`].
proof fn lemma_cut_index_is(evs: Seq<ParamEvent>, t: int, k: int)
    requires
        0 <= k <= evs.len(),
        forall|i: int| 0 <= i < k ==> #[trigger] evs[i].end_time < t,
        k < evs.len() ==> evs[k].end_time >= t,
    ensures
        cut_index(evs, t) == k,
    decreases evs.len(),
{
    if evs.len() == 0 {
    } else if evs[0].end_time < t {
        assert(k > 0);
        assert forall|i: int|
            0 <= i < k - 1 implies #[trigger] evs.drop_first()[i].end_time < t by {
            assert(evs.drop_first()[i] == evs[i + 1]);
        };
        if k - 1 < evs.drop_first().len() {
            assert(evs.drop_first()[k - 1] == evs[k]);
        }
        lemma_cut_index_is(evs.drop_first(), t, k - 1);
    } else {
        assert(k == 0);
    }
}

/// A rising ramp scheduled from a held value: at any time strictly between
/// the hold and the ramp's end the sampled value lies strictly below the
/// target and at or above the held value -- strictly above it once past the
/// fixed-point quantum -- and at the end time it equals the target exactly.
pub proof fn lemma_linear_ramp_monotone(p: AudioParam, t: u64)
    requires
        p.wf(),
        p.events@.len() == 1,
        p.events@[0].curve == RampCurve::Linear,
        p.base_value < p.events@[0].target,
        p.base_time < t < p.events@[0].end_time,
    ensures
        p.base_value <= p.sample(t as int) < p.events@[0].target,
        (t - p.base_time) * (p.events@[0].target - p.base_value)
            >= p.events@[0].end_time - p.base_time ==> p.base_value < p.sample(t as int),
        p.sample(p.events@[0].end_time as int) == p.events@[0].target,
{
    let e = p.events@[0];
    lemma_ramp_value_strict(
        p.base_value as int,
        e.target as int,
        p.base_time as int,
        e.end_time as int,
        t as int,
    );
    assert(p.events@.drop_first().len() == 0);
    assert(p.sample(e.end_time as int) == sample_events(
        e.target as int,
        e.end_time as int,
        p.events@.drop_first(),
        e.end_time as int,
    ));
}

} // verus!
