//! Sampling: the curve as a strip of points, one for each step of the
//! parameter.

use crate::blend::{blend, blend_between};
use crate::curve::{keys_up_to, lemma_keys_up_to_splits, lemma_split_is_keys_up_to, sorted, Curve};
use crate::key::{Interpolation, Key};
use crate::screen::{ScreenPos, DELTA_T};
use vstd::arithmetic::div_mod::{
    lemma_fundamental_div_mod, lemma_fundamental_div_mod_converse_div, lemma_mod_bound,
};
use vstd::prelude::*;

verus! {

/// Index of the control point whose segment holds the parameter `t`: the last
/// one whose parameter is at most `t`.
pub open spec fn lower_key(keys: Seq<Key>, t: int) -> int {
    keys_up_to(keys, t) - 1
}

/// The point that stands for the parameter `t` in the strip. On a Bézier
/// segment it is the point of the curve; on every other segment its abscissa
/// is `t` itself, so that the strip shows the ordinate over the parameter.
pub open spec fn line_point(keys: Seq<Key>, t: int) -> ScreenPos {
    let i = lower_key(keys, t);
    let p = blend(keys[i], keys[i + 1], t);
    if keys[i].interpolation is Bezier {
        p
    } else {
        ScreenPos { x: t as i32, y: p.y }
    }
}

/// How many parameters the strip visits before the last control point: those
/// that lie whole steps behind the first parameter and before the last.
pub open spec fn sample_count(keys: Seq<Key>) -> int {
    (keys.last().t - keys[0].t + (DELTA_T - 1)) / (DELTA_T as int)
}

/// The strip of points that stands for the curve: nothing for fewer than two
/// control points; else a point for each step of the parameter from the first
/// control point up to the last one, and the last control point itself.
pub open spec fn sampled_curve(keys: Seq<Key>) -> Seq<ScreenPos> {
    if keys.len() < 2 {
        Seq::empty()
    } else {
        Seq::new(
            sample_count(keys) as nat,
            |k: int| line_point(keys, keys[0].t + k * DELTA_T),
        ).push(keys.last().value)
    }
}

/// A curve of no or one control point has no strip.
pub proof fn lemma_short_curve_has_no_strip(keys: Seq<Key>)
    requires
        keys.len() <= 1,
    ensures
        sampled_curve(keys) == Seq::<ScreenPos>::empty(),
{
}

/// The strip of a curve of two or more control points ends exactly on the
/// last of them.
pub proof fn lemma_strip_ends_on_last_key(keys: Seq<Key>)
    requires
        keys.len() >= 2,
    ensures
        sampled_curve(keys).len() >= 1,
        sampled_curve(keys).last() == keys.last().value,
{
}

/// A parameter from the first control point on and short of the last lies on
/// a segment of the curve: between a control point and the next one, whose
/// parameter is larger.
pub proof fn lemma_lower_key_holds(keys: Seq<Key>, t: int)
    requires
        sorted(keys),
        keys.len() >= 2,
        keys[0].t <= t < keys.last().t,
    ensures
        0 <= lower_key(keys, t) < keys.len() - 1,
        keys[lower_key(keys, t)].t <= t < keys[lower_key(keys, t) + 1].t,
{
    lemma_keys_up_to_splits(keys, t);
    let p = keys_up_to(keys, t) as int;
    if p == 0 {
        assert(keys[0].t > t);
    }
    if p == keys.len() {
        assert(keys[keys.len() - 1].t <= t);
    }
}

/// The strip walks the parameters in rising order, a step apart, from the
/// first control point on and short of the last one. Each of its points but
/// the last stands for one of them, and has it for abscissa where the segment
/// is no Bézier one.
pub proof fn lemma_strip_walks_the_parameters(keys: Seq<Key>, k: int)
    requires
        sorted(keys),
        keys.len() >= 2,
        0 <= k < sample_count(keys),
    ensures
        sampled_curve(keys).len() == sample_count(keys) + 1,
        keys[0].t <= keys[0].t + k * DELTA_T < keys.last().t,
        sampled_curve(keys)[k] == line_point(keys, keys[0].t + k * DELTA_T),
        !(keys[lower_key(keys, keys[0].t + k * DELTA_T)].interpolation is Bezier)
            ==> sampled_curve(keys)[k].x == keys[0].t + k * DELTA_T,
{
    let span = keys.last().t - keys[0].t + (DELTA_T - 1);
    let count = sample_count(keys);
    assert(keys[0].t <= keys.last().t);
    lemma_fundamental_div_mod(span, DELTA_T as int);
    lemma_mod_bound(span, DELTA_T as int);
    assert(0 <= k * DELTA_T <= (count - 1) * DELTA_T) by (nonlinear_arith)
        requires
            0 <= k <= count - 1,
            DELTA_T == 100,
    ;
    assert(DELTA_T * count == (count - 1) * DELTA_T + DELTA_T) by (nonlinear_arith);
}

/// Finds the control point whose segment holds `t`.
fn lower_key_index(keys: &Vec<Key>, t: i32) -> (i: usize)
    requires
        sorted(keys@),
        keys@.len() >= 2,
        keys@[0].t <= t < keys@.last().t,
    ensures
        i == lower_key(keys@, t as int),
        i + 1 < keys.len(),
        keys@[i as int].t <= t < keys@[i + 1].t,
{
    let mut i: usize = 0;
    while keys[i + 1].t <= t
        invariant
            sorted(keys@),
            i + 1 < keys.len(),
            keys@[i as int].t <= t < keys@.last().t,
        decreases keys.len() - i,
    {
        i += 1;
    }
    proof {
        assert forall|j: int| 0 <= j < i + 1 implies (#[trigger] keys@[j]).t <= t by {
            assert(keys@[j].t <= keys@[i as int].t);
        }
        assert forall|j: int| i + 1 <= j < keys@.len() implies (#[trigger] keys@[j]).t > t by {
            assert(keys@[i + 1].t <= keys@[j].t);
        }
        lemma_split_is_keys_up_to(keys@, t as int, i + 1);
    }
    i
}

/// Samples sorted control points into their strip.
fn sample_keys(keys: &Vec<Key>) -> (strip: Vec<ScreenPos>)
    requires
        sorted(keys@),
    ensures
        strip@ == sampled_curve(keys@),
{
    let mut strip: Vec<ScreenPos> = Vec::new();
    if keys.len() < 2 {
        return strip;
    }
    let first: i32 = keys[0].t;
    let up_t: i32 = keys[keys.len() - 1].t;
    let mut t: i64 = first as i64;
    let ghost mut count: int = 0;
    while t < up_t as i64
        invariant
            sorted(keys@),
            keys@.len() >= 2,
            first == keys@[0].t,
            up_t == keys@.last().t,
            0 <= count,
            t == first + count * DELTA_T,
            t - DELTA_T < up_t,
            strip@ == Seq::new(count as nat, |k: int| line_point(keys@, first + k * DELTA_T)),
        decreases up_t + DELTA_T - t,
    {
        assert(DELTA_T == 100);
        let at: i32 = t as i32;
        let i: usize = lower_key_index(keys, at);
        let mut p = blend_between(&keys[i], &keys[i + 1], at);
        match keys[i].interpolation {
            Interpolation::Bezier(_) => {},
            _ => {
                p.x = at;
            },
        }
        strip.push(p);
        t = t + DELTA_T as i64;
        proof {
            count = count + 1;
            assert(strip@ =~= Seq::new(
                count as nat,
                |k: int| line_point(keys@, first + k * DELTA_T),
            ));
        }
    }
    proof {
        let span = up_t - first + (DELTA_T - 1);
        lemma_fundamental_div_mod_converse_div(
            span,
            DELTA_T as int,
            count,
            span - count * DELTA_T,
        );
    }
    strip.push(keys[keys.len() - 1].value);
    strip
}

impl Curve {
    /// Samples the curve into a strip of points.
    pub fn sample_curve(&self) -> (strip: Vec<ScreenPos>)
        ensures
            strip@ == sampled_curve(self@),
            self@.len() <= 1 ==> strip@.len() == 0,
            self@.len() >= 2 ==> strip@.len() >= 1 && strip@.last() == self@.last().value,
    {
        let keys = self.keys();
        sample_keys(&keys)
    }
}

} // verus!
