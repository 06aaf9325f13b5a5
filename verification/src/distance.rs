//! The distance between two masked triples.

use crate::arithmetic::{
    absolute, constant, least, lit, minus, over, plus, root, times, yields, Arithmetic, Term, Value,
};
use crate::scalar::{Scalar, FULL_TURN, ZERO};
use crate::types::PartialVector3;
use vstd::prelude::*;

verus! {

/// The gap between two hues around the circle, as a share of a full turn:
/// the smaller of `|a - b|` and `360 - |a - b|`, divided by 360.
pub open spec fn hue_gap(a: Scalar, b: Scalar) -> Term {
    let apart = absolute(minus(lit(a), lit(b)));
    over(least(apart, minus(constant(FULL_TURN), apart)), constant(FULL_TURN))
}

/// What the first axis adds to a distance: nothing where either side is
/// absent; else the gap around the circle in hue mode, and the difference
/// `a - b` otherwise.
pub open spec fn first_axis(a: Option<Scalar>, b: Option<Scalar>, hue_mode: bool) -> Term {
    match (a, b) {
        (Some(a), Some(b)) => if hue_mode {
            hue_gap(a, b)
        } else {
            minus(lit(a), lit(b))
        },
        _ => constant(ZERO),
    }
}

/// What the second or third axis adds to a distance: nothing where either
/// side is absent, else the difference `b - a`.
pub open spec fn later_axis(a: Option<Scalar>, b: Option<Scalar>) -> Term {
    match (a, b) {
        (Some(a), Some(b)) => minus(lit(b), lit(a)),
        _ => constant(ZERO),
    }
}

/// The Euclidean norm `sqrt(a * a + b * b + c * c)`.
pub open spec fn norm(a: Term, b: Term, c: Term) -> Term {
    root(plus(plus(times(a, a), times(b, b)), times(c, c)))
}

/// The distance between two masked triples.
pub open spec fn distance_between(one: PartialVector3, other: PartialVector3, hue_mode: bool) -> Term {
    norm(first_axis(one.0, other.0, hue_mode), later_axis(one.1, other.1), later_axis(one.2, other.2))
}

fn first_axis_value<K: Arithmetic>(k: &K, a: Option<Scalar>, b: Option<Scalar>, hue_mode: bool) -> (v:
    Value)
    ensures
        v.sound(k),
        v.term@ == first_axis(a, b, hue_mode),
{
    match (a, b) {
        (Some(a), Some(b)) => {
            let apart = Value::given(a).minus(k, &Value::given(b));
            if hue_mode {
                let full_turn = Value::constant(FULL_TURN);
                let apart = apart.absolute(k);
                apart.least(k, &full_turn.minus(k, &apart)).over(k, &full_turn)
            } else {
                apart
            }
        },
        _ => Value::constant(ZERO),
    }
}

fn later_axis_value<K: Arithmetic>(k: &K, a: Option<Scalar>, b: Option<Scalar>) -> (v: Value)
    ensures
        v.sound(k),
        v.term@ == later_axis(a, b),
{
    match (a, b) {
        (Some(a), Some(b)) => Value::given(b).minus(k, &Value::given(a)),
        _ => Value::constant(ZERO),
    }
}

/// The distance between `one` and `other`: the Euclidean norm of what the three
/// axes add. An axis that is absent on either side adds nothing. In hue
/// mode the first axis is measured around the circle, as a share of a full
/// turn.
pub fn distance<K: Arithmetic>(k: &K, one: PartialVector3, other: PartialVector3, hue_mode: bool) -> (d:
    Scalar)
    ensures
        yields(k, distance_between(one, other, hue_mode), d),
{
    let a = first_axis_value(k, one.0, other.0, hue_mode);
    let b = later_axis_value(k, one.1, other.1);
    let c = later_axis_value(k, one.2, other.2);
    let squares = a.times(k, &a).plus(k, &b.times(k, &b)).plus(k, &c.times(k, &c));
    squares.root(k).scalar
}

} // verus!
