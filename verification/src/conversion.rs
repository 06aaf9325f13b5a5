//! The two maps between a point of the unit cube and a colour.
//!
//! The hue is the angle of `(x, y)` around the centre `(0.5, 0.5)`, the
//! saturation is `z`, and the lightness is the distance of `(x, y)` from the
//! centre, in units of 0.5. The map back from a colour takes that distance
//! from the lightness only where lightness is inverted: otherwise it places
//! every colour at distance 0.5, so the two maps are not inverse to each
//! other there.

use crate::arithmetic::{
    arctangent, constant, cosine, lit, minus, modulo, over, plus, raised, root, sine, times,
    yields, Arithmetic, Term, Value,
};
use crate::positions::complement;
use crate::scalar::{Scalar, FULL_TURN, HALF, HALF_TURN, ONE, PI, TWO};
use crate::types::Vector3;
use vstd::prelude::*;

verus! {

/// The degrees in one radian: `180 / pi`.
pub open spec fn degrees_per_radian() -> Term {
    over(constant(HALF_TURN), constant(PI))
}

/// `a - 0.5`
pub open spec fn minus_half(a: Scalar) -> Term {
    minus(lit(a), constant(HALF))
}

/// The hue of a point: the angle of `(x, y)` around the centre, in degrees,
/// turned into the range from 0 to 360 by adding a full turn and taking the
/// remainder.
pub open spec fn hue_of(x: Scalar, y: Scalar) -> Term {
    let radians = arctangent(minus_half(y), minus_half(x));
    modulo(plus(constant(FULL_TURN), times(radians, degrees_per_radian())), constant(FULL_TURN))
}

/// The distance of `(x, y)` from the centre, divided by 0.5.
pub open spec fn radius_of(x: Scalar, y: Scalar) -> Term {
    over(
        root(plus(raised(minus_half(y), constant(TWO)), raised(minus_half(x), constant(TWO)))),
        constant(HALF),
    )
}

/// The lightness of a point: its radius, or one minus its radius where
/// lightness is inverted.
pub open spec fn lightness_of(x: Scalar, y: Scalar, inverted_lightness: bool) -> Term {
    if inverted_lightness {
        complement(radius_of(x, y))
    } else {
        radius_of(x, y)
    }
}

/// The hue in radians: `h / (180 / pi)`.
pub open spec fn radians_of(h: Scalar) -> Term {
    over(lit(h), degrees_per_radian())
}

/// The distance from the centre at which a colour is placed: `(1 - l) * 0.5`
/// where lightness is inverted, and 0.5 whatever the lightness where it is
/// not.
pub open spec fn reach_of(l: Scalar, inverted_lightness: bool) -> Term {
    if inverted_lightness {
        times(complement(lit(l)), constant(HALF))
    } else {
        constant(HALF)
    }
}

/// The abscissa of a colour: `0.5 + reach * cos(hue)`.
pub open spec fn abscissa_of(h: Scalar, l: Scalar, inverted_lightness: bool) -> Term {
    plus(constant(HALF), times(reach_of(l, inverted_lightness), cosine(radians_of(h))))
}

/// The ordinate of a colour: `0.5 + reach * sin(hue)`.
pub open spec fn ordinate_of(h: Scalar, l: Scalar, inverted_lightness: bool) -> Term {
    plus(constant(HALF), times(reach_of(l, inverted_lightness), sine(radians_of(h))))
}

/// Whether `hsl` is a colour that `k` may compute for the point `xyz`.
pub open spec fn colour_of_point<K: Arithmetic>(
    k: &K,
    xyz: Vector3,
    inverted_lightness: bool,
    hsl: Vector3,
) -> bool {
    &&& yields(k, hue_of(xyz.0, xyz.1), hsl.0)
    &&& hsl.1 == xyz.2
    &&& yields(k, lightness_of(xyz.0, xyz.1, inverted_lightness), hsl.2)
}

/// Whether `xyz` is a point that `k` may compute for the colour `hsl`.
pub open spec fn point_of_colour<K: Arithmetic>(
    k: &K,
    hsl: Vector3,
    inverted_lightness: bool,
    xyz: Vector3,
) -> bool {
    &&& yields(k, abscissa_of(hsl.0, hsl.2, inverted_lightness), xyz.0)
    &&& yields(k, ordinate_of(hsl.0, hsl.2, inverted_lightness), xyz.1)
    &&& xyz.2 == hsl.1
}

fn degrees_per_radian_value<K: Arithmetic>(k: &K) -> (v: Value)
    ensures
        v.sound(k),
        v.term@ == degrees_per_radian(),
{
    Value::constant(HALF_TURN).over(k, &Value::constant(PI))
}

/// The colour of the point `xyz`: hue from the angle of `(x, y)` around
/// the centre, saturation `z`, lightness from the distance of `(x, y)` to the
/// centre. Nothing is clamped: far from the centre the lightness leaves the
/// range from zero to one.
pub fn point_to_hsl<K: Arithmetic>(k: &K, xyz: Vector3, inverted_lightness: bool) -> (hsl: Vector3)
    ensures
        colour_of_point(k, xyz, inverted_lightness, hsl),
{
    let Vector3(x, y, z) = xyz;
    let half = Value::constant(HALF);
    let two = Value::constant(TWO);
    let full_turn = Value::constant(FULL_TURN);
    let dx = Value::given(x).minus(k, &half);
    let dy = Value::given(y).minus(k, &half);

    let radians = dy.arctangent(k, &dx);
    let degrees = radians.times(k, &degrees_per_radian_value(k));
    let hue = full_turn.plus(k, &degrees).modulo(k, &full_turn);

    let squares = dy.raised(k, &two).plus(k, &dx.raised(k, &two));
    let radius = squares.root(k).over(k, &half);
    let lightness = if inverted_lightness {
        Value::constant(ONE).minus(k, &radius)
    } else {
        radius
    };
    Vector3(hue.scalar, z, lightness.scalar)
}

/// The point of the colour `hsl`: on the circle around the centre at the
/// angle of the hue, with `z` the saturation. The radius of the circle is
/// `(1 - l) * 0.5` where lightness is inverted and 0.5 where it is not.
pub fn hsl_to_point<K: Arithmetic>(k: &K, hsl: Vector3, inverted_lightness: bool) -> (xyz: Vector3)
    ensures
        point_of_colour(k, hsl, inverted_lightness, xyz),
{
    let Vector3(h, s, l) = hsl;
    let half = Value::constant(HALF);
    let radians = Value::given(h).over(k, &degrees_per_radian_value(k));
    let reach = if inverted_lightness {
        Value::constant(ONE).minus(k, &Value::given(l)).times(k, &half)
    } else {
        Value::constant(HALF)
    };
    let x = half.plus(k, &reach.times(k, &radians.cosine(k)));
    let y = half.plus(k, &reach.times(k, &radians.sine(k)));
    Vector3(x.scalar, y.scalar, s)
}

/// The saturation survives both maps unchanged: a point's colour has the
/// point's `z` as saturation, and that colour's point has it as `z` again.
pub proof fn lemma_saturation_round_trips<K: Arithmetic>(
    k: &K,
    xyz: Vector3,
    inverted_lightness: bool,
    hsl: Vector3,
    back: Vector3,
    again: Vector3,
)
    requires
        colour_of_point(k, xyz, inverted_lightness, hsl),
        point_of_colour(k, hsl, inverted_lightness, back),
        colour_of_point(k, back, inverted_lightness, again),
    ensures
        back.2 == xyz.2,
        again.1 == hsl.1,
{
}

/// Where lightness is not inverted, the point of a colour does not depend on
/// the colour's lightness.
pub proof fn lemma_lightness_ignored<K: Arithmetic>(k: &K, hsl: Vector3, other: Vector3, xyz: Vector3)
    requires
        other.0 == hsl.0,
        other.1 == hsl.1,
        point_of_colour(k, hsl, false, xyz),
    ensures
        point_of_colour(k, other, false, xyz),
{
}

} // verus!
