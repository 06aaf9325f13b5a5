//! Random anchor colours: a start colour and its companions, which lie 60 to
//! 240 degrees further round the hue circle.

use crate::arithmetic::{constant, lit, modulo, plus, times, yields, Arithmetic, Term, Value};
use crate::scalar::{Scalar, FULL_TURN, HALF_TURN, ONE_FIFTH, SIXTY, THREE_QUARTERS, THREE_TENTHS};
use crate::types::{Vector2, Vector3};
use vstd::prelude::*;

verus! {

/// The term of a given scalar, or `otherwise` where none is given.
pub open spec fn given_or(given: Option<Scalar>, otherwise: Term) -> Term {
    match given {
        Some(s) => lit(s),
        None => otherwise,
    }
}

/// A random hue: a draw times 360.
pub open spec fn drawn_hue() -> Term {
    times(Term::Draw, constant(FULL_TURN))
}

/// A random lightness from `base` up to 0.2 above it.
pub open spec fn drawn_lightness(base: u32) -> Term {
    plus(constant(base), times(Term::Draw, constant(ONE_FIFTH)))
}

/// The hue of a companion of the colour with hue `start`: 60 degrees
/// further, and a draw times 180 degrees more, within one turn.
pub open spec fn companion_hue(start: Scalar) -> Term {
    modulo(
        plus(plus(lit(start), constant(SIXTY)), times(Term::Draw, constant(HALF_TURN))),
        constant(FULL_TURN),
    )
}

/// Whether `colour` is a start colour that `k` may choose.
pub open spec fn start_colour<K: Arithmetic>(
    k: &K,
    start_hue: Option<Scalar>,
    saturation: Option<Scalar>,
    lightness: Option<Scalar>,
    colour: Vector3,
) -> bool {
    &&& yields(k, given_or(start_hue, drawn_hue()), colour.0)
    &&& yields(k, given_or(saturation, Term::Draw), colour.1)
    &&& yields(k, given_or(lightness, drawn_lightness(THREE_QUARTERS)), colour.2)
}

/// Whether `colour` is a companion that `k` may choose for the start colour
/// with hue `start`. The base of a drawn lightness is given by its encoding.
pub open spec fn companion_colour<K: Arithmetic>(
    k: &K,
    start: Scalar,
    saturation: Option<Scalar>,
    lightness: Option<Scalar>,
    lightness_base: u32,
    colour: Vector3,
) -> bool {
    &&& yields(k, companion_hue(start), colour.0)
    &&& yields(k, given_or(saturation, Term::Draw), colour.1)
    &&& yields(k, given_or(lightness, drawn_lightness(lightness_base)), colour.2)
}

/// The first component, where a pair is given.
pub open spec fn first_of(pair: Option<Vector2>) -> Option<Scalar> {
    match pair {
        Some(v) => Some(v.0),
        None => None,
    }
}

/// The second component, where a pair is given.
pub open spec fn second_of(pair: Option<Vector2>) -> Option<Scalar> {
    match pair {
        Some(v) => Some(v.1),
        None => None,
    }
}

/// The component at `axis`, where a triple is given.
pub open spec fn component_of(triple: Option<Vector3>, axis: int) -> Option<Scalar> {
    match triple {
        Some(v) => Some(
            if axis == 0 {
                v.0
            } else if axis == 1 {
                v.1
            } else {
                v.2
            },
        ),
        None => None,
    }
}

fn draw_hue<K: Arithmetic>(k: &K) -> (v: Value)
    ensures
        v.sound(k),
        v.term@ == drawn_hue(),
{
    Value::draw(k).times(k, &Value::constant(FULL_TURN))
}

fn draw_lightness<K: Arithmetic>(k: &K, base: u32) -> (v: Value)
    ensures
        v.sound(k),
        v.term@ == drawn_lightness(base),
{
    Value::constant(base).plus(k, &Value::draw(k).times(k, &Value::constant(ONE_FIFTH)))
}

fn draw_companion_hue<K: Arithmetic>(k: &K, start: Scalar) -> (hue: Scalar)
    ensures
        yields(k, companion_hue(start), hue),
{
    let full_turn = Value::constant(FULL_TURN);
    let further = Value::given(start).plus(k, &Value::constant(SIXTY));
    let spread = Value::draw(k).times(k, &Value::constant(HALF_TURN));
    further.plus(k, &spread).modulo(k, &full_turn).scalar
}

fn pick<K: Arithmetic>(k: &K, given: Option<Scalar>, drawn: Value) -> (r: Scalar)
    requires
        drawn.sound(k),
    ensures
        yields(k, given_or(given, drawn.term@), r),
{
    match given {
        Some(s) => s,
        None => drawn.scalar,
    }
}

/// Two anchor colours: a start colour, and a companion further round the
/// hue circle. What is given is taken as it is. A hue that is not given is a
/// draw times 360, a saturation a draw, the lightness of the start colour
/// 0.75 and of the companion 0.3, each plus a draw times 0.2.
pub fn random_hsl_pair<K: Arithmetic>(
    k: &K,
    start_hue: Option<Scalar>,
    saturations: Option<Vector2>,
    lightnesses: Option<Vector2>,
) -> (colours: Vec<Vector3>)
    ensures
        colours@.len() == 2,
        start_colour(k, start_hue, first_of(saturations), first_of(lightnesses), colours@[0]),
        companion_colour(
            k,
            colours@[0].0,
            second_of(saturations),
            second_of(lightnesses),
            THREE_TENTHS,
            colours@[1],
        ),
{
    let hue = pick(k, start_hue, draw_hue(k));
    let drawn_saturations = (Value::draw(k), Value::draw(k));
    let drawn_lightnesses = (draw_lightness(k, THREE_QUARTERS), draw_lightness(k, THREE_TENTHS));
    let (given_saturations, given_lightnesses) = (
        match saturations {
            Some(v) => (Some(v.0), Some(v.1)),
            None => (None, None),
        },
        match lightnesses {
            Some(v) => (Some(v.0), Some(v.1)),
            None => (None, None),
        },
    );
    let start = Vector3(
        hue,
        pick(k, given_saturations.0, drawn_saturations.0),
        pick(k, given_lightnesses.0, drawn_lightnesses.0),
    );
    let companion = Vector3(
        draw_companion_hue(k, hue),
        pick(k, given_saturations.1, drawn_saturations.1),
        pick(k, given_lightnesses.1, drawn_lightnesses.1),
    );
    let mut colours: Vec<Vector3> = Vec::new();
    colours.push(start);
    colours.push(companion);
    colours
}

/// Three anchor colours: a start colour and two companions, each further
/// round the hue circle from the start colour by a draw of its own. The
/// lightness of the second companion is drawn from 0.75 upwards as that of
/// the start colour is, that of the first from 0.3 upwards.
pub fn random_hsl_triple<K: Arithmetic>(
    k: &K,
    start_hue: Option<Scalar>,
    saturations: Option<Vector3>,
    lightnesses: Option<Vector3>,
) -> (colours: Vec<Vector3>)
    ensures
        colours@.len() == 3,
        start_colour(
            k,
            start_hue,
            component_of(saturations, 0),
            component_of(lightnesses, 0),
            colours@[0],
        ),
        companion_colour(
            k,
            colours@[0].0,
            component_of(saturations, 1),
            component_of(lightnesses, 1),
            THREE_TENTHS,
            colours@[1],
        ),
        companion_colour(
            k,
            colours@[0].0,
            component_of(saturations, 2),
            component_of(lightnesses, 2),
            THREE_QUARTERS,
            colours@[2],
        ),
{
    let hue = pick(k, start_hue, draw_hue(k));
    let drawn_saturations = (Value::draw(k), Value::draw(k), Value::draw(k));
    let drawn_lightnesses = (
        draw_lightness(k, THREE_QUARTERS),
        draw_lightness(k, THREE_TENTHS),
        draw_lightness(k, THREE_QUARTERS),
    );
    let given_saturations = match saturations {
        Some(v) => (Some(v.0), Some(v.1), Some(v.2)),
        None => (None, None, None),
    };
    let given_lightnesses = match lightnesses {
        Some(v) => (Some(v.0), Some(v.1), Some(v.2)),
        None => (None, None, None),
    };
    let start = Vector3(
        hue,
        pick(k, given_saturations.0, drawn_saturations.0),
        pick(k, given_lightnesses.0, drawn_lightnesses.0),
    );
    let first = Vector3(
        draw_companion_hue(k, hue),
        pick(k, given_saturations.1, drawn_saturations.1),
        pick(k, given_lightnesses.1, drawn_lightnesses.1),
    );
    let second = Vector3(
        draw_companion_hue(k, hue),
        pick(k, given_saturations.2, drawn_saturations.2),
        pick(k, given_lightnesses.2, drawn_lightnesses.2),
    );
    let mut colours: Vec<Vector3> = Vec::new();
    colours.push(start);
    colours.push(first);
    colours.push(second);
    colours
}

} // verus!
