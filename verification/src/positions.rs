//! The position scales: nine easing curves on the range from zero to one.

use crate::arithmetic::{
    arcsine, constant, minus, over, raised, root, sine, times, yields, Arithmetic, Term, Value,
};
use crate::scalar::{Scalar, FIVE, FOUR, ONE, PI, THREE, TWO};
use vstd::prelude::*;

verus! {

/// The easing curves by which a position on an axis is scaled.
#[derive(Clone, Copy, Debug, PartialEq, Eq, Structural)]
pub enum PositionScale {
    Linear,
    Exponential,
    Cubic,
    Quadratic,
    Quartic,
    Sinusoidal,
    Asinusoidal,
    Arc,
    SmoothStep,
}

impl PositionScale {
    /// The number by which a scale is selected from outside.
    pub open spec fn ordinal(self) -> nat {
        match self {
            PositionScale::Linear => 0,
            PositionScale::Exponential => 1,
            PositionScale::Cubic => 2,
            PositionScale::Quadratic => 3,
            PositionScale::Quartic => 4,
            PositionScale::Sinusoidal => 5,
            PositionScale::Asinusoidal => 6,
            PositionScale::Arc => 7,
            PositionScale::SmoothStep => 8,
        }
    }

    /// The position `t` scaled by this curve, forwards or in reverse.
    pub fn position<K: Arithmetic>(self, k: &K, t: Scalar, reverse: bool) -> (r: Scalar)
        ensures
            yields(k, eased(self, Term::Lit(t), reverse), r),
            self is Linear ==> r == t,
    {
        position_from_scale(k, self, t, reverse)
    }
}

/// The scale with the given ordinal.
pub fn number_as_enum(scale_num: usize) -> (scale: PositionScale)
    requires
        scale_num <= 8,
    ensures
        scale.ordinal() == scale_num,
{
    if scale_num == 0 {
        PositionScale::Linear
    } else if scale_num == 1 {
        PositionScale::Exponential
    } else if scale_num == 2 {
        PositionScale::Cubic
    } else if scale_num == 3 {
        PositionScale::Quadratic
    } else if scale_num == 4 {
        PositionScale::Quartic
    } else if scale_num == 5 {
        PositionScale::Sinusoidal
    } else if scale_num == 6 {
        PositionScale::Asinusoidal
    } else if scale_num == 7 {
        PositionScale::Arc
    } else {
        PositionScale::SmoothStep
    }
}

/// `1 - t`
pub open spec fn complement(t: Term) -> Term {
    minus(constant(ONE), t)
}

/// `t` to the power whose encoding is `exponent`; in reverse,
/// `1 - (1 - t)` to that power.
pub open spec fn power_curve(t: Term, exponent: u32, reverse: bool) -> Term {
    if reverse {
        complement(raised(complement(t), constant(exponent)))
    } else {
        raised(t, constant(exponent))
    }
}

/// The sine of `t` quarter turns.
pub open spec fn quarter_sine(t: Term) -> Term {
    sine(over(times(t, constant(PI)), constant(TWO)))
}

/// The arcsine of `t`, in quarter turns.
pub open spec fn quarter_arcsine(t: Term) -> Term {
    over(arcsine(t), over(constant(PI), constant(TWO)))
}

/// The formula of each scale. The names of the four powers are one degree
/// behind their exponents: `Exponential` squares, `Cubic` cubes, `Quadratic`
/// takes the fourth power and `Quartic` the fifth. `SmoothStep` has one
/// formula for both directions.
pub open spec fn eased(scale: PositionScale, t: Term, reverse: bool) -> Term {
    match scale {
        PositionScale::Linear => t,
        PositionScale::Exponential => power_curve(t, TWO, reverse),
        PositionScale::Cubic => power_curve(t, THREE, reverse),
        PositionScale::Quadratic => power_curve(t, FOUR, reverse),
        PositionScale::Quartic => power_curve(t, FIVE, reverse),
        PositionScale::Sinusoidal => if reverse {
            complement(quarter_sine(complement(t)))
        } else {
            quarter_sine(t)
        },
        PositionScale::Asinusoidal => if reverse {
            complement(quarter_arcsine(complement(t)))
        } else {
            quarter_arcsine(t)
        },
        PositionScale::Arc => if reverse {
            root(complement(raised(complement(t), constant(TWO))))
        } else {
            complement(root(complement(t)))
        },
        PositionScale::SmoothStep => raised(
            t,
            times(constant(TWO), minus(constant(THREE), times(constant(TWO), t))),
        ),
    }
}

fn complement_of<K: Arithmetic>(k: &K, t: &Value) -> (v: Value)
    requires
        t.sound(k),
    ensures
        v.sound(k),
        v.term@ == complement(t.term@),
{
    Value::constant(ONE).minus(k, t)
}

fn power_curve_of<K: Arithmetic>(k: &K, t: &Value, exponent: u32, reverse: bool) -> (v: Value)
    requires
        t.sound(k),
    ensures
        v.sound(k),
        v.term@ == power_curve(t.term@, exponent, reverse),
{
    let n = Value::constant(exponent);
    if reverse {
        let powered = complement_of(k, t).raised(k, &n);
        complement_of(k, &powered)
    } else {
        t.raised(k, &n)
    }
}

fn quarter_sine_of<K: Arithmetic>(k: &K, t: &Value) -> (v: Value)
    requires
        t.sound(k),
    ensures
        v.sound(k),
        v.term@ == quarter_sine(t.term@),
{
    t.times(k, &Value::constant(PI)).over(k, &Value::constant(TWO)).sine(k)
}

fn quarter_arcsine_of<K: Arithmetic>(k: &K, t: &Value) -> (v: Value)
    requires
        t.sound(k),
    ensures
        v.sound(k),
        v.term@ == quarter_arcsine(t.term@),
{
    let quarter = Value::constant(PI).over(k, &Value::constant(TWO));
    t.arcsine(k).over(k, &quarter)
}

/// The value of a position scaled by a curve.
pub(crate) fn ease<K: Arithmetic>(k: &K, scale: PositionScale, t: &Value, reverse: bool) -> (v:
    Value)
    requires
        t.sound(k),
    ensures
        v.sound(k),
        v.term@ == eased(scale, t.term@, reverse),
        scale is Linear ==> v.scalar == t.scalar,
{
    match scale {
        PositionScale::Linear => Value { scalar: t.scalar, term: t.term },
        PositionScale::Exponential => power_curve_of(k, t, TWO, reverse),
        PositionScale::Cubic => power_curve_of(k, t, THREE, reverse),
        PositionScale::Quadratic => power_curve_of(k, t, FOUR, reverse),
        PositionScale::Quartic => power_curve_of(k, t, FIVE, reverse),
        PositionScale::Sinusoidal => {
            if reverse {
                let inner = quarter_sine_of(k, &complement_of(k, t));
                complement_of(k, &inner)
            } else {
                quarter_sine_of(k, t)
            }
        },
        PositionScale::Asinusoidal => {
            if reverse {
                let inner = quarter_arcsine_of(k, &complement_of(k, t));
                complement_of(k, &inner)
            } else {
                quarter_arcsine_of(k, t)
            }
        },
        PositionScale::Arc => {
            if reverse {
                let two = Value::constant(TWO);
                let squared = complement_of(k, t).raised(k, &two);
                complement_of(k, &squared).root(k)
            } else {
                let inner = complement_of(k, t).root(k);
                complement_of(k, &inner)
            }
        },
        PositionScale::SmoothStep => {
            let two = Value::constant(TWO);
            let three = Value::constant(THREE);
            let exponent = two.times(k, &three.minus(k, &two.times(k, t)));
            t.raised(k, &exponent)
        },
    }
}

/// The position `t` scaled by the curve `scale`, forwards or in reverse. With
/// the linear scale it is `t` itself, in both directions.
pub fn position_from_scale<K: Arithmetic>(k: &K, scale: PositionScale, t: Scalar, reverse: bool) -> (r:
    Scalar)
    ensures
        yields(k, eased(scale, Term::Lit(t), reverse), r),
        scale is Linear ==> r == t,
{
    ease(k, scale, &Value::given(t), reverse).scalar
}

} // verus!
