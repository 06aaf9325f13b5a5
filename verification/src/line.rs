//! Points on the line between two points, each axis eased on its own.

use crate::arithmetic::{constant, lit, plus, times, yields, Arithmetic, Term, Value};
use crate::positions::{complement, ease, eased, PositionScale};
use crate::scalar::{Scalar, ONE, ZERO};
use crate::types::Vector3;
use vstd::prelude::*;

verus! {

/// The parameter along one axis: `t` eased by the axis's scale in the given
/// direction; without a scale, `t` itself, or `1 - t` where the line is
/// inverted.
pub open spec fn axis_parameter(scale: Option<PositionScale>, t: Term, invert: bool) -> Term {
    match scale {
        Some(scale) => eased(scale, t, invert),
        None => if invert {
            complement(t)
        } else {
            t
        },
    }
}

/// The linear interpolation `(1 - t) * from + t * to`.
pub open spec fn interpolated(t: Term, from: Scalar, to: Scalar) -> Term {
    plus(times(complement(t), lit(from)), times(t, lit(to)))
}

/// One coordinate of the point at `t` between `from` and `to`.
pub open spec fn coordinate_on_line(
    t: Scalar,
    from: Scalar,
    to: Scalar,
    invert: bool,
    scale: Option<PositionScale>,
) -> Term {
    interpolated(axis_parameter(scale, lit(t), invert), from, to)
}

/// Whether `point` is one that `k` may compute at `t` between `start` and `end`.
pub open spec fn point_on_line<K: Arithmetic>(
    k: &K,
    t: Scalar,
    start: Vector3,
    end: Vector3,
    invert: bool,
    fx: Option<PositionScale>,
    fy: Option<PositionScale>,
    fz: Option<PositionScale>,
    point: Vector3,
) -> bool {
    &&& yields(k, coordinate_on_line(t, start.0, end.0, invert, fx), point.0)
    &&& yields(k, coordinate_on_line(t, start.1, end.1, invert, fy), point.1)
    &&& yields(k, coordinate_on_line(t, start.2, end.2, invert, fz), point.2)
}

/// The parameter of sample `i` of `count`: the whole quotient of `i` by
/// `count - 1`, as a scalar. The quotient is 1 for the last sample and 0 for
/// every sample before it.
pub open spec fn sample_parameter(i: int, count: int) -> Scalar {
    if i / (count - 1) == 0 {
        Scalar(ZERO)
    } else {
        Scalar(ONE)
    }
}

/// Among `count` samples, two or more, the whole quotient of the index by
/// `count - 1` is 1 at the last index and 0 before it.
pub proof fn lemma_sample_quotient(i: int, count: int)
    requires
        count >= 2,
        0 <= i < count,
    ensures
        i / (count - 1) == (if i == count - 1 {
            1int
        } else {
            0int
        }),
{
    if i == count - 1 {
        vstd::arithmetic::div_mod::lemma_div_basics(i);
    } else {
        vstd::arithmetic::div_mod::lemma_basic_div(i, count - 1);
    }
}

fn coordinate<K: Arithmetic>(
    k: &K,
    t: Scalar,
    from: Scalar,
    to: Scalar,
    invert: bool,
    scale: Option<PositionScale>,
) -> (r: Scalar)
    ensures
        yields(k, coordinate_on_line(t, from, to, invert, scale), r),
{
    let t = Value::given(t);
    let one = Value::constant(ONE);
    let parameter = match scale {
        Some(scale) => ease(k, scale, &t, invert),
        None => {
            if invert {
                one.minus(k, &t)
            } else {
                t
            }
        },
    };
    let left = one.minus(k, &parameter).times(k, &Value::given(from));
    let right = parameter.times(k, &Value::given(to));
    left.plus(k, &right).scalar
}

/// The point at `t` between `start` and `end`. Each axis has its own parameter:
/// `t` eased by the scale of that axis in the direction `invert`; on an axis
/// without a scale, `t`, or `1 - t` where `invert` is set.
pub fn vector_on_line<K: Arithmetic>(
    k: &K,
    t: Scalar,
    start: Vector3,
    end: Vector3,
    invert: bool,
    fx: Option<PositionScale>,
    fy: Option<PositionScale>,
    fz: Option<PositionScale>,
) -> (point: Vector3)
    ensures
        point_on_line(k, t, start, end, invert, fx, fy, fz, point),
{
    let x = coordinate(k, t, start.0, end.0, invert, fx);
    let y = coordinate(k, t, start.1, end.1, invert, fy);
    let z = coordinate(k, t, start.2, end.2, invert, fz);
    Vector3(x, y, z)
}

/// The number of samples taken where none is asked for.
pub const DEFAULT_SAMPLES: usize = 4;

/// The number of samples that `vectors_on_line` takes.
pub open spec fn sample_count(num_points: Option<usize>) -> int {
    match num_points {
        Some(n) => n as int,
        None => DEFAULT_SAMPLES as int,
    }
}

/// Samples of the line between `start` and `end`: as many as `num_points` says,
/// four by default. Sample `i` is the point at the whole quotient of `i` by
/// the number of samples less one, so every sample but the last is taken at
/// zero and the last at one. No single sample can be asked for: its
/// parameter would be a quotient by zero.
pub fn vectors_on_line<K: Arithmetic>(
    k: &K,
    start: Vector3,
    end: Vector3,
    num_points: Option<usize>,
    invert: bool,
    fx: Option<PositionScale>,
    fy: Option<PositionScale>,
    fz: Option<PositionScale>,
) -> (points: Vec<Vector3>)
    requires
        num_points != Some(1usize),
    ensures
        points@.len() == sample_count(num_points),
        forall|i: int|
            0 <= i < points@.len() ==> point_on_line(
                k,
                sample_parameter(i, sample_count(num_points)),
                start,
                end,
                invert,
                fx,
                fy,
                fz,
                #[trigger] points@[i],
            ),
{
    let count: usize = match num_points {
        Some(n) => n,
        None => DEFAULT_SAMPLES,
    };
    let mut points: Vec<Vector3> = Vec::new();
    let mut i: usize = 0;
    while i < count
        invariant
            count == sample_count(num_points),
            count != 1,
            i <= count,
            points@.len() == i,
            forall|j: int|
                0 <= j < i ==> point_on_line(
                    k,
                    sample_parameter(j, count as int),
                    start,
                    end,
                    invert,
                    fx,
                    fy,
                    fz,
                    #[trigger] points@[j],
                ),
        decreases count - i,
    {
        let quotient: usize = i / (count - 1);
        let t = if quotient == 0 {
            Scalar(ZERO)
        } else {
            Scalar(ONE)
        };
        let point = vector_on_line(k, t, start, end, invert, fx, fy, fz);
        points.push(point);
        i += 1;
    }
    points
}

} // verus!
