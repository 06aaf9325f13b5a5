//! Pairs and triples of scalars.

use crate::scalar::Scalar;
use vstd::prelude::*;
use vstd::std_specs::cmp::PartialEqSpecImpl;

verus! {

/// Two scalars.
#[derive(Clone, Copy, Debug)]
pub struct Vector2(pub Scalar, pub Scalar);

/// Three scalars: a point `(x, y, z)`, or a colour as hue in degrees,
/// saturation and lightness.
#[derive(Clone, Copy, Debug)]
pub struct Vector3(pub Scalar, pub Scalar, pub Scalar);

/// Three scalars of which any may be absent: a mask for a distance.
#[derive(Clone, Copy, Debug)]
pub struct PartialVector3(pub Option<Scalar>, pub Option<Scalar>, pub Option<Scalar>);

/// Two components that are both absent, or both present and the same number.
pub open spec fn same_component(a: Option<Scalar>, b: Option<Scalar>) -> bool {
    match (a, b) {
        (Some(x), Some(y)) => x.same_number(y),
        (None, None) => true,
        _ => false,
    }
}

fn component_equals(a: Option<Scalar>, b: Option<Scalar>) -> (r: bool)
    ensures
        r == same_component(a, b),
{
    match (a, b) {
        (Some(x), Some(y)) => x.equals(y),
        (None, None) => true,
        _ => false,
    }
}

impl Vector2 {
    /// Componentwise numeric equality.
    pub open spec fn same_numbers(self, other: Vector2) -> bool {
        self.0.same_number(other.0) && self.1.same_number(other.1)
    }
}

impl PartialEq for Vector2 {
    fn eq(&self, other: &Vector2) -> (r: bool) {
        self.0.equals(other.0) && self.1.equals(other.1)
    }
}

impl PartialEqSpecImpl for Vector2 {
    open spec fn obeys_eq_spec() -> bool {
        true
    }

    open spec fn eq_spec(&self, other: &Vector2) -> bool {
        self.same_numbers(*other)
    }
}

impl Vector3 {
    /// Componentwise numeric equality.
    pub open spec fn same_numbers(self, other: Vector3) -> bool {
        &&& self.0.same_number(other.0)
        &&& self.1.same_number(other.1)
        &&& self.2.same_number(other.2)
    }
}

impl PartialEq for Vector3 {
    fn eq(&self, other: &Vector3) -> (r: bool) {
        self.0.equals(other.0) && self.1.equals(other.1) && self.2.equals(other.2)
    }
}

impl PartialEqSpecImpl for Vector3 {
    open spec fn obeys_eq_spec() -> bool {
        true
    }

    open spec fn eq_spec(&self, other: &Vector3) -> bool {
        self.same_numbers(*other)
    }
}

impl PartialVector3 {
    /// The mask with the given components.
    pub fn new(x: Option<Scalar>, y: Option<Scalar>, z: Option<Scalar>) -> (v: PartialVector3)
        ensures
            v == PartialVector3(x, y, z),
    {
        PartialVector3(x, y, z)
    }

    /// Componentwise equality: the same axes are present, with the same
    /// numbers.
    pub open spec fn same_numbers(self, other: PartialVector3) -> bool {
        &&& same_component(self.0, other.0)
        &&& same_component(self.1, other.1)
        &&& same_component(self.2, other.2)
    }
}

impl PartialEq for PartialVector3 {
    fn eq(&self, other: &PartialVector3) -> (r: bool) {
        component_equals(self.0, other.0) && component_equals(self.1, other.1) && component_equals(
            self.2,
            other.2,
        )
    }
}

impl PartialEqSpecImpl for PartialVector3 {
    open spec fn obeys_eq_spec() -> bool {
        true
    }

    open spec fn eq_spec(&self, other: &PartialVector3) -> bool {
        self.same_numbers(*other)
    }
}

/// The mask in which every component of `vector3` is present.
pub fn optional_vector3(vector3: Vector3) -> (partial: PartialVector3)
    ensures
        partial == PartialVector3(Some(vector3.0), Some(vector3.1), Some(vector3.2)),
{
    let Vector3(x, y, z) = vector3;
    PartialVector3(Some(x), Some(y), Some(z))
}

} // verus!
