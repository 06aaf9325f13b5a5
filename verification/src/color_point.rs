//! A point of the unit cube together with its colour.

use crate::arithmetic::{constant, lit, modulo, plus, times, yields, Arithmetic, Term, Value};
use crate::conversion::{colour_of_point, hsl_to_point, point_of_colour, point_to_hsl};
use crate::errors::PolineErrors;
use crate::scalar::{Scalar, FULL_TURN, HUNDRED, ZERO};
use crate::types::Vector3;
use vstd::prelude::*;
use vstd::std_specs::cmp::PartialEqSpecImpl;
use vstd::string::StringExecFns;

verus! {

/// What a colour point is made from: a position or a colour, and how
/// lightness is read. Where both are given, the position decides.
#[derive(Clone, Copy, Debug)]
pub struct ColorPointCollection {
    pub xyz: Option<Vector3>,
    pub color: Option<Vector3>,
    pub inverted_lightness: bool,
}

/// A position `(x, y, z)` and a colour, one computed from the other.
#[derive(Clone, Copy, Debug)]
pub struct ColorPoint {
    x: Scalar,
    y: Scalar,
    z: Scalar,
    color: Vector3,
    inverted_lightness: bool,
}

/// The hue `h` turned by `angle` degrees: `(360 + (h + angle))` modulo 360.
pub open spec fn turned_hue(h: Scalar, angle: Scalar) -> Term {
    modulo(plus(constant(FULL_TURN), plus(lit(h), lit(angle))), constant(FULL_TURN))
}

/// A share of one as a percentage: `a * 100`.
pub open spec fn percent(a: Scalar) -> Term {
    times(lit(a), constant(HUNDRED))
}

/// Whether `text` is what `k` may display for a scalar that it yields for `t`.
pub open spec fn displayed<K: Arithmetic>(k: &K, t: Term, text: Seq<char>) -> bool {
    exists|s: Scalar, out: String|
        #![trigger call_ensures(K::display, (k, s), out)]
        yields(k, t, s) && call_ensures(K::display, (k, s), out) && out@ == text
}

/// The text of a colour for a style sheet, from the texts of its hue and of
/// its saturation and lightness as percentages. The text has no closing
/// bracket.
pub open spec fn css_text(hue: Seq<char>, saturation: Seq<char>, lightness: Seq<char>) -> Seq<char> {
    "hsl("@ + hue + ","@ + saturation + "%,"@ + lightness + "%"@
}

/// Whether `css` is a style-sheet text that `k` may give for `color`.
pub open spec fn css_of<K: Arithmetic>(k: &K, color: Vector3, css: Seq<char>) -> bool {
    exists|hue: Seq<char>, saturation: Seq<char>, lightness: Seq<char>|
        #![trigger css_text(hue, saturation, lightness)]
        {
            &&& displayed(k, lit(color.0), hue)
            &&& displayed(k, percent(color.1), saturation)
            &&& displayed(k, percent(color.2), lightness)
            &&& css == css_text(hue, saturation, lightness)
        }
}

fn display<K: Arithmetic>(k: &K, v: &Value) -> (text: String)
    requires
        v.sound(k),
    ensures
        displayed(k, v.term@, text@),
{
    k.display(v.scalar)
}

impl ColorPoint {
    /// How lightness is read: fixed when the point is made.
    pub closed spec fn inverted_lightness(self) -> bool {
        self.inverted_lightness
    }

    /// The position.
    pub closed spec fn xyz(self) -> Vector3 {
        Vector3(self.x, self.y, self.z)
    }

    /// The colour.
    pub closed spec fn colour(self) -> Vector3 {
        self.color
    }

    /// Position and colour belong together: `k` may compute one of them from
    /// the other.
    pub open spec fn consistent<K: Arithmetic>(self, k: &K) -> bool {
        ||| colour_of_point(k, self.xyz(), self.inverted_lightness(), self.colour())
        ||| point_of_colour(k, self.colour(), self.inverted_lightness(), self.xyz())
    }

    /// The point at `xyz` with the colour that `k` may compute for it.
    pub open spec fn from_position<K: Arithmetic>(self, k: &K, xyz: Vector3, inverted: bool) -> bool {
        &&& self.xyz() == xyz
        &&& self.inverted_lightness() == inverted
        &&& colour_of_point(k, xyz, inverted, self.colour())
    }

    /// The point with the colour `hsl` at the position that `k` may compute
    /// for it.
    pub open spec fn from_colour<K: Arithmetic>(self, k: &K, hsl: Vector3, inverted: bool) -> bool {
        &&& self.colour() == hsl
        &&& self.inverted_lightness() == inverted
        &&& point_of_colour(k, hsl, inverted, self.xyz())
    }

    /// The point with the given position, colour and reading of lightness,
    /// taken as they are: nothing is computed, and the position and the
    /// colour need not belong together.
    pub fn from_parts(xyz: Vector3, color: Vector3, inverted_lightness: bool) -> (point: ColorPoint)
        ensures
            point.xyz() == xyz,
            point.colour() == color,
            point.inverted_lightness() == inverted_lightness,
    {
        ColorPoint { x: xyz.0, y: xyz.1, z: xyz.2, color, inverted_lightness }
    }

    /// Whether the point reads lightness inverted.
    pub fn is_inverted(&self) -> (inverted: bool)
        ensures
            inverted == self.inverted_lightness(),
    {
        self.inverted_lightness
    }

    /// A point from a position or from a colour. A position is taken where
    /// one is given, whether or not a colour is given too; else the colour.
    /// With neither there is no point.
    pub fn new<K: Arithmetic>(k: &K, initial: ColorPointCollection) -> (made: Result<
        ColorPoint,
        PolineErrors,
    >)
        ensures
            match (initial.xyz, initial.color) {
                (Some(xyz), _) => made is Ok && made->Ok_0.from_position(
                    k,
                    xyz,
                    initial.inverted_lightness,
                ),
                (None, Some(hsl)) => made is Ok && made->Ok_0.from_colour(
                    k,
                    hsl,
                    initial.inverted_lightness,
                ),
                (None, None) => made == Err::<ColorPoint, PolineErrors>(
                    PolineErrors::MissingArgument,
                ),
            },
            made is Ok ==> made->Ok_0.consistent(k),
    {
        match (initial.xyz, initial.color) {
            (Some(xyz), _) => Ok(ColorPoint::at_position(k, xyz, initial.inverted_lightness)),
            (None, Some(hsl)) => Ok(ColorPoint::of_colour(k, hsl, initial.inverted_lightness)),
            (None, None) => Err(PolineErrors::MissingArgument),
        }
    }

    /// The point at `xyz`, with its colour.
    pub fn at_position<K: Arithmetic>(k: &K, xyz: Vector3, inverted_lightness: bool) -> (point:
        ColorPoint)
        ensures
            point.from_position(k, xyz, inverted_lightness),
            point.consistent(k),
    {
        ColorPoint {
            x: xyz.0,
            y: xyz.1,
            z: xyz.2,
            color: point_to_hsl(k, xyz, inverted_lightness),
            inverted_lightness,
        }
    }

    /// The point of the colour `hsl`.
    pub fn of_colour<K: Arithmetic>(k: &K, hsl: Vector3, inverted_lightness: bool) -> (point:
        ColorPoint)
        ensures
            point.from_colour(k, hsl, inverted_lightness),
            point.consistent(k),
    {
        let Vector3(x, y, z) = hsl_to_point(k, hsl, inverted_lightness);
        ColorPoint { x, y, z, color: hsl, inverted_lightness }
    }

    /// Moves the point to `new_position` and gives it the colour of that
    /// position.
    pub fn set_position<K: Arithmetic>(&mut self, k: &K, new_position: Vector3)
        ensures
            final(self).from_position(k, new_position, old(self).inverted_lightness()),
            final(self).consistent(k),
    {
        self.x = new_position.0;
        self.y = new_position.1;
        self.z = new_position.2;
        self.color = point_to_hsl(k, new_position, self.inverted_lightness);
    }

    /// The position.
    pub fn position(&self) -> (xyz: Vector3)
        ensures
            xyz == self.xyz(),
    {
        Vector3(self.x, self.y, self.z)
    }

    /// Gives the point the colour `new_color` and moves it to the position
    /// of that colour.
    pub fn set_hsl<K: Arithmetic>(&mut self, k: &K, new_color: Vector3)
        ensures
            final(self).from_colour(k, new_color, old(self).inverted_lightness()),
            final(self).consistent(k),
    {
        self.color = new_color;
        let Vector3(x, y, z) = hsl_to_point(k, new_color, self.inverted_lightness);
        self.x = x;
        self.y = y;
        self.z = z;
    }

    /// The colour.
    pub fn hsl(&self) -> (hsl: Vector3)
        ensures
            hsl == self.colour(),
    {
        self.color
    }

    /// The colour as text for a style sheet: `hsl(`, the hue, a comma, the
    /// saturation as a percentage, `%,`, the lightness as a percentage and
    /// `%`. No bracket closes the text.
    pub fn hsl_css<K: Arithmetic>(&self, k: &K) -> (css: String)
        ensures
            css_of(k, self.colour(), css@),
    {
        let Vector3(h, s, l) = self.color;
        let hundred = Value::constant(HUNDRED);
        let hue = display(k, &Value::given(h));
        let saturation = display(k, &Value::given(s).times(k, &hundred));
        let lightness = display(k, &Value::given(l).times(k, &hundred));
        let mut css = String::from_str("hsl(");
        css.append(hue.as_str());
        css.append(",");
        css.append(saturation.as_str());
        css.append("%,");
        css.append(lightness.as_str());
        css.append("%");
        proof {
            assert(css@ == css_text(hue@, saturation@, lightness@));
        }
        css
    }

    /// Turns the hue by `angle` degrees, within one turn, and moves the point
    /// to the position of the new colour. Saturation and lightness stay.
    pub fn shift_hue<K: Arithmetic>(&mut self, k: &K, angle: Scalar)
        ensures
            yields(k, turned_hue(old(self).colour().0, angle), final(self).colour().0),
            final(self).colour().1 == old(self).colour().1,
            final(self).colour().2 == old(self).colour().2,
            final(self).from_colour(k, final(self).colour(), old(self).inverted_lightness()),
            final(self).consistent(k),
    {
        let full_turn = Value::constant(FULL_TURN);
        let shifted = Value::given(self.color.0).plus(k, &Value::given(angle));
        let hue = full_turn.plus(k, &shifted).modulo(k, &full_turn);
        let color = Vector3(hue.scalar, self.color.1, self.color.2);
        self.set_hsl(k, color);
    }

    /// Both have the same numbers as position and as colour, and read
    /// lightness the same way.
    pub open spec fn same_point(self, other: ColorPoint) -> bool {
        &&& self.xyz().same_numbers(other.xyz())
        &&& self.colour().same_numbers(other.colour())
        &&& self.inverted_lightness() == other.inverted_lightness()
    }
}

impl Default for ColorPoint {
    /// The point at the origin with all of its colour zero. It is a blank to
    /// fill in, not a point with its colour.
    fn default() -> (point: ColorPoint)
        ensures
            point.xyz() == Vector3(Scalar(ZERO), Scalar(ZERO), Scalar(ZERO)),
            point.colour() == Vector3(Scalar(ZERO), Scalar(ZERO), Scalar(ZERO)),
            !point.inverted_lightness(),
    {
        ColorPoint {
            x: Scalar(ZERO),
            y: Scalar(ZERO),
            z: Scalar(ZERO),
            color: Vector3(Scalar(ZERO), Scalar(ZERO), Scalar(ZERO)),
            inverted_lightness: false,
        }
    }
}

impl PartialEq for ColorPoint {
    fn eq(&self, other: &ColorPoint) -> (r: bool) {
        self.x.equals(other.x) && self.y.equals(other.y) && self.z.equals(other.z)
            && self.color.0.equals(other.color.0) && self.color.1.equals(other.color.1)
            && self.color.2.equals(other.color.2) && self.inverted_lightness
            == other.inverted_lightness
    }
}

impl PartialEqSpecImpl for ColorPoint {
    open spec fn obeys_eq_spec() -> bool {
        true
    }

    open spec fn eq_spec(&self, other: &ColorPoint) -> bool {
        self.same_point(*other)
    }
}

} // verus!
