//! The operations that round, and the formulas built from them.
//!
//! The palette never rounds a number itself: it asks an [`Arithmetic`] for
//! each sum, product, sine and so on. A formula is written down as a [`Term`],
//! and [`yields`] says which scalars an arithmetic may return for a term. The
//! functions of this crate promise that what they return is yielded by the
//! term of their formula, whatever the arithmetic does.

use crate::scalar::Scalar;
use vstd::prelude::*;

verus! {

/// Single-precision operations on scalars, and a source of random draws.
///
/// Nothing is assumed of an implementation: what it promises of an operation
/// in its own `ensures` is all that is known of that operation's results.
/// One that follows IEEE-754 makes the palette compute what the formulas say
/// in single precision.
pub trait Arithmetic {
    /// `a + b`
    fn sum(&self, a: Scalar, b: Scalar) -> Scalar;

    /// `a - b`
    fn difference(&self, a: Scalar, b: Scalar) -> Scalar;

    /// `a * b`
    fn product(&self, a: Scalar, b: Scalar) -> Scalar;

    /// `a / b`
    fn quotient(&self, a: Scalar, b: Scalar) -> Scalar;

    /// The remainder of `a / b`, with the sign of `a`.
    fn remainder(&self, a: Scalar, b: Scalar) -> Scalar;

    /// `base` raised to `exponent`.
    fn power(&self, base: Scalar, exponent: Scalar) -> Scalar;

    /// The square root of `a`.
    fn square_root(&self, a: Scalar) -> Scalar;

    /// The sine of `a` radians.
    fn sine(&self, a: Scalar) -> Scalar;

    /// The cosine of `a` radians.
    fn cosine(&self, a: Scalar) -> Scalar;

    /// The arcsine of `a`, in radians.
    fn arcsine(&self, a: Scalar) -> Scalar;

    /// The angle of the point `(x, y)` in radians, between minus pi and pi.
    fn arctangent(&self, y: Scalar, x: Scalar) -> Scalar;

    /// The absolute value of `a`.
    fn absolute(&self, a: Scalar) -> Scalar;

    /// The smaller of `a` and `b`.
    fn minimum(&self, a: Scalar, b: Scalar) -> Scalar;

    /// A random draw from the half-open range between zero and one.
    fn random(&self) -> Scalar;

    /// The shortest decimal text that reads back as `a`.
    fn display(&self, a: Scalar) -> String;
}

/// A formula over scalars.
pub enum Term {
    /// A given scalar.
    Lit(Scalar),
    /// A random draw.
    Draw,
    Sum(Box<Term>, Box<Term>),
    Difference(Box<Term>, Box<Term>),
    Product(Box<Term>, Box<Term>),
    Quotient(Box<Term>, Box<Term>),
    Remainder(Box<Term>, Box<Term>),
    Power(Box<Term>, Box<Term>),
    SquareRoot(Box<Term>),
    Sine(Box<Term>),
    Cosine(Box<Term>),
    Arcsine(Box<Term>),
    /// The angle of a point, given as its ordinate and its abscissa.
    Arctangent(Box<Term>, Box<Term>),
    Absolute(Box<Term>),
    Minimum(Box<Term>, Box<Term>),
}

/// The term of a given scalar.
pub open spec fn lit(s: Scalar) -> Term {
    Term::Lit(s)
}

/// The term of the scalar with the given encoding.
pub open spec fn constant(bits: u32) -> Term {
    Term::Lit(Scalar(bits))
}

pub open spec fn plus(a: Term, b: Term) -> Term {
    Term::Sum(Box::new(a), Box::new(b))
}

pub open spec fn minus(a: Term, b: Term) -> Term {
    Term::Difference(Box::new(a), Box::new(b))
}

pub open spec fn times(a: Term, b: Term) -> Term {
    Term::Product(Box::new(a), Box::new(b))
}

pub open spec fn over(a: Term, b: Term) -> Term {
    Term::Quotient(Box::new(a), Box::new(b))
}

pub open spec fn modulo(a: Term, b: Term) -> Term {
    Term::Remainder(Box::new(a), Box::new(b))
}

pub open spec fn raised(base: Term, exponent: Term) -> Term {
    Term::Power(Box::new(base), Box::new(exponent))
}

pub open spec fn root(a: Term) -> Term {
    Term::SquareRoot(Box::new(a))
}

pub open spec fn sine(a: Term) -> Term {
    Term::Sine(Box::new(a))
}

pub open spec fn cosine(a: Term) -> Term {
    Term::Cosine(Box::new(a))
}

pub open spec fn arcsine(a: Term) -> Term {
    Term::Arcsine(Box::new(a))
}

pub open spec fn arctangent(y: Term, x: Term) -> Term {
    Term::Arctangent(Box::new(y), Box::new(x))
}

pub open spec fn absolute(a: Term) -> Term {
    Term::Absolute(Box::new(a))
}

pub open spec fn least(a: Term, b: Term) -> Term {
    Term::Minimum(Box::new(a), Box::new(b))
}

/// Whether the arithmetic `k` may return `r` for the term `t`: a given scalar
/// yields itself, and an operation yields what `k` may return for it on
/// scalars that its operands yield.
pub open spec fn yields<K: Arithmetic>(k: &K, t: Term, r: Scalar) -> bool
    decreases t,
{
    match t {
        Term::Lit(s) => r == s,
        Term::Draw => call_ensures(K::random, (k,), r),
        Term::Sum(a, b) => exists|x: Scalar, y: Scalar|
            #![trigger call_ensures(K::sum, (k, x, y), r)]
            yields(k, *a, x) && yields(k, *b, y) && call_ensures(K::sum, (k, x, y), r),
        Term::Difference(a, b) => exists|x: Scalar, y: Scalar|
            #![trigger call_ensures(K::difference, (k, x, y), r)]
            yields(k, *a, x) && yields(k, *b, y) && call_ensures(K::difference, (k, x, y), r),
        Term::Product(a, b) => exists|x: Scalar, y: Scalar|
            #![trigger call_ensures(K::product, (k, x, y), r)]
            yields(k, *a, x) && yields(k, *b, y) && call_ensures(K::product, (k, x, y), r),
        Term::Quotient(a, b) => exists|x: Scalar, y: Scalar|
            #![trigger call_ensures(K::quotient, (k, x, y), r)]
            yields(k, *a, x) && yields(k, *b, y) && call_ensures(K::quotient, (k, x, y), r),
        Term::Remainder(a, b) => exists|x: Scalar, y: Scalar|
            #![trigger call_ensures(K::remainder, (k, x, y), r)]
            yields(k, *a, x) && yields(k, *b, y) && call_ensures(K::remainder, (k, x, y), r),
        Term::Power(a, b) => exists|x: Scalar, y: Scalar|
            #![trigger call_ensures(K::power, (k, x, y), r)]
            yields(k, *a, x) && yields(k, *b, y) && call_ensures(K::power, (k, x, y), r),
        Term::SquareRoot(a) => exists|x: Scalar|
            #![trigger call_ensures(K::square_root, (k, x), r)]
            yields(k, *a, x) && call_ensures(K::square_root, (k, x), r),
        Term::Sine(a) => exists|x: Scalar|
            #![trigger call_ensures(K::sine, (k, x), r)]
            yields(k, *a, x) && call_ensures(K::sine, (k, x), r),
        Term::Cosine(a) => exists|x: Scalar|
            #![trigger call_ensures(K::cosine, (k, x), r)]
            yields(k, *a, x) && call_ensures(K::cosine, (k, x), r),
        Term::Arcsine(a) => exists|x: Scalar|
            #![trigger call_ensures(K::arcsine, (k, x), r)]
            yields(k, *a, x) && call_ensures(K::arcsine, (k, x), r),
        Term::Arctangent(a, b) => exists|x: Scalar, y: Scalar|
            #![trigger call_ensures(K::arctangent, (k, x, y), r)]
            yields(k, *a, x) && yields(k, *b, y) && call_ensures(K::arctangent, (k, x, y), r),
        Term::Absolute(a) => exists|x: Scalar|
            #![trigger call_ensures(K::absolute, (k, x), r)]
            yields(k, *a, x) && call_ensures(K::absolute, (k, x), r),
        Term::Minimum(a, b) => exists|x: Scalar, y: Scalar|
            #![trigger call_ensures(K::minimum, (k, x, y), r)]
            yields(k, *a, x) && yields(k, *b, y) && call_ensures(K::minimum, (k, x, y), r),
    }
}

/// A scalar together with the term that it was computed for.
pub(crate) struct Value {
    pub(crate) scalar: Scalar,
    pub(crate) term: Ghost<Term>,
}

impl Value {
    /// The scalar is one that `k` yields for the term.
    pub(crate) open spec fn sound<K: Arithmetic>(&self, k: &K) -> bool {
        yields(k, self.term@, self.scalar)
    }

    /// A given scalar, as a value
    pub(crate) fn given(s: Scalar) -> (v: Value)
        ensures
            v.scalar == s,
            v.term@ == lit(s),
    {
        Value { scalar: s, term: Ghost(lit(s)) }
    }

    /// The scalar with the given encoding, as a value.
    pub(crate) fn constant(bits: u32) -> (v: Value)
        ensures
            v.scalar == Scalar(bits),
            v.term@ == constant(bits),
    {
        Value { scalar: Scalar(bits), term: Ghost(constant(bits)) }
    }

    /// A random draw.
    pub(crate) fn draw<K: Arithmetic>(k: &K) -> (v: Value)
        ensures
            v.sound(k),
            v.term@ == Term::Draw,
    {
        Value { scalar: k.random(), term: Ghost(Term::Draw) }
    }

    pub(crate) fn plus<K: Arithmetic>(&self, k: &K, other: &Value) -> (v: Value)
        requires
            self.sound(k),
            other.sound(k),
        ensures
            v.sound(k),
            v.term@ == plus(self.term@, other.term@),
    {
        Value {
            scalar: k.sum(self.scalar, other.scalar),
            term: Ghost(plus(self.term@, other.term@)),
        }
    }

    pub(crate) fn minus<K: Arithmetic>(&self, k: &K, other: &Value) -> (v: Value)
        requires
            self.sound(k),
            other.sound(k),
        ensures
            v.sound(k),
            v.term@ == minus(self.term@, other.term@),
    {
        Value {
            scalar: k.difference(self.scalar, other.scalar),
            term: Ghost(minus(self.term@, other.term@)),
        }
    }

    pub(crate) fn times<K: Arithmetic>(&self, k: &K, other: &Value) -> (v: Value)
        requires
            self.sound(k),
            other.sound(k),
        ensures
            v.sound(k),
            v.term@ == times(self.term@, other.term@),
    {
        Value {
            scalar: k.product(self.scalar, other.scalar),
            term: Ghost(times(self.term@, other.term@)),
        }
    }

    pub(crate) fn over<K: Arithmetic>(&self, k: &K, other: &Value) -> (v: Value)
        requires
            self.sound(k),
            other.sound(k),
        ensures
            v.sound(k),
            v.term@ == over(self.term@, other.term@),
    {
        Value {
            scalar: k.quotient(self.scalar, other.scalar),
            term: Ghost(over(self.term@, other.term@)),
        }
    }

    pub(crate) fn modulo<K: Arithmetic>(&self, k: &K, other: &Value) -> (v: Value)
        requires
            self.sound(k),
            other.sound(k),
        ensures
            v.sound(k),
            v.term@ == modulo(self.term@, other.term@),
    {
        Value {
            scalar: k.remainder(self.scalar, other.scalar),
            term: Ghost(modulo(self.term@, other.term@)),
        }
    }

    pub(crate) fn raised<K: Arithmetic>(&self, k: &K, exponent: &Value) -> (v: Value)
        requires
            self.sound(k),
            exponent.sound(k),
        ensures
            v.sound(k),
            v.term@ == raised(self.term@, exponent.term@),
    {
        Value {
            scalar: k.power(self.scalar, exponent.scalar),
            term: Ghost(raised(self.term@, exponent.term@)),
        }
    }

    pub(crate) fn root<K: Arithmetic>(&self, k: &K) -> (v: Value)
        requires
            self.sound(k),
        ensures
            v.sound(k),
            v.term@ == root(self.term@),
    {
        Value { scalar: k.square_root(self.scalar), term: Ghost(root(self.term@)) }
    }

    pub(crate) fn sine<K: Arithmetic>(&self, k: &K) -> (v: Value)
        requires
            self.sound(k),
        ensures
            v.sound(k),
            v.term@ == sine(self.term@),
    {
        Value { scalar: k.sine(self.scalar), term: Ghost(sine(self.term@)) }
    }

    pub(crate) fn cosine<K: Arithmetic>(&self, k: &K) -> (v: Value)
        requires
            self.sound(k),
        ensures
            v.sound(k),
            v.term@ == cosine(self.term@),
    {
        Value { scalar: k.cosine(self.scalar), term: Ghost(cosine(self.term@)) }
    }

    pub(crate) fn arcsine<K: Arithmetic>(&self, k: &K) -> (v: Value)
        requires
            self.sound(k),
        ensures
            v.sound(k),
            v.term@ == arcsine(self.term@),
    {
        Value { scalar: k.arcsine(self.scalar), term: Ghost(arcsine(self.term@)) }
    }

    /// The angle of the point whose ordinate is this value and whose
    /// abscissa is `x`.
    pub(crate) fn arctangent<K: Arithmetic>(&self, k: &K, x: &Value) -> (v: Value)
        requires
            self.sound(k),
            x.sound(k),
        ensures
            v.sound(k),
            v.term@ == arctangent(self.term@, x.term@),
    {
        Value {
            scalar: k.arctangent(self.scalar, x.scalar),
            term: Ghost(arctangent(self.term@, x.term@)),
        }
    }

    pub(crate) fn absolute<K: Arithmetic>(&self, k: &K) -> (v: Value)
        requires
            self.sound(k),
        ensures
            v.sound(k),
            v.term@ == absolute(self.term@),
    {
        Value { scalar: k.absolute(self.scalar), term: Ghost(absolute(self.term@)) }
    }

    pub(crate) fn least<K: Arithmetic>(&self, k: &K, other: &Value) -> (v: Value)
        requires
            self.sound(k),
            other.sound(k),
        ensures
            v.sound(k),
            v.term@ == least(self.term@, other.term@),
    {
        Value {
            scalar: k.minimum(self.scalar, other.scalar),
            term: Ghost(least(self.term@, other.term@)),
        }
    }
}

} // verus!
