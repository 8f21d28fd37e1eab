//! Closed forms as data.
//!
//! A solve does not compute a number: it returns the closed form that gives
//! the number, as a tree over the supplied values. The caller evaluates the
//! tree in the arithmetic of its choice, one machine operation per node, in
//! the order that the tree fixes.

use vstd::prelude::*;

verus! {

/// An arithmetic expression over values of type `T`.
///
/// The tree fixes what is computed and in which order; it holds no result.
#[derive(Debug, PartialEq)]
pub enum Formula<T> {
    /// A value that the caller supplied.
    Given(T),
    /// A whole-number constant.
    Whole(u32),
    /// The operand with its sign changed.
    Neg(Box<Formula<T>>),
    /// The natural logarithm of the operand.
    Ln(Box<Formula<T>>),
    /// The sum of the two operands.
    Add(Box<Formula<T>>, Box<Formula<T>>),
    /// The first operand less the second.
    Sub(Box<Formula<T>>, Box<Formula<T>>),
    /// The product of the two operands.
    Mul(Box<Formula<T>>, Box<Formula<T>>),
    /// The first operand divided by the second.
    Div(Box<Formula<T>>, Box<Formula<T>>),
    /// The first operand raised to the power of the second.
    Pow(Box<Formula<T>>, Box<Formula<T>>),
}

impl<T> Formula<T> {
    /// `-self`
    pub open spec fn spec_negated(self) -> Self {
        Formula::Neg(Box::new(self))
    }

    /// `-self`
    #[verifier::when_used_as_spec(spec_negated)]
    pub fn negated(self) -> (f: Self)
        ensures
            f == self.spec_negated(),
    {
        Formula::Neg(Box::new(self))
    }

    /// `ln(self)`
    pub open spec fn spec_ln(self) -> Self {
        Formula::Ln(Box::new(self))
    }

    /// `ln(self)`
    #[verifier::when_used_as_spec(spec_ln)]
    pub fn ln(self) -> (f: Self)
        ensures
            f == self.spec_ln(),
    {
        Formula::Ln(Box::new(self))
    }

    /// `self + rhs`
    pub open spec fn spec_plus(self, rhs: Self) -> Self {
        Formula::Add(Box::new(self), Box::new(rhs))
    }

    /// `self + rhs`
    #[verifier::when_used_as_spec(spec_plus)]
    pub fn plus(self, rhs: Self) -> (f: Self)
        ensures
            f == self.spec_plus(rhs),
    {
        Formula::Add(Box::new(self), Box::new(rhs))
    }

    /// `self - rhs`
    pub open spec fn spec_minus(self, rhs: Self) -> Self {
        Formula::Sub(Box::new(self), Box::new(rhs))
    }

    /// `self - rhs`
    #[verifier::when_used_as_spec(spec_minus)]
    pub fn minus(self, rhs: Self) -> (f: Self)
        ensures
            f == self.spec_minus(rhs),
    {
        Formula::Sub(Box::new(self), Box::new(rhs))
    }

    /// `self * rhs`
    pub open spec fn spec_times(self, rhs: Self) -> Self {
        Formula::Mul(Box::new(self), Box::new(rhs))
    }

    /// `self * rhs`
    #[verifier::when_used_as_spec(spec_times)]
    pub fn times(self, rhs: Self) -> (f: Self)
        ensures
            f == self.spec_times(rhs),
    {
        Formula::Mul(Box::new(self), Box::new(rhs))
    }

    /// `self / rhs`
    pub open spec fn spec_over(self, rhs: Self) -> Self {
        Formula::Div(Box::new(self), Box::new(rhs))
    }

    /// `self / rhs`
    #[verifier::when_used_as_spec(spec_over)]
    pub fn over(self, rhs: Self) -> (f: Self)
        ensures
            f == self.spec_over(rhs),
    {
        Formula::Div(Box::new(self), Box::new(rhs))
    }

    /// `self` raised to the power `exponent`
    pub open spec fn spec_pow(self, exponent: Self) -> Self {
        Formula::Pow(Box::new(self), Box::new(exponent))
    }

    /// `self` raised to the power `exponent`
    #[verifier::when_used_as_spec(spec_pow)]
    pub fn pow(self, exponent: Self) -> (f: Self)
        ensures
            f == self.spec_pow(exponent),
    {
        Formula::Pow(Box::new(self), Box::new(exponent))
    }
}

/// The rate as a fraction: the percentage `i` divided by one hundred.
pub open spec fn spec_rate<T>(i: T) -> Formula<T> {
    Formula::Given(i).over(Formula::Whole(100))
}

/// The rate as a fraction: the percentage `i` divided by one hundred.
#[verifier::when_used_as_spec(spec_rate)]
pub fn rate<T>(i: T) -> (f: Formula<T>)
    ensures
        f == spec_rate(i),
{
    Formula::Given(i).over(Formula::Whole(100))
}

/// What one unit grows to over one period: one plus the rate as a fraction.
pub open spec fn spec_growth<T>(i: T) -> Formula<T> {
    Formula::Whole(1).plus(rate(i))
}

/// What one unit grows to over one period: one plus the rate as a fraction.
#[verifier::when_used_as_spec(spec_growth)]
pub fn growth<T>(i: T) -> (f: Formula<T>)
    ensures
        f == spec_growth(i),
{
    Formula::Whole(1).plus(rate(i))
}

} // verus!
