//! Lump sums: one cash flow that grows at compound interest.

use vstd::prelude::*;
use crate::errors::Error;
use crate::formula::{growth, Formula};
use crate::traits::{FutureValue, InterestRate, NumberOfPeriods, PresentValue};

verus! {

/// A lump sum, with the values that are known of it.
///
/// An absent value is not zero: it is unknown. `i` is a percentage per period.
#[derive(Debug)]
pub struct LumpSum<T> {
    pub fv: Option<T>,
    pub pv: Option<T>,
    pub n: Option<T>,
    pub i: Option<T>,
}

impl<T: Copy> LumpSum<T> {
    /// What `fv`, due in `n` periods, is worth now: `fv / (1 + r)^n`.
    pub open spec fn pv_formula(fv: T, i: T, n: T) -> Formula<T> {
        Formula::Given(fv).over(growth(i).pow(Formula::Given(n)))
    }

    /// What `pv` grows to in `n` periods: `pv * (1 + r)^n`.
    pub open spec fn fv_formula(pv: T, i: T, n: T) -> Formula<T> {
        Formula::Given(pv).times(growth(i).pow(Formula::Given(n)))
    }

    /// The number of periods in which `pv` grows to `fv`: `ln(fv / pv) / ln(1 + r)`.
    pub open spec fn n_formula(pv: T, fv: T, i: T) -> Formula<T> {
        Formula::Given(fv).over(Formula::Given(pv)).ln().over(growth(i).ln())
    }

    /// The rate, in percent, at which `pv` grows to `fv` in `n` periods:
    /// `((fv / pv)^(1 / n) - 1) * 100`.
    pub open spec fn i_formula(pv: T, fv: T, n: T) -> Formula<T> {
        Formula::Given(fv).over(Formula::Given(pv)).pow(
            Formula::Whole(1).over(Formula::Given(n)),
        ).minus(Formula::Whole(1)).times(Formula::Whole(100))
    }
}

impl<T: Copy> PresentValue<T> for LumpSum<T> {
    /// Needs `fv`, `i` and `n`.
    open spec fn pv_spec(&self) -> Result<Formula<T>, Error> {
        match (self.fv, self.i, self.n) {
            (Some(fv), Some(i), Some(n)) => Ok(Self::pv_formula(fv, i, n)),
            (None, _, _) => Err(Error::FutureValue),
            (Some(_), None, _) => Err(Error::InterestRate),
            (Some(_), Some(_), None) => Err(Error::NumberOfPeriods),
        }
    }

    fn pv(&self) -> (solved: Result<Formula<T>, Error>)
        ensures
            solved != Err::<Formula<T>, Error>(Error::Unknown),
    {
        if let (Some(fv), Some(i), Some(n)) = (self.fv, self.i, self.n) {
            Ok(Formula::Given(fv).over(growth(i).pow(Formula::Given(n))))
        } else if self.fv.is_none() {
            Err(Error::FutureValue)
        } else if self.i.is_none() {
            Err(Error::InterestRate)
        } else if self.n.is_none() {
            Err(Error::NumberOfPeriods)
        } else {
            Err(Error::Unknown)
        }
    }
}

impl<T: Copy> FutureValue<T> for LumpSum<T> {
    /// Needs `pv`, `i` and `n`.
    open spec fn fv_spec(&self) -> Result<Formula<T>, Error> {
        match (self.pv, self.i, self.n) {
            (Some(pv), Some(i), Some(n)) => Ok(Self::fv_formula(pv, i, n)),
            (None, _, _) => Err(Error::PresentValue),
            (Some(_), None, _) => Err(Error::InterestRate),
            (Some(_), Some(_), None) => Err(Error::NumberOfPeriods),
        }
    }

    fn fv(&self) -> (solved: Result<Formula<T>, Error>)
        ensures
            solved != Err::<Formula<T>, Error>(Error::Unknown),
    {
        if let (Some(pv), Some(i), Some(n)) = (self.pv, self.i, self.n) {
            Ok(Formula::Given(pv).times(growth(i).pow(Formula::Given(n))))
        } else if self.pv.is_none() {
            Err(Error::PresentValue)
        } else if self.i.is_none() {
            Err(Error::InterestRate)
        } else if self.n.is_none() {
            Err(Error::NumberOfPeriods)
        } else {
            Err(Error::Unknown)
        }
    }
}

impl<T: Copy> NumberOfPeriods<T> for LumpSum<T> {
    /// Needs `pv`, `fv` and `i`.
    open spec fn n_spec(&self) -> Result<Formula<T>, Error> {
        match (self.pv, self.fv, self.i) {
            (Some(pv), Some(fv), Some(i)) => Ok(Self::n_formula(pv, fv, i)),
            (None, _, _) => Err(Error::PresentValue),
            (Some(_), None, _) => Err(Error::FutureValue),
            (Some(_), Some(_), None) => Err(Error::InterestRate),
        }
    }

    fn n(&self) -> (solved: Result<Formula<T>, Error>)
        ensures
            solved != Err::<Formula<T>, Error>(Error::Unknown),
    {
        if let (Some(pv), Some(fv), Some(i)) = (self.pv, self.fv, self.i) {
            Ok(Formula::Given(fv).over(Formula::Given(pv)).ln().over(growth(i).ln()))
        } else if self.pv.is_none() {
            Err(Error::PresentValue)
        } else if self.fv.is_none() {
            Err(Error::FutureValue)
        } else if self.i.is_none() {
            Err(Error::InterestRate)
        } else {
            Err(Error::Unknown)
        }
    }
}

impl<T: Copy> InterestRate<T> for LumpSum<T> {
    /// Needs `pv`, `fv` and `n`.
    open spec fn i_spec(&self) -> Result<Formula<T>, Error> {
        match (self.pv, self.fv, self.n) {
            (Some(pv), Some(fv), Some(n)) => Ok(Self::i_formula(pv, fv, n)),
            (None, _, _) => Err(Error::PresentValue),
            (Some(_), None, _) => Err(Error::FutureValue),
            (Some(_), Some(_), None) => Err(Error::NumberOfPeriods),
        }
    }

    fn i(&self) -> (solved: Result<Formula<T>, Error>)
        ensures
            solved != Err::<Formula<T>, Error>(Error::Unknown),
    {
        if let (Some(pv), Some(fv), Some(n)) = (self.pv, self.fv, self.n) {
            Ok(
                Formula::Given(fv).over(Formula::Given(pv)).pow(
                    Formula::Whole(1).over(Formula::Given(n)),
                ).minus(Formula::Whole(1)).times(Formula::Whole(100)),
            )
        } else if self.pv.is_none() {
            Err(Error::PresentValue)
        } else if self.fv.is_none() {
            Err(Error::FutureValue)
        } else if self.n.is_none() {
            Err(Error::NumberOfPeriods)
        } else {
            Err(Error::Unknown)
        }
    }
}

} // verus!
