//! Annuities: a stream of equal payments, one per period.

use vstd::prelude::*;
use crate::errors::Error;
use crate::formula::{growth, rate, Formula};
use crate::input::Opt;
use crate::traits::{FutureValue, NumberOfPeriods, Payment, PresentValue};

verus! {

/// When within its period a payment falls.
#[derive(Debug, Clone, Copy, PartialEq, Eq, Structural)]
pub enum AnnuityType {
    /// Payments fall at the start of each period.
    AnnuityDue,
    /// Payments fall at the end of each period (the ordinary annuity).
    RegularAnnuity,
}

/// An annuity, with the values that are known of it.
///
/// An absent value is not zero: it is unknown. `i` is a percentage per period.
#[derive(Debug)]
pub struct Annuity<T> {
    pub kind: AnnuityType,
    pub i: Option<T>,
    pub fv: Option<T>,
    pub pv: Option<T>,
    pub n: Option<T>,
    pub pmt: Option<T>,
}

/// What one unit paid at the end of each of `periods` periods is worth now:
/// `(1 - 1 / (1 + r)^periods) / r`, with `r` the rate as a fraction.
pub open spec fn spec_worth_now<T: Copy>(i: T, periods: Formula<T>) -> Formula<T> {
    Formula::Whole(1).minus(Formula::Whole(1).over(growth(i).pow(periods))).over(rate(i))
}

/// What one unit paid at the end of each of `periods` periods is worth now:
/// `(1 - 1 / (1 + r)^periods) / r`, with `r` the rate as a fraction.
#[verifier::when_used_as_spec(spec_worth_now)]
pub fn worth_now<T: Copy>(i: T, periods: Formula<T>) -> (f: Formula<T>)
    ensures
        f == spec_worth_now(i, periods),
{
    Formula::Whole(1).minus(Formula::Whole(1).over(growth(i).pow(periods))).over(rate(i))
}

/// What one unit paid at the end of each of `n` periods has grown to after the last:
/// `((1 + r)^n - 1) / r`, with `r` the rate as a fraction.
pub open spec fn spec_worth_then<T: Copy>(i: T, n: T) -> Formula<T> {
    growth(i).pow(Formula::Given(n)).minus(Formula::Whole(1)).over(rate(i))
}

/// What one unit paid at the end of each of `n` periods has grown to after the last:
/// `((1 + r)^n - 1) / r`, with `r` the rate as a fraction.
#[verifier::when_used_as_spec(spec_worth_then)]
pub fn worth_then<T: Copy>(i: T, n: T) -> (f: Formula<T>)
    ensures
        f == spec_worth_then(i, n),
{
    growth(i).pow(Formula::Given(n)).minus(Formula::Whole(1)).over(rate(i))
}

impl<T: Copy> Annuity<T> {
    /// An annuity of the given kind with the values of a request.
    pub fn new(kind: &AnnuityType, input: &Opt<T>) -> (annuity: Annuity<T>)
        ensures
            annuity == (Annuity {
                kind: *kind,
                i: input.i,
                fv: input.fv,
                pv: input.pv,
                n: input.n,
                pmt: input.pmt,
            }),
    {
        Annuity {
            kind: *kind,
            fv: input.fv,
            pv: input.pv,
            i: input.i,
            n: input.n,
            pmt: input.pmt,
        }
    }

    /// Present value of `n` payments of `pmt`.
    ///
    /// Ordinary: `pmt * ((1 - 1 / (1 + r)^n) / r)`.
    /// Due: `pmt * ((1 - 1 / (1 + r)^(n - 1)) / r) + pmt`.
    pub open spec fn pv_formula(kind: AnnuityType, pmt: T, i: T, n: T) -> Formula<T> {
        match kind {
            AnnuityType::RegularAnnuity => Formula::Given(pmt).times(
                worth_now(i, Formula::Given(n)),
            ),
            AnnuityType::AnnuityDue => Formula::Given(pmt).times(
                worth_now(i, Formula::Given(n).minus(Formula::Whole(1))),
            ).plus(Formula::Given(pmt)),
        }
    }

    /// Future value of `n` payments of `pmt`.
    ///
    /// Ordinary: `pmt * (((1 + r)^n - 1) / r)`.
    /// Due: `pmt * (((1 + r)^n - 1) / r) * (1 + r)`.
    pub open spec fn fv_formula(kind: AnnuityType, pmt: T, i: T, n: T) -> Formula<T> {
        match kind {
            AnnuityType::RegularAnnuity => Formula::Given(pmt).times(worth_then(i, n)),
            AnnuityType::AnnuityDue => Formula::Given(pmt).times(worth_then(i, n)).times(
                growth(i),
            ),
        }
    }

    /// The payment of which `n` are worth `pv` now.
    ///
    /// Ordinary: `pv / ((1 - 1 / (1 + r)^n) / r)`.
    /// Due: `pv / ((1 - 1 / (1 + r)^(n - 1)) / r + 1)`.
    pub open spec fn pmt_from_pv(kind: AnnuityType, pv: T, i: T, n: T) -> Formula<T> {
        match kind {
            AnnuityType::RegularAnnuity => Formula::Given(pv).over(
                worth_now(i, Formula::Given(n)),
            ),
            AnnuityType::AnnuityDue => Formula::Given(pv).over(
                worth_now(i, Formula::Given(n).minus(Formula::Whole(1))).plus(Formula::Whole(1)),
            ),
        }
    }

    /// The payment of which `n` grow to `fv`.
    ///
    /// Ordinary: `fv / (((1 + r)^n - 1) / r)`.
    /// Due: `fv / (((1 + r)^n - 1) / r * (1 + r))`.
    pub open spec fn pmt_from_fv(kind: AnnuityType, fv: T, i: T, n: T) -> Formula<T> {
        match kind {
            AnnuityType::RegularAnnuity => Formula::Given(fv).over(worth_then(i, n)),
            AnnuityType::AnnuityDue => Formula::Given(fv).over(
                worth_then(i, n).times(growth(i)),
            ),
        }
    }

    /// The number of payments of `pmt` that are worth `pv` now.
    ///
    /// Ordinary: `-ln(1 - pv / pmt * r) / ln(1 + r)`.
    /// Due: `-ln(1 + r * (1 - pv / pmt)) / ln(1 + r) + 1`.
    pub open spec fn n_from_pv(kind: AnnuityType, pmt: T, pv: T, i: T) -> Formula<T> {
        let share = Formula::Given(pv).over(Formula::Given(pmt));
        match kind {
            AnnuityType::RegularAnnuity => Formula::Whole(1).minus(
                share.times(rate(i)),
            ).ln().negated().over(growth(i).ln()),
            AnnuityType::AnnuityDue => Formula::Whole(1).plus(
                rate(i).times(Formula::Whole(1).minus(share)),
            ).ln().negated().over(growth(i).ln()).plus(Formula::Whole(1)),
        }
    }

    /// The number of payments of `pmt` that grow to `fv`.
    ///
    /// Ordinary: `ln(1 + fv / pmt * r) / ln(1 + r)`.
    /// Due: `ln(1 + fv / (pmt * (1 + r)) * r) / ln(1 + r)`.
    pub open spec fn n_from_fv(kind: AnnuityType, pmt: T, fv: T, i: T) -> Formula<T> {
        match kind {
            AnnuityType::RegularAnnuity => Formula::Whole(1).plus(
                Formula::Given(fv).over(Formula::Given(pmt)).times(rate(i)),
            ).ln().over(growth(i).ln()),
            AnnuityType::AnnuityDue => Formula::Whole(1).plus(
                Formula::Given(fv).over(Formula::Given(pmt).times(growth(i))).times(rate(i)),
            ).ln().over(growth(i).ln()),
        }
    }
}

impl<T: Copy> Payment<T> for Annuity<T> {
    /// Needs `n`, `i`, and one of `pv` and `fv`; `pv` is taken where both are present.
    open spec fn pmt_spec(&self) -> Result<Formula<T>, Error> {
        match (self.n, self.i, self.pv, self.fv) {
            (Some(n), Some(i), Some(pv), _) => Ok(Self::pmt_from_pv(self.kind, pv, i, n)),
            (Some(n), Some(i), None, Some(fv)) => Ok(Self::pmt_from_fv(self.kind, fv, i, n)),
            (None, _, _, _) => Err(Error::NumberOfPeriods),
            (Some(_), None, _, _) => Err(Error::InterestRate),
            (Some(_), Some(_), None, None) => Err(Error::ValueError),
        }
    }

    fn pmt(&self) -> (solved: Result<Formula<T>, Error>)
        ensures
            solved != Err::<Formula<T>, Error>(Error::Unknown),
    {
        if let (Some(n), Some(i), Some(pv)) = (self.n, self.i, self.pv) {
            let value = Formula::Given(pv);
            match self.kind {
                AnnuityType::AnnuityDue => Ok(
                    value.over(
                        worth_now(i, Formula::Given(n).minus(Formula::Whole(1))).plus(
                            Formula::Whole(1),
                        ),
                    ),
                ),
                AnnuityType::RegularAnnuity => Ok(value.over(worth_now(i, Formula::Given(n)))),
            }
        } else if let (Some(n), Some(i), Some(fv)) = (self.n, self.i, self.fv) {
            let value = Formula::Given(fv);
            match self.kind {
                AnnuityType::AnnuityDue => Ok(value.over(worth_then(i, n).times(growth(i)))),
                AnnuityType::RegularAnnuity => Ok(value.over(worth_then(i, n))),
            }
        } else if self.n.is_none() {
            Err(Error::NumberOfPeriods)
        } else if self.i.is_none() {
            Err(Error::InterestRate)
        } else if self.pv.is_none() && self.fv.is_none() {
            Err(Error::ValueError)
        } else {
            Err(Error::Unknown)
        }
    }
}

impl<T: Copy> NumberOfPeriods<T> for Annuity<T> {
    /// Needs `pmt`, `i`, and one of `pv` and `fv`; `pv` is taken where both are present.
    open spec fn n_spec(&self) -> Result<Formula<T>, Error> {
        match (self.pmt, self.i, self.pv, self.fv) {
            (Some(pmt), Some(i), Some(pv), _) => Ok(Self::n_from_pv(self.kind, pmt, pv, i)),
            (Some(pmt), Some(i), None, Some(fv)) => Ok(Self::n_from_fv(self.kind, pmt, fv, i)),
            (None, _, _, _) => Err(Error::Payment),
            (Some(_), None, _, _) => Err(Error::InterestRate),
            (Some(_), Some(_), None, None) => Err(Error::ValueError),
        }
    }

    fn n(&self) -> (solved: Result<Formula<T>, Error>)
        ensures
            solved != Err::<Formula<T>, Error>(Error::Unknown),
    {
        if let (Some(pmt), Some(i), Some(pv)) = (self.pmt, self.i, self.pv) {
            let share = Formula::Given(pv).over(Formula::Given(pmt));
            match self.kind {
                AnnuityType::AnnuityDue => Ok(
                    Formula::Whole(1).plus(
                        rate(i).times(Formula::Whole(1).minus(share)),
                    ).ln().negated().over(growth(i).ln()).plus(Formula::Whole(1)),
                ),
                AnnuityType::RegularAnnuity => Ok(
                    Formula::Whole(1).minus(share.times(rate(i))).ln().negated().over(
                        growth(i).ln(),
                    ),
                ),
            }
        } else if let (Some(pmt), Some(i), Some(fv)) = (self.pmt, self.i, self.fv) {
            let value = Formula::Given(fv);
            let payment = Formula::Given(pmt);
            match self.kind {
                AnnuityType::AnnuityDue => Ok(
                    Formula::Whole(1).plus(
                        value.over(payment.times(growth(i))).times(rate(i)),
                    ).ln().over(growth(i).ln()),
                ),
                AnnuityType::RegularAnnuity => Ok(
                    Formula::Whole(1).plus(value.over(payment).times(rate(i))).ln().over(
                        growth(i).ln(),
                    ),
                ),
            }
        } else if self.pmt.is_none() {
            Err(Error::Payment)
        } else if self.i.is_none() {
            Err(Error::InterestRate)
        } else if self.pv.is_none() && self.fv.is_none() {
            Err(Error::ValueError)
        } else {
            Err(Error::Unknown)
        }
    }
}

impl<T: Copy> PresentValue<T> for Annuity<T> {
    /// Needs `pmt`, `i` and `n`.
    open spec fn pv_spec(&self) -> Result<Formula<T>, Error> {
        match (self.pmt, self.i, self.n) {
            (Some(pmt), Some(i), Some(n)) => Ok(Self::pv_formula(self.kind, pmt, i, n)),
            (None, _, _) => Err(Error::Payment),
            (Some(_), None, _) => Err(Error::InterestRate),
            (Some(_), Some(_), None) => Err(Error::NumberOfPeriods),
        }
    }

    fn pv(&self) -> (solved: Result<Formula<T>, Error>)
        ensures
            solved != Err::<Formula<T>, Error>(Error::Unknown),
    {
        if let (Some(pmt), Some(i), Some(n)) = (self.pmt, self.i, self.n) {
            let payment = Formula::Given(pmt);
            match self.kind {
                AnnuityType::AnnuityDue => Ok(
                    payment.times(
                        worth_now(i, Formula::Given(n).minus(Formula::Whole(1))),
                    ).plus(Formula::Given(pmt)),
                ),
                AnnuityType::RegularAnnuity => Ok(payment.times(worth_now(i, Formula::Given(n)))),
            }
        } else if self.pmt.is_none() {
            Err(Error::Payment)
        } else if self.i.is_none() {
            Err(Error::InterestRate)
        } else if self.n.is_none() {
            Err(Error::NumberOfPeriods)
        } else {
            Err(Error::Unknown)
        }
    }
}

impl<T: Copy> FutureValue<T> for Annuity<T> {
    /// Needs `pmt`, `i` and `n`.
    open spec fn fv_spec(&self) -> Result<Formula<T>, Error> {
        match (self.pmt, self.i, self.n) {
            (Some(pmt), Some(i), Some(n)) => Ok(Self::fv_formula(self.kind, pmt, i, n)),
            (None, _, _) => Err(Error::Payment),
            (Some(_), None, _) => Err(Error::InterestRate),
            (Some(_), Some(_), None) => Err(Error::NumberOfPeriods),
        }
    }

    fn fv(&self) -> (solved: Result<Formula<T>, Error>)
        ensures
            solved != Err::<Formula<T>, Error>(Error::Unknown),
    {
        if let (Some(pmt), Some(i), Some(n)) = (self.pmt, self.i, self.n) {
            let payment = Formula::Given(pmt);
            match self.kind {
                AnnuityType::AnnuityDue => Ok(payment.times(worth_then(i, n)).times(growth(i))),
                AnnuityType::RegularAnnuity => Ok(payment.times(worth_then(i, n))),
            }
        } else if self.pmt.is_none() {
            Err(Error::Payment)
        } else if self.i.is_none() {
            Err(Error::InterestRate)
        } else if self.n.is_none() {
            Err(Error::NumberOfPeriods)
        } else {
            Err(Error::Unknown)
        }
    }
}

} // verus!
