//! The capabilities of a model: one narrow trait for each unknown that can be
//! solved for in closed form.
//!
//! A model implements the traits for which it has a closed form, and no
//! others. Each solve returns the closed form over the values that the model
//! holds, or the error that names the first required value found absent.

use vstd::prelude::*;
use crate::errors::Error;
use crate::formula::Formula;

verus! {

/// Solves for the present value.
pub trait PresentValue<T> {
    /// What `pv` returns.
    spec fn pv_spec(&self) -> Result<Formula<T>, Error>;

    /// The closed form of the present value, or the first required value that is absent.
    fn pv(&self) -> (solved: Result<Formula<T>, Error>)
        ensures
            solved == self.pv_spec(),
    ;
}

/// Solves for the future value.
pub trait FutureValue<T> {
    /// What `fv` returns.
    spec fn fv_spec(&self) -> Result<Formula<T>, Error>;

    /// The closed form of the future value, or the first required value that is absent.
    fn fv(&self) -> (solved: Result<Formula<T>, Error>)
        ensures
            solved == self.fv_spec(),
    ;
}

/// Solves for the number of periods.
pub trait NumberOfPeriods<T> {
    /// What `n` returns.
    spec fn n_spec(&self) -> Result<Formula<T>, Error>;

    /// The closed form of the number of periods, or the first required value that is absent.
    fn n(&self) -> (solved: Result<Formula<T>, Error>)
        ensures
            solved == self.n_spec(),
    ;
}

/// Solves for the periodic interest rate, in percent.
pub trait InterestRate<T> {
    /// What `i` returns.
    spec fn i_spec(&self) -> Result<Formula<T>, Error>;

    /// The closed form of the periodic rate, or the first required value that is absent.
    fn i(&self) -> (solved: Result<Formula<T>, Error>)
        ensures
            solved == self.i_spec(),
    ;
}

/// Solves for the periodic payment.
pub trait Payment<T> {
    /// What `pmt` returns.
    spec fn pmt_spec(&self) -> Result<Formula<T>, Error>;

    /// The closed form of the periodic payment, or the first required value that is absent.
    fn pmt(&self) -> (solved: Result<Formula<T>, Error>)
        ensures
            solved == self.pmt_spec(),
    ;
}

} // verus!
