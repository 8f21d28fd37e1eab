//! The effective annual interest rate.

use vstd::prelude::*;
use crate::formula::{rate, Formula};

verus! {

/// The effective annual rate, in percent, of the nominal annual rate `i`, in
/// percent, compounded `n` times a year: `((1 + i / 100 / n)^n - 1) * 100`.
pub open spec fn eair_formula<T: Copy>(i: T, n: T) -> Formula<T> {
    Formula::Whole(1).plus(rate(i).over(Formula::Given(n))).pow(Formula::Given(n)).minus(
        Formula::Whole(1),
    ).times(Formula::Whole(100))
}

/// The closed form of the effective annual rate. Both values are mandatory,
/// so there is no error to report.
pub fn eair<T: Copy>(i: &T, n: &T) -> (f: Formula<T>)
    ensures
        f == eair_formula(*i, *n),
{
    Formula::Whole(1).plus(rate(*i).over(Formula::Given(*n))).pow(Formula::Given(*n)).minus(
        Formula::Whole(1),
    ).times(Formula::Whole(100))
}

} // verus!
