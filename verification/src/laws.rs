//! What holds of every model and of every request.

use vstd::prelude::*;
use crate::annuities::Annuity;
use crate::dispatch::{answer, mode_is_known};
use crate::errors::Error;
use crate::formula::Formula;
use crate::input::{Calculation, Opt};
use crate::lump_sum::LumpSum;
use crate::traits::{FutureValue, InterestRate, NumberOfPeriods, Payment, PresentValue};

verus! {

/// A lump sum is solved for an unknown exactly when the three other values
/// are present.
pub proof fn lump_sum_solved_iff_complete<T: Copy>(sum: LumpSum<T>)
    ensures
        sum.pv_spec() is Ok <==> sum.fv is Some && sum.i is Some && sum.n is Some,
        sum.fv_spec() is Ok <==> sum.pv is Some && sum.i is Some && sum.n is Some,
        sum.n_spec() is Ok <==> sum.pv is Some && sum.fv is Some && sum.i is Some,
        sum.i_spec() is Ok <==> sum.pv is Some && sum.fv is Some && sum.n is Some,
{
}

/// An annuity is solved for its present or future value exactly when payment,
/// rate and number of periods are present; for its payment or its number of
/// periods exactly when the other of the two and the rate are present
/// together with the present value, the future value, or both.
pub proof fn annuity_solved_iff_complete<T: Copy>(annuity: Annuity<T>)
    ensures
        annuity.pv_spec() is Ok <==> annuity.pmt is Some && annuity.i is Some && annuity.n
            is Some,
        annuity.fv_spec() is Ok <==> annuity.pmt is Some && annuity.i is Some && annuity.n
            is Some,
        annuity.pmt_spec() is Ok <==> annuity.n is Some && annuity.i is Some && (annuity.pv
            is Some || annuity.fv is Some),
        annuity.n_spec() is Ok <==> annuity.pmt is Some && annuity.i is Some && (annuity.pv
            is Some || annuity.fv is Some),
{
}

/// The values are checked in a fixed order, and the first one found absent is
/// the one reported: a lump sum without its future value says so when asked
/// for the present value, whatever else is absent.
pub proof fn absent_future_value_is_reported_first<T: Copy>(sum: LumpSum<T>)
    requires
        sum.fv is None,
    ensures
        sum.pv_spec() == Err::<Formula<T>, Error>(Error::FutureValue),
{
}

/// The want of both the present and the future value is reported last, and
/// under its own name: only once the other required values are found present.
pub proof fn absent_values_are_reported_last<T: Copy>(annuity: Annuity<T>)
    requires
        annuity.pv is None,
        annuity.fv is None,
    ensures
        annuity.pmt_spec() == Err::<Formula<T>, Error>(Error::ValueError) <==> annuity.n
            is Some && annuity.i is Some,
        annuity.n_spec() == Err::<Formula<T>, Error>(Error::ValueError) <==> annuity.pmt
            is Some && annuity.i is Some,
{
}

/// Where the present value is known, the future value is not read: the
/// payment and the number of periods are the same whatever it is.
pub proof fn present_value_takes_precedence<T: Copy>(annuity: Annuity<T>, fv: Option<T>)
    requires
        annuity.pv is Some,
    ensures
        (Annuity { fv, ..annuity }).pmt_spec() == annuity.pmt_spec(),
        (Annuity { fv, ..annuity }).n_spec() == annuity.n_spec(),
{
}

/// A mode flag that is neither `'e'` nor `'b'` is answered as `'e'` is.
pub proof fn unknown_mode_is_end_of_period<T: Copy>(input: Opt<T>)
    requires
        !mode_is_known(input.mode),
    ensures
        answer(&input) == answer(&Opt { mode: 'e', ..input }),
{
}

/// The annuity flag decides nothing: a request is answered the same with it
/// and without it.
pub proof fn annuity_flag_decides_nothing<T: Copy>(input: Opt<T>, annuity: bool)
    ensures
        answer(&input) == answer(&Opt { annuity, ..input }),
{
}

/// No request that meets what `solve` asks of it is answered with the
/// fallback error or with a parse error: a reported error names an absent value.
pub proof fn answer_names_an_absent_value<T: Copy>(input: Opt<T>)
    requires
        input.calculation == Calculation::EAIR ==> input.i is Some && input.n is Some,
    ensures
        answer(&input) matches Err(e) ==> e == Error::PresentValue || e == Error::FutureValue
            || e == Error::InterestRate || e == Error::NumberOfPeriods || e == Error::Payment
            || e == Error::ValueError,
{
}

} // verus!
