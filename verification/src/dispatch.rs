//! From a request to the solve that answers it.
//!
//! The presence of a payment decides between the two models, the mode flag
//! between the two kinds of annuity, and the requested unknown which solve
//! is run.

use vstd::prelude::*;
use crate::annuities::{Annuity, AnnuityType};
use crate::errors::Error;
use crate::formula::Formula;
use crate::input::{Calculation, Opt};
use crate::lump_sum::LumpSum;
use crate::misc::{eair, eair_formula};
use crate::traits::{FutureValue, InterestRate, NumberOfPeriods, Payment, PresentValue};

verus! {

/// Whether a mode flag is one of the two that have a meaning: `'e'` and `'b'`.
pub open spec fn spec_mode_is_known(mode: char) -> bool {
    mode == 'e' || mode == 'b'
}

/// Whether a mode flag is one of the two that have a meaning: `'e'` and `'b'`.
#[verifier::when_used_as_spec(spec_mode_is_known)]
pub fn mode_is_known(mode: char) -> (known: bool)
    ensures
        known == spec_mode_is_known(mode),
{
    mode == 'e' || mode == 'b'
}

/// The kind of annuity that a mode flag selects: `'b'` the annuity due, `'e'`
/// and, as a fallback, every other character the ordinary annuity.
pub open spec fn spec_kind_for_mode(mode: char) -> AnnuityType {
    if mode == 'b' {
        AnnuityType::AnnuityDue
    } else {
        AnnuityType::RegularAnnuity
    }
}

/// The kind of annuity that a mode flag selects: `'b'` the annuity due, `'e'`
/// and, as a fallback, every other character the ordinary annuity.
#[verifier::when_used_as_spec(spec_kind_for_mode)]
pub fn kind_for_mode(mode: char) -> (kind: AnnuityType)
    ensures
        kind == spec_kind_for_mode(mode),
{
    if mode == 'b' {
        AnnuityType::AnnuityDue
    } else {
        AnnuityType::RegularAnnuity
    }
}

/// Whether a request is answered by the annuity model: a request for the
/// payment always, one for the present value, the future value or the number
/// of periods where a payment is supplied, and no other.
pub open spec fn spec_routes_to_annuity<T>(input: &Opt<T>) -> bool {
    match input.calculation {
        Calculation::PMT => true,
        Calculation::PV | Calculation::FV | Calculation::N => input.pmt is Some,
        Calculation::I | Calculation::EAIR => false,
    }
}

/// Whether a request is answered by the annuity model: a request for the
/// payment always, one for the present value, the future value or the number
/// of periods where a payment is supplied, and no other.
#[verifier::when_used_as_spec(spec_routes_to_annuity)]
pub fn routes_to_annuity<T>(input: &Opt<T>) -> (annuity: bool)
    ensures
        annuity == spec_routes_to_annuity(input),
{
    match input.calculation {
        Calculation::PMT => true,
        Calculation::PV | Calculation::FV | Calculation::N => input.pmt.is_some(),
        Calculation::I | Calculation::EAIR => false,
    }
}

/// The annuity that a request describes.
pub open spec fn annuity_of<T>(input: &Opt<T>) -> Annuity<T> {
    Annuity {
        kind: kind_for_mode(input.mode),
        i: input.i,
        fv: input.fv,
        pv: input.pv,
        n: input.n,
        pmt: input.pmt,
    }
}

/// The lump sum that a request describes: its values without the requested
/// unknown, which a lump sum never reads.
pub open spec fn lump_sum_of<T>(input: &Opt<T>) -> LumpSum<T> {
    match input.calculation {
        Calculation::PV => LumpSum { fv: input.fv, pv: None, n: input.n, i: input.i },
        Calculation::FV => LumpSum { fv: None, pv: input.pv, n: input.n, i: input.i },
        Calculation::N => LumpSum { fv: input.fv, pv: input.pv, n: None, i: input.i },
        _ => LumpSum { fv: input.fv, pv: input.pv, n: input.n, i: None },
    }
}

/// The answer to a request: a closed form or the reason for which there is none.
pub open spec fn answer<T: Copy>(input: &Opt<T>) -> Result<Formula<T>, Error>
    recommends
        input.calculation == Calculation::EAIR ==> input.i is Some && input.n is Some,
{
    match input.calculation {
        Calculation::PV => if input.pmt is Some {
            annuity_of(input).pv_spec()
        } else {
            lump_sum_of(input).pv_spec()
        },
        Calculation::FV => if input.pmt is Some {
            annuity_of(input).fv_spec()
        } else {
            lump_sum_of(input).fv_spec()
        },
        Calculation::N => if input.pmt is Some {
            annuity_of(input).n_spec()
        } else {
            lump_sum_of(input).n_spec()
        },
        Calculation::I => lump_sum_of(input).i_spec(),
        Calculation::EAIR => Ok(eair_formula(input.i->0, input.n->0)),
        Calculation::PMT => annuity_of(input).pmt_spec(),
    }
}

/// What became of a request.
#[derive(Debug)]
pub struct Outcome<T> {
    /// The closed form that answers the request, or why there is none.
    pub result: Result<Formula<T>, Error>,
    /// The request was about an annuity and its mode flag was neither `'e'`
    /// nor `'b'`, so the ordinary annuity was taken. This is worth a notice
    /// to the user and is no failure.
    pub mode_defaulted: bool,
}

/// Answers a request.
///
/// A request for the effective annual rate must hold both the rate and the
/// number of periods: their absence is the caller's fault and has no error of
/// its own.
pub fn solve<T: Copy>(input: &Opt<T>) -> (outcome: Outcome<T>)
    requires
        input.calculation == Calculation::EAIR ==> input.i is Some && input.n is Some,
    ensures
        outcome.result == answer(input),
        outcome.mode_defaulted == (routes_to_annuity(input) && !mode_is_known(input.mode)),
{
    if routes_to_annuity(input) {
        let kind = kind_for_mode(input.mode);
        let annuity = Annuity::new(&kind, input);
        let result = match input.calculation {
            Calculation::PV => annuity.pv(),
            Calculation::FV => annuity.fv(),
            Calculation::N => annuity.n(),
            _ => annuity.pmt(),
        };
        Outcome { result, mode_defaulted: !mode_is_known(input.mode) }
    } else {
        let result = match input.calculation {
            Calculation::PV => LumpSum { fv: input.fv, i: input.i, n: input.n, pv: None }.pv(),
            Calculation::FV => LumpSum { pv: input.pv, i: input.i, n: input.n, fv: None }.fv(),
            Calculation::N => LumpSum { pv: input.pv, i: input.i, fv: input.fv, n: None }.n(),
            Calculation::EAIR => Ok(eair(&input.i.unwrap(), &input.n.unwrap())),
            _ => LumpSum { pv: input.pv, n: input.n, fv: input.fv, i: None }.i(),
        };
        Outcome { result, mode_defaulted: false }
    }
}

} // verus!
