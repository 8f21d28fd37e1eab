//! What a caller asks for: the requested unknown and the values that are known.

use vstd::prelude::*;
use crate::errors::Error;

verus! {

/// The unknown to solve for.
#[derive(Debug, Clone, Copy, PartialEq, Eq, Structural)]
pub enum Calculation {
    /// Present value.
    PV,
    /// Future value.
    FV,
    /// Number of periods.
    N,
    /// Periodic interest rate.
    I,
    /// Effective annual interest rate.
    EAIR,
    /// Periodic payment.
    PMT,
}

/// The calculation that a token names, if it names one. Tokens are lower case
/// and matched exactly.
pub open spec fn calculation_named(token: Seq<char>) -> Option<Calculation> {
    if token == "pv"@ {
        Some(Calculation::PV)
    } else if token == "fv"@ {
        Some(Calculation::FV)
    } else if token == "n"@ {
        Some(Calculation::N)
    } else if token == "i"@ {
        Some(Calculation::I)
    } else if token == "eair"@ {
        Some(Calculation::EAIR)
    } else if token == "pmt"@ {
        Some(Calculation::PMT)
    } else {
        None
    }
}

/// Whether two strings hold the same characters.
fn same_text(a: &str, b: &str) -> (same: bool)
    ensures
        same == (a@ == b@),
{
    let len = a.unicode_len();
    if len != b.unicode_len() {
        return false;
    }
    let mut k: usize = 0;
    while k < len
        invariant
            k <= len,
            len == a@.len(),
            len == b@.len(),
            forall|j: int| 0 <= j < k ==> a@[j] == b@[j],
        decreases len - k,
    {
        if a.get_char(k) != b.get_char(k) {
            return false;
        }
        k += 1;
    }
    proof {
        assert(a@ =~= b@);
    }
    true
}

/// Reads the name of a calculation.
///
/// Any token but the six names is refused, and the error carries the token.
pub fn parse_calculation(src: &str) -> (parsed: Result<Calculation, Error>)
    ensures
        match calculation_named(src@) {
            Some(calculation) => parsed == Ok::<Calculation, Error>(calculation),
            None => parsed matches Err(Error::ParseCalculation { c }) && c@ == src@,
        },
{
    if same_text(src, "pv") {
        Ok(Calculation::PV)
    } else if same_text(src, "fv") {
        Ok(Calculation::FV)
    } else if same_text(src, "n") {
        Ok(Calculation::N)
    } else if same_text(src, "i") {
        Ok(Calculation::I)
    } else if same_text(src, "eair") {
        Ok(Calculation::EAIR)
    } else if same_text(src, "pmt") {
        Ok(Calculation::PMT)
    } else {
        Err(Error::ParseCalculation { c: src.to_owned() })
    }
}

/// A request: the unknown, the known values, and how the payments fall.
///
/// An absent value is unknown, not zero. `i` is a percentage per period.
#[derive(Debug)]
pub struct Opt<T> {
    /// The unknown to solve for.
    pub calculation: Calculation,
    /// Present value.
    pub pv: Option<T>,
    /// Future value.
    pub fv: Option<T>,
    /// Interest rate, percent per period.
    pub i: Option<T>,
    /// Number of periods.
    pub n: Option<T>,
    /// Payment amount. Its presence is what makes the request one about an annuity.
    pub pmt: Option<T>,
    /// Annuity flag. It decides nothing: see `pmt`.
    pub annuity: bool,
    /// Payment mode: `'e'` for the end of the period, `'b'` for its beginning.
    pub mode: char,
}

} // verus!
