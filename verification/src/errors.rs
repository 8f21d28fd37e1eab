//! The closed set of reasons for which a calculation is refused.

use vstd::prelude::*;

verus! {

/// Why a calculation could not be set up.
///
/// Every variant names exactly one missing or invalid precondition, which the
/// caller mends by supplying more input.
#[derive(Debug, PartialEq, Eq)]
pub enum Error {
    /// The requested operation is none of the known tokens; `c` is the token as given.
    ParseCalculation { c: String },
    /// The present value is required and absent.
    PresentValue,
    /// The future value is required and absent.
    FutureValue,
    /// The periodic rate is required and absent.
    InterestRate,
    /// The number of periods is required and absent.
    NumberOfPeriods,
    /// The periodic payment is required and absent.
    Payment,
    /// Either the present or the future value is required, and both are absent.
    ValueError,
    /// Defensive fallback: no field check matched although the solve failed.
    Unknown,
}

impl Error {
    /// The text of the message for this error.
    pub open spec fn message_text(self) -> Seq<char> {
        match self {
            Error::ParseCalculation { c } => "Error: Unable to parse "@ + c@
                + " as a valid calculation"@,
            Error::PresentValue =>
                "Error: Present value is required for this calculation. Use '--pv' or '-p'"@,
            Error::FutureValue =>
                "Error: Future value is required for this calculation. Use '--fv' or '-f'"@,
            Error::InterestRate =>
                "Error: Discount/interest rate is required for this calculation. Use '--i' or '-i'"@,
            Error::NumberOfPeriods =>
                "Error: Number of periods is required for this calculation. Use '--n' or '-n'"@,
            Error::Payment =>
                "Error: Payment amount is required for this calculation. Use '--pmt' or '-r'"@,
            Error::ValueError =>
                "Error: This calculation requires either present or future value"@,
            Error::Unknown => "Error: You just found a new way to break this program!"@,
        }
    }

    /// The human-readable message, as it is shown to the user.
    pub fn message(&self) -> (text: String)
        ensures
            text@ == self.message_text(),
    {
        match self {
            Error::ParseCalculation { c } => {
                let head = String::from_str("Error: Unable to parse ");
                let named = head.concat(c.as_str());
                named.concat(" as a valid calculation")
            },
            Error::PresentValue => String::from_str(
                "Error: Present value is required for this calculation. Use '--pv' or '-p'",
            ),
            Error::FutureValue => String::from_str(
                "Error: Future value is required for this calculation. Use '--fv' or '-f'",
            ),
            Error::InterestRate => String::from_str(
                "Error: Discount/interest rate is required for this calculation. Use '--i' or '-i'",
            ),
            Error::NumberOfPeriods => String::from_str(
                "Error: Number of periods is required for this calculation. Use '--n' or '-n'",
            ),
            Error::Payment => String::from_str(
                "Error: Payment amount is required for this calculation. Use '--pmt' or '-r'",
            ),
            Error::ValueError => String::from_str(
                "Error: This calculation requires either present or future value",
            ),
            Error::Unknown => String::from_str(
                "Error: You just found a new way to break this program!",
            ),
        }
    }
}

} // verus!
