//! Which error each solve reports, and in which order the values are checked.

use tvm::annuities::{Annuity, AnnuityType};
use tvm::errors::Error;
use tvm::lump_sum::LumpSum;
use tvm::traits::{FutureValue, InterestRate, NumberOfPeriods, Payment, PresentValue};

const X: Option<f64> = Some(1.0);

fn lump(pv: Option<f64>, fv: Option<f64>, i: Option<f64>, n: Option<f64>) -> LumpSum<f64> {
    LumpSum { fv, pv, n, i }
}

fn annuity(
    kind: AnnuityType,
    pv: Option<f64>,
    fv: Option<f64>,
    i: Option<f64>,
    n: Option<f64>,
    pmt: Option<f64>,
) -> Annuity<f64> {
    Annuity { kind, i, fv, pv, n, pmt }
}

const KINDS: [AnnuityType; 2] = [AnnuityType::RegularAnnuity, AnnuityType::AnnuityDue];

#[test]
fn lump_sum_pv_with_only_n_reports_the_future_value() {
    assert_eq!(lump(None, None, None, Some(10.0)).pv(), Err(Error::FutureValue));
}

#[test]
fn lump_sum_pv_checks_fv_then_i_then_n() {
    assert_eq!(lump(None, None, None, None).pv(), Err(Error::FutureValue));
    assert_eq!(lump(X, None, X, X).pv(), Err(Error::FutureValue));
    assert_eq!(lump(None, X, None, None).pv(), Err(Error::InterestRate));
    assert_eq!(lump(X, X, None, X).pv(), Err(Error::InterestRate));
    assert_eq!(lump(X, X, X, None).pv(), Err(Error::NumberOfPeriods));
    assert!(lump(None, X, X, X).pv().is_ok());
}

#[test]
fn lump_sum_fv_checks_pv_then_i_then_n() {
    assert_eq!(lump(None, None, None, None).fv(), Err(Error::PresentValue));
    assert_eq!(lump(None, X, X, X).fv(), Err(Error::PresentValue));
    assert_eq!(lump(X, None, None, None).fv(), Err(Error::InterestRate));
    assert_eq!(lump(X, X, None, X).fv(), Err(Error::InterestRate));
    assert_eq!(lump(X, X, X, None).fv(), Err(Error::NumberOfPeriods));
    assert!(lump(X, None, X, X).fv().is_ok());
}

#[test]
fn lump_sum_n_checks_pv_then_fv_then_i() {
    assert_eq!(lump(None, None, None, None).n(), Err(Error::PresentValue));
    assert_eq!(lump(None, X, X, X).n(), Err(Error::PresentValue));
    assert_eq!(lump(X, None, None, None).n(), Err(Error::FutureValue));
    assert_eq!(lump(X, None, X, X).n(), Err(Error::FutureValue));
    assert_eq!(lump(X, X, None, X).n(), Err(Error::InterestRate));
    assert!(lump(X, X, X, None).n().is_ok());
}

#[test]
fn lump_sum_i_checks_pv_then_fv_then_n() {
    assert_eq!(lump(None, None, None, None).i(), Err(Error::PresentValue));
    assert_eq!(lump(None, X, X, X).i(), Err(Error::PresentValue));
    assert_eq!(lump(X, None, None, None).i(), Err(Error::FutureValue));
    assert_eq!(lump(X, None, X, X).i(), Err(Error::FutureValue));
    assert_eq!(lump(X, X, X, None).i(), Err(Error::NumberOfPeriods));
    assert!(lump(X, X, None, X).i().is_ok());
}

#[test]
fn annuity_pv_checks_pmt_then_i_then_n() {
    for kind in KINDS {
        assert_eq!(annuity(kind, X, X, None, None, None).pv(), Err(Error::Payment));
        assert_eq!(annuity(kind, X, X, X, X, None).pv(), Err(Error::Payment));
        assert_eq!(annuity(kind, X, X, None, None, X).pv(), Err(Error::InterestRate));
        assert_eq!(annuity(kind, X, X, None, X, X).pv(), Err(Error::InterestRate));
        assert_eq!(annuity(kind, X, X, X, None, X).pv(), Err(Error::NumberOfPeriods));
        assert!(annuity(kind, None, None, X, X, X).pv().is_ok());
    }
}

#[test]
fn annuity_fv_checks_pmt_then_i_then_n() {
    for kind in KINDS {
        assert_eq!(annuity(kind, X, X, None, None, None).fv(), Err(Error::Payment));
        assert_eq!(annuity(kind, X, X, X, X, None).fv(), Err(Error::Payment));
        assert_eq!(annuity(kind, X, X, None, None, X).fv(), Err(Error::InterestRate));
        assert_eq!(annuity(kind, X, X, None, X, X).fv(), Err(Error::InterestRate));
        assert_eq!(annuity(kind, X, X, X, None, X).fv(), Err(Error::NumberOfPeriods));
        assert!(annuity(kind, None, None, X, X, X).fv().is_ok());
    }
}

#[test]
fn annuity_pmt_with_neither_pv_nor_fv_reports_the_missing_value() {
    for kind in KINDS {
        assert_eq!(
            annuity(kind, None, None, Some(5.0), Some(10.0), None).pmt(),
            Err(Error::ValueError)
        );
        assert_eq!(annuity(kind, None, None, X, X, X).pmt(), Err(Error::ValueError));
    }
}

#[test]
fn annuity_pmt_checks_n_then_i_then_the_values() {
    for kind in KINDS {
        assert_eq!(annuity(kind, None, None, None, None, None).pmt(), Err(Error::NumberOfPeriods));
        assert_eq!(annuity(kind, X, X, X, None, X).pmt(), Err(Error::NumberOfPeriods));
        assert_eq!(annuity(kind, None, None, None, X, None).pmt(), Err(Error::InterestRate));
        assert_eq!(annuity(kind, X, X, None, X, X).pmt(), Err(Error::InterestRate));
        assert!(annuity(kind, X, None, X, X, None).pmt().is_ok());
        assert!(annuity(kind, None, X, X, X, None).pmt().is_ok());
        assert!(annuity(kind, X, X, X, X, None).pmt().is_ok());
    }
}

#[test]
fn annuity_n_checks_pmt_then_i_then_the_values() {
    for kind in KINDS {
        assert_eq!(annuity(kind, None, None, None, None, None).n(), Err(Error::Payment));
        assert_eq!(annuity(kind, X, X, X, X, None).n(), Err(Error::Payment));
        assert_eq!(annuity(kind, None, None, None, None, X).n(), Err(Error::InterestRate));
        assert_eq!(annuity(kind, X, X, None, X, X).n(), Err(Error::InterestRate));
        assert_eq!(annuity(kind, None, None, X, None, X).n(), Err(Error::ValueError));
        assert!(annuity(kind, X, None, X, None, X).n().is_ok());
        assert!(annuity(kind, None, X, X, None, X).n().is_ok());
        assert!(annuity(kind, X, X, X, None, X).n().is_ok());
    }
}
