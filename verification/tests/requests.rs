//! Reading a request and routing it to the solve that answers it.

use tvm::annuities::{Annuity, AnnuityType};
use tvm::dispatch::{kind_for_mode, mode_is_known, routes_to_annuity, solve};
use tvm::errors::Error;
use tvm::input::{parse_calculation, Calculation, Opt};
use tvm::lump_sum::LumpSum;
use tvm::misc::eair;
use tvm::traits::{FutureValue, InterestRate, NumberOfPeriods, Payment, PresentValue};

fn request(calculation: Calculation, mode: char) -> Opt<f64> {
    Opt {
        calculation,
        pv: Some(1000.0),
        fv: Some(2000.0),
        i: Some(5.0),
        n: Some(10.0),
        pmt: Some(100.0),
        annuity: false,
        mode,
    }
}

fn as_annuity(kind: AnnuityType, input: &Opt<f64>) -> Annuity<f64> {
    Annuity { kind, i: input.i, fv: input.fv, pv: input.pv, n: input.n, pmt: input.pmt }
}

fn as_lump_sum(input: &Opt<f64>) -> LumpSum<f64> {
    LumpSum { fv: input.fv, pv: input.pv, n: input.n, i: input.i }
}

#[test]
fn parse_calculation_reads_the_six_names() {
    assert_eq!(parse_calculation("pv"), Ok(Calculation::PV));
    assert_eq!(parse_calculation("fv"), Ok(Calculation::FV));
    assert_eq!(parse_calculation("n"), Ok(Calculation::N));
    assert_eq!(parse_calculation("i"), Ok(Calculation::I));
    assert_eq!(parse_calculation("eair"), Ok(Calculation::EAIR));
    assert_eq!(parse_calculation("pmt"), Ok(Calculation::PMT));
}

#[test]
fn parse_calculation_refuses_everything_else() {
    for token in ["", "PV", "Pv", " pv", "pv ", "p", "pvv", "npv", "eai", "rate", "p\u{00e9}"] {
        assert_eq!(
            parse_calculation(token),
            Err(Error::ParseCalculation { c: token.to_string() })
        );
    }
}

#[test]
fn parse_error_message_carries_the_token() {
    let message = parse_calculation("irr").unwrap_err().message();
    assert_eq!(message, "Error: Unable to parse irr as a valid calculation");
}

#[test]
fn error_messages() {
    assert_eq!(
        Error::PresentValue.message(),
        "Error: Present value is required for this calculation. Use '--pv' or '-p'"
    );
    assert_eq!(
        Error::FutureValue.message(),
        "Error: Future value is required for this calculation. Use '--fv' or '-f'"
    );
    assert_eq!(
        Error::InterestRate.message(),
        "Error: Discount/interest rate is required for this calculation. Use '--i' or '-i'"
    );
    assert_eq!(
        Error::NumberOfPeriods.message(),
        "Error: Number of periods is required for this calculation. Use '--n' or '-n'"
    );
    assert_eq!(
        Error::Payment.message(),
        "Error: Payment amount is required for this calculation. Use '--pmt' or '-r'"
    );
    assert_eq!(
        Error::ValueError.message(),
        "Error: This calculation requires either present or future value"
    );
    assert_eq!(Error::Unknown.message(), "Error: You just found a new way to break this program!");
    assert_eq!(
        Error::ParseCalculation { c: String::new() }.message(),
        "Error: Unable to parse  as a valid calculation"
    );
}

#[test]
fn mode_selects_the_kind_of_annuity() {
    assert_eq!(kind_for_mode('e'), AnnuityType::RegularAnnuity);
    assert_eq!(kind_for_mode('b'), AnnuityType::AnnuityDue);
    assert_eq!(kind_for_mode('x'), AnnuityType::RegularAnnuity);
    assert_eq!(kind_for_mode('B'), AnnuityType::RegularAnnuity);
}

#[test]
fn only_e_and_b_are_known_modes() {
    assert!(mode_is_known('e'));
    assert!(mode_is_known('b'));
    assert!(!mode_is_known('x'));
    assert!(!mode_is_known('E'));
    assert!(!mode_is_known(' '));
}

#[test]
fn annuity_new_takes_the_values_of_the_request() {
    let input = Opt {
        calculation: Calculation::PV,
        pv: Some(1.0),
        fv: Some(2.0),
        i: Some(3.0),
        n: Some(4.0),
        pmt: Some(5.0),
        annuity: true,
        mode: 'e',
    };
    let made = Annuity::new(&AnnuityType::AnnuityDue, &input);
    assert_eq!(made.kind, AnnuityType::AnnuityDue);
    assert_eq!(made.pv, Some(1.0));
    assert_eq!(made.fv, Some(2.0));
    assert_eq!(made.i, Some(3.0));
    assert_eq!(made.n, Some(4.0));
    assert_eq!(made.pmt, Some(5.0));
    let bare = Opt { pv: None, fv: None, i: None, n: None, pmt: None, ..input };
    let made = Annuity::new(&AnnuityType::RegularAnnuity, &bare);
    assert_eq!(made.kind, AnnuityType::RegularAnnuity);
    assert_eq!((made.pv, made.fv, made.i, made.n, made.pmt), (None, None, None, None, None));
}

#[test]
fn a_payment_routes_to_the_annuity() {
    for calculation in [Calculation::PV, Calculation::FV, Calculation::N] {
        let with = request(calculation, 'e');
        assert!(routes_to_annuity(&with));
        let without = Opt { pmt: None, ..request(calculation, 'e') };
        assert!(!routes_to_annuity(&without));
    }
    assert!(routes_to_annuity(&Opt { pmt: None, ..request(Calculation::PMT, 'e') }));
    assert!(routes_to_annuity(&request(Calculation::PMT, 'e')));
    assert!(!routes_to_annuity(&request(Calculation::I, 'e')));
    assert!(!routes_to_annuity(&request(Calculation::EAIR, 'e')));
}

#[test]
fn solve_with_a_payment_asks_the_annuity() {
    let input = request(Calculation::PV, 'e');
    let outcome = solve(&input);
    assert_eq!(outcome.result, as_annuity(AnnuityType::RegularAnnuity, &input).pv());
    assert!(!outcome.mode_defaulted);
    let input = request(Calculation::FV, 'b');
    let outcome = solve(&input);
    assert_eq!(outcome.result, as_annuity(AnnuityType::AnnuityDue, &input).fv());
    assert_ne!(outcome.result, as_annuity(AnnuityType::RegularAnnuity, &input).fv());
    assert!(!outcome.mode_defaulted);
    let input = request(Calculation::N, 'b');
    let outcome = solve(&input);
    assert_eq!(outcome.result, as_annuity(AnnuityType::AnnuityDue, &input).n());
    assert!(!outcome.mode_defaulted);
}

#[test]
fn solve_without_a_payment_asks_the_lump_sum() {
    let input = Opt { pmt: None, ..request(Calculation::PV, 'b') };
    assert_eq!(solve(&input).result, as_lump_sum(&input).pv());
    let input = Opt { pmt: None, ..request(Calculation::FV, 'b') };
    assert_eq!(solve(&input).result, as_lump_sum(&input).fv());
    let input = Opt { pmt: None, ..request(Calculation::N, 'b') };
    assert_eq!(solve(&input).result, as_lump_sum(&input).n());
    let input = Opt { pmt: None, fv: None, ..request(Calculation::PV, 'e') };
    assert_eq!(solve(&input).result, Err(Error::FutureValue));
}

#[test]
fn solve_for_the_rate_always_asks_the_lump_sum() {
    let input = request(Calculation::I, 'b');
    let outcome = solve(&input);
    assert_eq!(outcome.result, as_lump_sum(&input).i());
    assert!(!outcome.mode_defaulted);
    let input = Opt { pv: None, ..request(Calculation::I, 'e') };
    assert_eq!(solve(&input).result, Err(Error::PresentValue));
}

#[test]
fn solve_for_the_payment_always_asks_the_annuity() {
    let input = Opt { pmt: None, ..request(Calculation::PMT, 'b') };
    assert_eq!(solve(&input).result, as_annuity(AnnuityType::AnnuityDue, &input).pmt());
    let input = Opt { pmt: None, pv: None, fv: None, ..request(Calculation::PMT, 'e') };
    assert_eq!(solve(&input).result, Err(Error::ValueError));
    let input = Opt { n: None, ..request(Calculation::PMT, 'e') };
    assert_eq!(solve(&input).result, Err(Error::NumberOfPeriods));
}

#[test]
fn solve_for_the_effective_rate() {
    let input = Opt { pv: None, fv: None, pmt: None, ..request(Calculation::EAIR, 'e') };
    let outcome = solve(&input);
    assert_eq!(outcome.result, Ok(eair(&5.0, &10.0)));
    assert!(!outcome.mode_defaulted);
    let outcome = solve(&request(Calculation::EAIR, 'x'));
    assert_eq!(outcome.result, Ok(eair(&5.0, &10.0)));
    assert!(!outcome.mode_defaulted);
}

#[test]
fn an_unknown_mode_falls_back_to_the_end_of_the_period() {
    for calculation in [Calculation::PV, Calculation::FV, Calculation::N, Calculation::PMT] {
        let odd = solve(&request(calculation, 'x'));
        let end = solve(&request(calculation, 'e'));
        assert_eq!(odd.result, end.result);
        assert!(odd.mode_defaulted);
        assert!(!end.mode_defaulted);
        assert!(!solve(&request(calculation, 'b')).mode_defaulted);
    }
}

#[test]
fn an_unknown_mode_goes_unnoticed_where_no_annuity_is_asked() {
    for calculation in [Calculation::PV, Calculation::FV, Calculation::N, Calculation::I] {
        let input = Opt { pmt: None, ..request(calculation, 'x') };
        assert!(!solve(&input).mode_defaulted);
    }
}

#[test]
fn the_annuity_flag_changes_nothing() {
    for calculation in [
        Calculation::PV,
        Calculation::FV,
        Calculation::N,
        Calculation::I,
        Calculation::EAIR,
        Calculation::PMT,
    ] {
        let with = solve(&Opt { annuity: true, ..request(calculation, 'b') });
        let without = solve(&Opt { annuity: false, ..request(calculation, 'b') });
        assert_eq!(with.result, without.result);
        let with = solve(&Opt { annuity: true, pmt: None, ..request(calculation, 'b') });
        let without = solve(&Opt { annuity: false, pmt: None, ..request(calculation, 'b') });
        assert_eq!(with.result, without.result);
    }
}
