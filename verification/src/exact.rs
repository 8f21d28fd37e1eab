//! What a closed form is worth in exact arithmetic.
//!
//! Over the reals the four arithmetic operations are exact. Powers and
//! logarithms have no definition here: they are handed in, and `lawful`
//! lists the properties of theirs that the laws lean on.

use vstd::prelude::*;
use crate::annuities::{worth_now, worth_then, Annuity, AnnuityType};
use crate::formula::{growth, Formula};
use crate::lump_sum::LumpSum;
use crate::misc::eair_formula;

verus! {

/// A power function and a logarithm over the reals.
pub struct Exact {
    /// `pow(x, y)` stands for `x` raised to the power `y`.
    pub pow: spec_fn(real, real) -> real,
    /// `ln(x)` stands for the natural logarithm of `x`.
    pub ln: spec_fn(real) -> real,
}

impl Exact {
    /// The properties of powers and logarithms that the laws lean on. Each
    /// holds of the real power function and of the natural logarithm.
    pub open spec fn lawful(self) -> bool {
        // The first power of a number is the number.
        &&& forall|x: real| #[trigger] (self.pow)(x, 1real) == x
        // A power of a positive number is positive.
        &&& forall|x: real, y: real| x > 0real ==> #[trigger] (self.pow)(x, y) > 0real
        // Exponents add where powers multiply.
        &&& forall|x: real, y: real, z: real, w: real|
            x > 0real && y + z == w ==> #[trigger] (self.pow)(x, y) * #[trigger] (self.pow)(x, z)
                == #[trigger] (self.pow)(x, w)
        // A power of a power multiplies the exponents.
        &&& forall|x: real, y: real, z: real, w: real|
            x > 0real && y * z == w ==> #[trigger] (self.pow)((self.pow)(x, y), z)
                == #[trigger] (self.pow)(x, w)
        // Bernoulli's inequality.
        &&& forall|x: real, y: real|
            x > 0real && y >= 1real ==> #[trigger] (self.pow)(x, y) >= 1real + y * (x - 1real)
        // The logarithm of a power is the exponent times the logarithm of the base.
        &&& forall|x: real, y: real|
            x > 0real ==> #[trigger] (self.ln)((self.pow)(x, y)) == y * (self.ln)(x)
        // The logarithm vanishes at one only.
        &&& forall|x: real| x > 0real && x != 1real ==> #[trigger] (self.ln)(x) != 0real
    }
}

impl Formula<real> {
    /// What the formula is worth, computed exactly.
    pub open spec fn value(self, exact: Exact) -> real
        decreases self,
    {
        match self {
            Formula::Given(v) => v,
            Formula::Whole(k) => k as real,
            Formula::Neg(a) => -a.value(exact),
            Formula::Ln(a) => (exact.ln)(a.value(exact)),
            Formula::Add(a, b) => a.value(exact) + b.value(exact),
            Formula::Sub(a, b) => a.value(exact) - b.value(exact),
            Formula::Mul(a, b) => a.value(exact) * b.value(exact),
            Formula::Div(a, b) => a.value(exact) / b.value(exact),
            Formula::Pow(a, b) => (exact.pow)(a.value(exact), b.value(exact)),
        }
    }
}

/// Only the base one and the exponent zero give the power one.
proof fn lemma_power_differs_from_one(exact: Exact, x: real, y: real)
    requires
        exact.lawful(),
        x > 0real,
        x != 1real,
        y != 0real,
    ensures
        (exact.pow)(x, y) != 1real,
{
    let unit = (exact.pow)(x, 0real);
    let l = (exact.ln)(x);
    assert(unit * unit == unit);
    assert(unit == 1real) by (nonlinear_arith)
        requires
            unit * unit == unit,
            unit > 0real,
    ;
    assert((exact.ln)(unit) == 0real * l);
    assert((exact.ln)((exact.pow)(x, y)) == y * l);
    assert(y * l != 0real) by (nonlinear_arith)
        requires
            y != 0real,
            l != 0real,
    ;
}

/// Discounting an amount and compounding what comes out gives the amount
/// back, and so does compounding it and discounting what comes out.
pub proof fn lump_sum_values_round_trip(exact: Exact, amount: real, i: real, n: real)
    requires
        exact.lawful(),
        i > -100real,
    ensures
        LumpSum::fv_formula(LumpSum::pv_formula(amount, i, n).value(exact), i, n).value(exact)
            == amount,
        LumpSum::pv_formula(LumpSum::fv_formula(amount, i, n).value(exact), i, n).value(exact)
            == amount,
{
    reveal_with_fuel(Formula::value, 5);
    let g = (exact.pow)(1real + i / 100real, n);
    assert(g > 0real);
    assert((amount / g) * g == amount) by (nonlinear_arith)
        requires
            g != 0real,
    ;
    assert((amount * g) / g == amount) by (nonlinear_arith)
        requires
            g != 0real,
    ;
}

/// The number of periods of a lump sum is recovered from its present value
/// and the future value that the present value grows to.
pub proof fn lump_sum_periods_recovered(exact: Exact, pv: real, i: real, n: real)
    requires
        exact.lawful(),
        pv != 0real,
        i > -100real,
        i != 0real,
    ensures
        LumpSum::n_formula(pv, LumpSum::fv_formula(pv, i, n).value(exact), i).value(exact) == n,
{
    reveal_with_fuel(Formula::value, 5);
    let b = 1real + i / 100real;
    let g = (exact.pow)(b, n);
    let l = (exact.ln)(b);
    assert(b > 0real && b != 1real);
    assert((pv * g) / pv == g) by (nonlinear_arith)
        requires
            pv != 0real,
    ;
    assert((exact.ln)(g) == n * l);
    assert((n * l) / l == n) by (nonlinear_arith)
        requires
            l != 0real,
    ;
}

/// The rate of a lump sum is recovered from its present value and the future
/// value that the present value grows to.
pub proof fn lump_sum_rate_recovered(exact: Exact, pv: real, i: real, n: real)
    requires
        exact.lawful(),
        pv != 0real,
        i > -100real,
        n != 0real,
    ensures
        LumpSum::i_formula(pv, LumpSum::fv_formula(pv, i, n).value(exact), n).value(exact) == i,
{
    reveal_with_fuel(Formula::value, 6);
    let b = 1real + i / 100real;
    let g = (exact.pow)(b, n);
    let fv = LumpSum::fv_formula(pv, i, n).value(exact);
    assert(fv == pv * g);
    assert((pv * g) / pv == g) by (nonlinear_arith)
        requires
            pv != 0real,
    ;
    assert(n * (1real / n) == 1real) by (nonlinear_arith)
        requires
            n != 0real,
    ;
    assert((exact.pow)(g, 1real / n) == (exact.pow)(b, 1real));
    assert(LumpSum::i_formula(pv, fv, n).value(exact) == ((exact.pow)(fv / pv, 1real / n)
        - 1real) * 100real);
}

/// An annuity due is worth what the ordinary annuity is worth, grown by one
/// period: now, and after the last period.
pub proof fn annuity_due_is_ordinary_grown(exact: Exact, pmt: real, i: real, n: real)
    requires
        exact.lawful(),
        i > -100real,
        i != 0real,
    ensures
        Annuity::pv_formula(AnnuityType::AnnuityDue, pmt, i, n).value(exact) == Annuity::pv_formula(
            AnnuityType::RegularAnnuity,
            pmt,
            i,
            n,
        ).value(exact) * growth(i).value(exact),
        Annuity::fv_formula(AnnuityType::AnnuityDue, pmt, i, n).value(exact) == Annuity::fv_formula(
            AnnuityType::RegularAnnuity,
            pmt,
            i,
            n,
        ).value(exact) * growth(i).value(exact),
{
    reveal_with_fuel(Formula::value, 8);
    let r = i / 100real;
    let b = 1real + r;
    let g = (exact.pow)(b, n);
    let h = (exact.pow)(b, n - 1real);
    assert(h * (exact.pow)(b, 1real) == g);
    assert(h > 0real);
    assert(Annuity::pv_formula(AnnuityType::AnnuityDue, pmt, i, n).value(exact) == pmt * ((1real
        - 1real / h) / r) + pmt);
    assert(Annuity::pv_formula(AnnuityType::RegularAnnuity, pmt, i, n).value(exact) == pmt * ((1real
        - 1real / g) / r));
    assert(pmt * ((1real - 1real / h) / r) + pmt == pmt * ((1real - 1real / g) / r) * b)
        by (nonlinear_arith)
        requires
            h > 0real,
            b > 0real,
            r != 0real,
            g == h * b,
            b == 1real + r,
    ;
}

/// At a positive rate and over more than one period, payments at the start
/// of each period are worth more now than the same payments at its end.
pub proof fn annuity_due_is_worth_more(exact: Exact, pmt: real, i: real, n: real)
    requires
        exact.lawful(),
        pmt > 0real,
        i > 0real,
        n > 1real,
    ensures
        Annuity::pv_formula(AnnuityType::AnnuityDue, pmt, i, n).value(exact) > Annuity::pv_formula(
            AnnuityType::RegularAnnuity,
            pmt,
            i,
            n,
        ).value(exact),
{
    annuity_due_is_ordinary_grown(exact, pmt, i, n);
    reveal_with_fuel(Formula::value, 8);
    let r = i / 100real;
    let b = 1real + r;
    let g = (exact.pow)(b, n);
    let ordinary = Annuity::pv_formula(AnnuityType::RegularAnnuity, pmt, i, n).value(exact);
    assert(ordinary == pmt * ((1real - 1real / g) / r));
    assert(g >= 1real + n * (b - 1real));
    assert(g > 1real) by (nonlinear_arith)
        requires
            g >= 1real + n * (b - 1real),
            n > 1real,
            b > 1real,
    ;
    assert(ordinary > 0real) by (nonlinear_arith)
        requires
            ordinary == pmt * ((1real - 1real / g) / r),
            pmt > 0real,
            r > 0real,
            g > 1real,
    ;
    assert(ordinary * b > ordinary) by (nonlinear_arith)
        requires
            ordinary > 0real,
            b > 1real,
    ;
}

/// The payment of an annuity is recovered from the future value that the
/// payments grow to.
pub proof fn annuity_payment_recovered_from_future_value(
    exact: Exact,
    kind: AnnuityType,
    pmt: real,
    i: real,
    n: real,
)
    requires
        exact.lawful(),
        i > -100real,
        i != 0real,
        n != 0real,
    ensures
        Annuity::pmt_from_fv(
            kind,
            Annuity::fv_formula(kind, pmt, i, n).value(exact),
            i,
            n,
        ).value(exact) == pmt,
{
    reveal_with_fuel(Formula::value, 8);
    let r = i / 100real;
    let b = 1real + r;
    let g = (exact.pow)(b, n);
    let k = (g - 1real) / r;
    assert(worth_then(i, n).value(exact) == k);
    lemma_power_differs_from_one(exact, b, n);
    assert(k != 0real) by (nonlinear_arith)
        requires
            g != 1real,
            r != 0real,
            k == (g - 1real) / r,
    ;
    assert((pmt * k) / k == pmt) by (nonlinear_arith)
        requires
            k != 0real,
    ;
    assert((pmt * k * b) / (k * b) == pmt) by (nonlinear_arith)
        requires
            k != 0real,
            b > 0real,
    ;
}

/// The payment of an annuity is recovered from the present value of the
/// payments.
pub proof fn annuity_payment_recovered_from_present_value(
    exact: Exact,
    kind: AnnuityType,
    pmt: real,
    i: real,
    n: real,
)
    requires
        exact.lawful(),
        i > -100real,
        i != 0real,
        n != 0real,
    ensures
        Annuity::pmt_from_pv(
            kind,
            Annuity::pv_formula(kind, pmt, i, n).value(exact),
            i,
            n,
        ).value(exact) == pmt,
{
    reveal_with_fuel(Formula::value, 8);
    let r = i / 100real;
    let b = 1real + r;
    let g = (exact.pow)(b, n);
    let h = (exact.pow)(b, n - 1real);
    lemma_power_differs_from_one(exact, b, n);
    assert(g > 0real && h > 0real);
    assert(h * (exact.pow)(b, 1real) == g);
    match kind {
        AnnuityType::RegularAnnuity => {
            let d = (1real - 1real / g) / r;
            assert(worth_now(i, Formula::Given(n)).value(exact) == d);
            assert(d != 0real) by (nonlinear_arith)
                requires
                    g != 1real,
                    g > 0real,
                    r != 0real,
                    d == (1real - 1real / g) / r,
            ;
            assert((pmt * d) / d == pmt) by (nonlinear_arith)
                requires
                    d != 0real,
            ;
        },
        AnnuityType::AnnuityDue => {
            let d = (1real - 1real / h) / r;
            assert(worth_now(i, Formula::Given(n).minus(Formula::Whole(1))).value(exact) == d);
            assert(d + 1real != 0real) by (nonlinear_arith)
                requires
                    h * b != 1real,
                    h > 0real,
                    r != 0real,
                    b == 1real + r,
                    d == (1real - 1real / h) / r,
            ;
            assert((pmt * d + pmt) / (d + 1real) == pmt) by (nonlinear_arith)
                requires
                    d + 1real != 0real,
            ;
        },
    }
}

/// The number of payments of an annuity is recovered from the present value
/// of the payments.
pub proof fn annuity_periods_recovered_from_present_value(
    exact: Exact,
    kind: AnnuityType,
    pmt: real,
    i: real,
    n: real,
)
    requires
        exact.lawful(),
        pmt != 0real,
        i > -100real,
        i != 0real,
    ensures
        Annuity::n_from_pv(
            kind,
            pmt,
            Annuity::pv_formula(kind, pmt, i, n).value(exact),
            i,
        ).value(exact) == n,
{
    reveal_with_fuel(Formula::value, 10);
    let r = i / 100real;
    let b = 1real + r;
    let l = (exact.ln)(b);
    assert(b > 0real && b != 1real);
    assert(l != 0real);
    // The exponent whose power the logarithm is taken of.
    let m = match kind {
        AnnuityType::RegularAnnuity => n,
        AnnuityType::AnnuityDue => n - 1real,
    };
    let g = (exact.pow)(b, m);
    let inverse = (exact.pow)(b, -m);
    let unit = (exact.pow)(b, 0real);
    assert(g > 0real && inverse > 0real && unit > 0real);
    assert(unit * unit == unit);
    assert(unit == 1real) by (nonlinear_arith)
        requires
            unit * unit == unit,
            unit > 0real,
    ;
    assert(g * inverse == unit);
    assert(inverse == 1real / g) by (nonlinear_arith)
        requires
            g * inverse == 1real,
            g > 0real,
    ;
    assert((exact.ln)(inverse) == -m * l);
    let d = (1real - 1real / g) / r;
    match kind {
        AnnuityType::RegularAnnuity => {
            let pv = pmt * d;
            assert(Annuity::pv_formula(kind, pmt, i, n).value(exact) == pv);
            assert(1real - pv / pmt * r == 1real / g) by (nonlinear_arith)
                requires
                    pv == pmt * d,
                    d == (1real - 1real / g) / r,
                    pmt != 0real,
                    r != 0real,
            ;
            assert(Annuity::n_from_pv(kind, pmt, pv, i).value(exact) == -(exact.ln)(
                1real - pv / pmt * r,
            ) / l);
            assert(-(-m * l) / l == n) by (nonlinear_arith)
                requires
                    l != 0real,
                    m == n,
            ;
        },
        AnnuityType::AnnuityDue => {
            let pv = pmt * d + pmt;
            assert(Annuity::pv_formula(kind, pmt, i, n).value(exact) == pv);
            assert(1real + r * (1real - pv / pmt) == 1real / g) by (nonlinear_arith)
                requires
                    pv == pmt * d + pmt,
                    d == (1real - 1real / g) / r,
                    pmt != 0real,
                    r != 0real,
            ;
            assert(Annuity::n_from_pv(kind, pmt, pv, i).value(exact) == -(exact.ln)(
                1real + r * (1real - pv / pmt),
            ) / l + 1real);
            assert(-(-m * l) / l + 1real == n) by (nonlinear_arith)
                requires
                    l != 0real,
                    m == n - 1real,
            ;
        },
    }
}

/// The number of payments of an annuity is recovered from the future value
/// that the payments grow to.
pub proof fn annuity_periods_recovered_from_future_value(
    exact: Exact,
    kind: AnnuityType,
    pmt: real,
    i: real,
    n: real,
)
    requires
        exact.lawful(),
        pmt != 0real,
        i > -100real,
        i != 0real,
    ensures
        Annuity::n_from_fv(
            kind,
            pmt,
            Annuity::fv_formula(kind, pmt, i, n).value(exact),
            i,
        ).value(exact) == n,
{
    reveal_with_fuel(Formula::value, 8);
    let r = i / 100real;
    let b = 1real + r;
    let l = (exact.ln)(b);
    let g = (exact.pow)(b, n);
    let k = (g - 1real) / r;
    assert(b > 0real && b != 1real);
    assert(l != 0real);
    assert((exact.ln)(g) == n * l);
    assert(worth_then(i, n).value(exact) == k);
    assert((n * l) / l == n) by (nonlinear_arith)
        requires
            l != 0real,
    ;
    match kind {
        AnnuityType::RegularAnnuity => {
            let fv = pmt * k;
            assert(1real + fv / pmt * r == g) by (nonlinear_arith)
                requires
                    fv == pmt * k,
                    k == (g - 1real) / r,
                    pmt != 0real,
                    r != 0real,
            ;
        },
        AnnuityType::AnnuityDue => {
            let fv = pmt * k * b;
            assert(1real + fv / (pmt * b) * r == g) by (nonlinear_arith)
                requires
                    fv == pmt * k * b,
                    k == (g - 1real) / r,
                    pmt != 0real,
                    b > 0real,
                    r != 0real,
            ;
        },
    }
}

/// Compounding once a year changes nothing: the effective annual rate is then
/// the nominal rate.
pub proof fn effective_rate_of_one_period_is_nominal(exact: Exact, i: real)
    requires
        exact.lawful(),
    ensures
        eair_formula(i, 1real).value(exact) == i,
{
    reveal_with_fuel(Formula::value, 8);
    assert(eair_formula(i, 1real).value(exact) == ((exact.pow)(1real + i / 100real / 1real, 1real)
        - 1real) * 100real);
}

/// Compounding never costs: the effective annual rate of a positive nominal
/// rate is not below it.
pub proof fn effective_rate_is_not_below_nominal(exact: Exact, i: real, n: real)
    requires
        exact.lawful(),
        i > 0real,
        n >= 1real,
    ensures
        eair_formula(i, n).value(exact) >= i,
{
    reveal_with_fuel(Formula::value, 8);
    let b = 1real + i / 100real / n;
    let g = (exact.pow)(b, n);
    assert(eair_formula(i, n).value(exact) == (g - 1real) * 100real);
    assert(b > 1real) by (nonlinear_arith)
        requires
            i > 0real,
            n >= 1real,
            b == 1real + i / 100real / n,
    ;
    assert(g >= 1real + n * (b - 1real));
    assert(n * (b - 1real) == i / 100real) by (nonlinear_arith)
        requires
            n >= 1real,
            b - 1real == i / 100real / n,
    ;
}

} // verus!
