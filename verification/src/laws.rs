//! Stated and proved laws of the tax computation.
//!
//! Each proof function states one property of [`crate::compute::tax_outcome`],
//! the specification that `compute_tax`'s contract pins its result to, so
//! each property carries over to every call of `compute_tax`.

use crate::compute::tax_outcome;
use crate::compute::worksheet_tax;
use crate::schedule::lemma_schedule_wf;
use crate::schedule::schedule_spec;
use crate::table::table_tax;
use crate::types::FilingStatus;
use crate::types::TaxError;
use crate::types::TaxYear;
use crate::types::resolve_spec;
use crate::worksheet::lemma_ws_first_match;
use crate::worksheet::lemma_ws_lookup_model;
use crate::worksheet::round_half_away_e4;
use crate::worksheet::ws_bracket_valid;
use crate::worksheet::ws_first_match;
use crate::worksheet::ws_model;
use vstd::arithmetic::div_mod::lemma_div_is_ordered;
use vstd::arithmetic::mul::lemma_mul_inequality;
use vstd::prelude::*;

verus! {

/// Zero taxable income owes zero tax, for every year and filing status.
pub proof fn lemma_zero_income(year: TaxYear, status: FilingStatus)
    ensures
        tax_outcome(year, status, 0) == Ok::<int, TaxError>(0),
{
}

/// Every negative taxable income fails with `NegativeIncome`, for every
/// year and filing status.
pub proof fn lemma_negative_income(year: TaxYear, status: FilingStatus, x: int)
    requires
        x < 0,
    ensures
        tax_outcome(year, status, x) == Err::<int, TaxError>(TaxError::NegativeIncome),
{
}

/// At the method threshold each side independently matches its own source
/// mechanism: $99,999 is taxed by the Tax Table row containing it, and
/// $100,000 by the worksheet formula. No continuity across the boundary is
/// promised; a small discontinuity between the two mechanisms is expected.
pub proof fn lemma_threshold_dispatch(year: TaxYear, status: FilingStatus)
    ensures
        tax_outcome(year, status, 99_999) == Ok::<int, TaxError>(
            table_tax(year, resolve_spec(status), 99_999),
        ),
        tax_outcome(year, status, 100_000) == Ok::<int, TaxError>(
            worksheet_tax(year, resolve_spec(status), 100_000),
        ),
{
}

/// A qualifying surviving spouse is taxed exactly as married filing
/// jointly, for every year and every income.
pub proof fn lemma_surviving_spouse_matches_joint(year: TaxYear, x: int)
    ensures
        tax_outcome(year, FilingStatus::QualifyingSurvivingSpouse, x) == tax_outcome(
            year,
            FilingStatus::MarriedFilingJointly,
            x,
        ),
{
}

/// Rounding to whole dollars (halves away from zero) never reverses order.
proof fn lemma_round_monotone(v1: int, v2: int)
    requires
        v1 <= v2,
    ensures
        round_half_away_e4(v1) <= round_half_away_e4(v2),
{
    if v1 >= 0 {
        lemma_div_is_ordered(v1 + 5000, v2 + 5000, 10_000);
    } else if v2 < 0 {
        lemma_div_is_ordered(-v2 + 5000, -v1 + 5000, 10_000);
    } else {
        lemma_div_is_ordered(0, v2 + 5000, 10_000);
        lemma_div_is_ordered(0, -v1 + 5000, 10_000);
    }
}

/// Within one worksheet bracket the tax never decreases as income grows:
/// for two incomes of $100,000 or more that the same bracket of the year's
/// worksheet matches, the larger income owes at least as much tax. (Strict
/// growth cannot be promised dollar for dollar, since the formula value is
/// rounded to whole dollars.)
pub proof fn lemma_worksheet_monotone(year: TaxYear, status: FilingStatus, x1: int, x2: int)
    requires
        100_000 <= x1 <= x2,
        ws_first_match(ws_model(schedule_spec(year, resolve_spec(status))), x1) == ws_first_match(
            ws_model(schedule_spec(year, resolve_spec(status))),
            x2,
        ),
    ensures
        worksheet_tax(year, resolve_spec(status), x1) <= worksheet_tax(
            year,
            resolve_spec(status),
            x2,
        ),
{
    let s = schedule_spec(year, resolve_spec(status));
    let bs = ws_model(s);
    lemma_schedule_wf(year, resolve_spec(status));
    lemma_ws_lookup_model(s, x1);
    lemma_ws_lookup_model(s, x2);
    lemma_ws_first_match(bs, x1);
    let m = ws_first_match(bs, x1);
    let b = bs[m];
    assert(ws_bracket_valid(b));
    lemma_mul_inequality(x1, x2, b.rate_e4 as int);
    lemma_round_monotone(x1 * b.rate_e4 - b.subtraction_e4, x2 * b.rate_e4 - b.subtraction_e4);
}

} // verus!
