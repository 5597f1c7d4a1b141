//! Core tax computation: validate the income, select the lookup mechanism by
//! the $100,000 threshold, and return the tax.

use crate::schedule::lemma_schedule_wf;
use crate::schedule::rate_schedule;
use crate::schedule::schedule_spec;
use crate::table::build_tax_table;
use crate::table::compute_from_tax_table;
use crate::table::lemma_table_lookup_model;
use crate::table::table_tax;
use crate::types::FilingStatus;
use crate::types::TaxError;
use crate::types::TaxYear;
use crate::types::resolve_spec;
use crate::types::resolve_status;
use crate::worksheet::build_worksheet;
use crate::worksheet::compute_from_worksheet;
use crate::worksheet::lemma_ws_lookup_model;
use crate::worksheet::ws_lookup;
use crate::worksheet::ws_model;
use vstd::prelude::*;

verus! {

/// The worksheet tax a year owes an income of $100,000 or more, as a single
/// closed form: the formula value of the first matching bracket of the
/// status's worksheet.
pub open spec fn worksheet_tax(year: TaxYear, status: FilingStatus, x: int) -> int {
    ws_lookup(ws_model(schedule_spec(year, status)), x)->Ok_0
}

/// What `compute_tax` returns for every input: an error exactly for
/// negative income, zero tax for zero income, the Tax Table amount for
/// incomes up to $99,999, and the worksheet formula from $100,000 on, with
/// the surviving-spouse alias resolved before either lookup.
pub open spec fn tax_outcome(year: TaxYear, status: FilingStatus, x: int) -> Result<
    int,
    TaxError,
> {
    if x < 0 {
        Err(TaxError::NegativeIncome)
    } else if x == 0 {
        Ok(0)
    } else if x < 100_000 {
        Ok(table_tax(year, resolve_spec(status), x))
    } else {
        Ok(worksheet_tax(year, resolve_spec(status), x))
    }
}

/// Compute federal income tax for a tax year, filing status, and taxable
/// income in whole dollars.
///
/// Incomes below $100,000 use the Tax Table (a binary search over the
/// year's pre-computed rows); incomes at or above $100,000 use the Tax
/// Computation Worksheet formula `income * rate - subtraction_amount`,
/// rounded to the nearest dollar. The result is pinned to [`tax_outcome`];
/// in particular the call succeeds for every nonnegative income and fails
/// with [`TaxError::NegativeIncome`] exactly on negative incomes.
pub fn compute_tax(year: TaxYear, status: FilingStatus, taxable_income: i64) -> (r: Result<
    i64,
    TaxError,
>)
    ensures
        (r is Ok) == (tax_outcome(year, status, taxable_income as int) is Ok),
        r is Ok ==> r->Ok_0 as int == tax_outcome(year, status, taxable_income as int)->Ok_0,
        r is Err ==> r->Err_0 == tax_outcome(year, status, taxable_income as int)->Err_0,
        (r is Ok) == (taxable_income >= 0),
        taxable_income == 0 ==> r == Ok::<i64, TaxError>(0),
{
    if taxable_income < 0 {
        return Err(TaxError::NegativeIncome);
    }
    if taxable_income == 0 {
        return Ok(0);
    }
    let rstatus = resolve_status(status);
    if taxable_income < 100_000 {
        let rows = build_tax_table(year);
        proof {
            lemma_table_lookup_model(rows@, year, rstatus, taxable_income as int);
        }
        compute_from_tax_table(&rows, rstatus, taxable_income)
    } else {
        proof {
            lemma_schedule_wf(year, rstatus);
        }
        let sched = rate_schedule(year, rstatus);
        let brackets = build_worksheet(&sched);
        proof {
            lemma_ws_lookup_model(sched@, taxable_income as int);
        }
        compute_from_worksheet(&brackets, taxable_income)
    }
}

} // verus!
