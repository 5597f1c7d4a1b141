//! The IRS Tax Table: row geometry, row generation, and row lookup.
//!
//! For incomes below $100,000 the tax is read from a discrete table. Each row
//! covers a small income range and holds, for every filing status, the
//! schedule formula evaluated at the row's midpoint and rounded to the
//! nearest dollar (half rounds up). The rows follow the official layout:
//! $0-$5, $5-$15, $15-$25, then $25-wide rows up to $3,000, then $50-wide
//! rows up to $100,000 - 2,062 rows in all, contiguous and ascending.

use crate::schedule::RateBracket;
use crate::schedule::bracket_of2;
use crate::schedule::find_bracket2;
use crate::schedule::lemma_schedule_wf;
use crate::schedule::rate_schedule;
use crate::schedule::schedule_spec;
use crate::schedule::schedule_wf;
use crate::types::FilingStatus;
use crate::types::TaxError;
use crate::types::TaxYear;
use vstd::prelude::*;

verus! {

/// A single row of the Tax Table: an income range and the pre-computed tax
/// amount for each of the four data columns.
#[derive(Debug, Clone, Copy, PartialEq, Eq, Structural)]
pub struct TaxTableRow {
    /// Lower bound of the income range (inclusive).
    pub income_min: i64,
    /// Upper bound of the income range (exclusive).
    pub income_max: i64,
    /// Tax amount for single filers.
    pub single: i64,
    /// Tax amount for married couples filing jointly.
    pub married_filing_jointly: i64,
    /// Tax amount for married individuals filing separately.
    pub married_filing_separately: i64,
    /// Tax amount for heads of household.
    pub head_of_household: i64,
}

/// Number of rows in a year's Tax Table.
pub const TABLE_ROWS: usize = 2062;

/// Lower bound of table row `i`: rows $0-$5, $5-$15, $15-$25, then $25 wide
/// until $3,000, then $50 wide until $100,000.
pub open spec fn row_lower(i: int) -> int {
    if i <= 0 {
        0
    } else if i == 1 {
        5
    } else if i == 2 {
        15
    } else if i <= 121 {
        25 * (i - 2)
    } else {
        3000 + 50 * (i - 122)
    }
}

/// Upper bound of table row `i`; the rows are contiguous, so it is the next
/// row's lower bound.
pub open spec fn row_upper(i: int) -> int {
    row_lower(i + 1)
}

/// The index of the table row whose range contains income `x`.
pub open spec fn row_index_of(x: int) -> int {
    if x < 5 {
        0
    } else if x < 15 {
        1
    } else if x < 25 {
        2
    } else if x < 3000 {
        3 + (x - 25) / 25
    } else {
        122 + (x - 3000) / 50
    }
}

/// Row lower bounds grow with the index.
pub proof fn lemma_row_lower_mono(i: int, j: int)
    requires
        i <= j,
    ensures
        row_lower(i) <= row_lower(j),
    decreases j - i,
{
    if i < j {
        lemma_row_lower_mono(i, j - 1);
    }
}

/// `row_index_of` indeed locates the row containing `x`, for every income
/// the table covers.
pub proof fn lemma_row_index_of(x: int)
    requires
        0 <= x < 100_000,
    ensures
        0 <= row_index_of(x) < TABLE_ROWS as int,
        row_lower(row_index_of(x)) <= x < row_upper(row_index_of(x)),
{
    if 25 <= x < 3000 {
        assert(25 * ((x - 25) / 25) <= x - 25);
        assert(x - 25 < 25 * ((x - 25) / 25 + 1));
    } else if x >= 3000 {
        assert(50 * ((x - 3000) / 50) <= x - 3000);
        assert(x - 3000 < 50 * ((x - 3000) / 50 + 1));
    }
}

/// Doubled midpoint of row `i` (the midpoint itself may end in half a
/// dollar, so the arithmetic carries twice its value).
pub open spec fn row_mid2(i: int) -> int {
    row_lower(i) + row_upper(i)
}

/// The formula value of the schedule bracket containing `mid2 / 2` dollars,
/// rounded to the nearest whole dollar with halves rounding up.
pub open spec fn table_amount_spec(s: Seq<RateBracket>, mid2: int) -> int {
    let b = s[bracket_of2(s, mid2)];
    (mid2 * b.rate_e4 - 2 * b.subtraction_e4 + 10_000) / 20_000
}

/// The tax amount in row `i` of a year's table, for one data column.
pub open spec fn row_amount(year: TaxYear, status: FilingStatus, i: int) -> int {
    table_amount_spec(schedule_spec(year, status), row_mid2(i))
}

/// Row `i` of a year's Tax Table.
pub open spec fn row_model(year: TaxYear, i: int) -> TaxTableRow {
    TaxTableRow {
        income_min: row_lower(i) as i64,
        income_max: row_upper(i) as i64,
        single: row_amount(year, FilingStatus::Single, i) as i64,
        married_filing_jointly: row_amount(year, FilingStatus::MarriedFilingJointly, i) as i64,
        married_filing_separately: row_amount(
            year,
            FilingStatus::MarriedFilingSeparately,
            i,
        ) as i64,
        head_of_household: row_amount(year, FilingStatus::HeadOfHousehold, i) as i64,
    }
}

/// Compute one table amount: locate the bracket holding the (doubled)
/// midpoint and round the formula value to the nearest dollar, half up.
pub fn table_amount(sched: &Vec<RateBracket>, mid2: i64) -> (a: i64)
    requires
        schedule_wf(sched@),
        0 <= mid2 <= 200_000,
    ensures
        a as int == table_amount_spec(sched@, mid2 as int),
        0 <= a <= 100_000,
{
    let k = find_bracket2(sched, mid2);
    let b = sched[k];
    proof {
        assert(0 < b.rate_e4 <= 10_000 && 0 <= b.subtraction_e4 <= b.rate_e4 * b.income_min);
        assert(mid2 * b.rate_e4 <= 200_000 * 10_000) by (nonlinear_arith)
            requires
                0 <= mid2 <= 200_000,
                0 < b.rate_e4 <= 10_000,
        ;
        assert(0 <= mid2 * b.rate_e4) by (nonlinear_arith)
            requires
                0 <= mid2,
                0 < b.rate_e4,
        ;
        assert(2 * b.subtraction_e4 <= mid2 * b.rate_e4) by (nonlinear_arith)
            requires
                2 * b.income_min <= mid2,
                0 <= b.subtraction_e4 <= b.rate_e4 * b.income_min,
                0 < b.rate_e4,
        ;
    }
    let v2 = mid2 * b.rate_e4 - 2 * b.subtraction_e4;
    (v2 + 10_000) / 20_000
}

/// Build a year's full Tax Table, row by row, from the four rate schedules.
pub fn build_tax_table(year: TaxYear) -> (rows: Vec<TaxTableRow>)
    ensures
        rows@.len() == TABLE_ROWS as int,
        forall|i: int| 0 <= i < TABLE_ROWS as int ==> rows@[i] == row_model(year, i),
{
    let s_single = rate_schedule(year, FilingStatus::Single);
    let s_mfj = rate_schedule(year, FilingStatus::MarriedFilingJointly);
    let s_mfs = rate_schedule(year, FilingStatus::MarriedFilingSeparately);
    let s_hoh = rate_schedule(year, FilingStatus::HeadOfHousehold);
    proof {
        lemma_schedule_wf(year, FilingStatus::Single);
        lemma_schedule_wf(year, FilingStatus::MarriedFilingJointly);
        lemma_schedule_wf(year, FilingStatus::MarriedFilingSeparately);
        lemma_schedule_wf(year, FilingStatus::HeadOfHousehold);
    }
    let mut rows: Vec<TaxTableRow> = Vec::new();
    let mut lower: i64 = 0;
    let mut i: usize = 0;
    while i < TABLE_ROWS
        invariant
            i <= TABLE_ROWS,
            rows@.len() == i as int,
            lower as int == row_lower(i as int),
            forall|j: int| 0 <= j < i as int ==> rows@[j] == row_model(year, j),
            s_single@ == schedule_spec(year, FilingStatus::Single),
            s_mfj@ == schedule_spec(year, FilingStatus::MarriedFilingJointly),
            s_mfs@ == schedule_spec(year, FilingStatus::MarriedFilingSeparately),
            s_hoh@ == schedule_spec(year, FilingStatus::HeadOfHousehold),
            schedule_wf(s_single@),
            schedule_wf(s_mfj@),
            schedule_wf(s_mfs@),
            schedule_wf(s_hoh@),
        decreases TABLE_ROWS - i,
    {
        let width: i64 = if i == 0 {
            5
        } else if i <= 2 {
            10
        } else if i <= 121 {
            25
        } else {
            50
        };
        proof {
            assert(row_lower(i as int + 1) == lower as int + width as int);
            assert(lower as int + width as int <= 100_000);
        }
        let upper = lower + width;
        let mid2 = lower + upper;
        let row = TaxTableRow {
            income_min: lower,
            income_max: upper,
            single: table_amount(&s_single, mid2),
            married_filing_jointly: table_amount(&s_mfj, mid2),
            married_filing_separately: table_amount(&s_mfs, mid2),
            head_of_household: table_amount(&s_hoh, mid2),
        };
        rows.push(row);
        proof {
            assert(rows@[i as int] == row_model(year, i as int));
        }
        lower = upper;
        i += 1;
    }
    rows
}

/// The rows are individually non-empty ranges and pairwise ordered: every
/// earlier row ends at or before a later row begins. This is the invariant
/// the binary search relies on.
pub open spec fn rows_ordered(rows: Seq<TaxTableRow>) -> bool {
    &&& forall|i: int|
        0 <= i < rows.len() ==> (#[trigger] rows[i]).income_min <= rows[i].income_max
    &&& forall|i: int, j: int|
        0 <= i < j < rows.len() ==> (#[trigger] rows[i]).income_max
            <= (#[trigger] rows[j]).income_min
}

/// The adjacent-pair form of [`rows_ordered`]: each row is a non-empty
/// range ending at or before the next row begins.
pub open spec fn rows_adjacent_ordered(rows: Seq<TaxTableRow>) -> bool {
    &&& forall|i: int|
        0 <= i < rows.len() ==> (#[trigger] rows[i]).income_min <= rows[i].income_max
    &&& forall|i: int|
        0 <= i && i + 1 < rows.len() ==> (#[trigger] rows[i]).income_max <= rows[i
            + 1].income_min
}

proof fn lemma_rows_ordered_chain(rows: Seq<TaxTableRow>, i: int, j: int)
    requires
        rows_adjacent_ordered(rows),
        0 <= i < j < rows.len(),
    ensures
        rows[i].income_max <= rows[j].income_min,
    decreases j - i,
{
    if i + 1 < j {
        lemma_rows_ordered_chain(rows, i, j - 1);
    }
}

/// Checking adjacent pairs suffices: the two orderings agree.
pub proof fn lemma_rows_ordered_equiv(rows: Seq<TaxTableRow>)
    ensures
        rows_ordered(rows) == rows_adjacent_ordered(rows),
{
    if rows_adjacent_ordered(rows) {
        assert forall|i: int, j: int| 0 <= i < j < rows.len() implies (#[trigger] rows[i]).income_max
            <= (#[trigger] rows[j]).income_min by {
            lemma_rows_ordered_chain(rows, i, j);
        }
    }
}

/// Validate parsed rows at load time: decide [`rows_ordered`], the
/// invariant the binary search in [`compute_from_tax_table`] relies on.
pub fn rows_ordered_check(rows: &Vec<TaxTableRow>) -> (b: bool)
    ensures
        b == rows_ordered(rows@),
{
    proof {
        lemma_rows_ordered_equiv(rows@);
    }
    let n = rows.len();
    let mut i: usize = 0;
    while i < n
        invariant
            i <= n,
            n == rows@.len(),
            forall|k: int|
                0 <= k < i as int ==> (#[trigger] rows@[k]).income_min <= rows@[k].income_max,
            forall|k: int|
                0 <= k && k + 1 <= i as int && k + 1 < n as int ==> (#[trigger] rows@[k]).income_max
                    <= rows@[k + 1].income_min,
        decreases n - i,
    {
        let row = rows[i];
        if row.income_min > row.income_max {
            return false;
        }
        if i + 1 < n && row.income_max > rows[i + 1].income_min {
            return false;
        }
        i += 1;
    }
    true
}

/// Whether income `x` falls in row `r`'s half-open range.
pub open spec fn row_contains(r: TaxTableRow, x: int) -> bool {
    r.income_min as int <= x < r.income_max as int
}

/// The tax amount a row holds for a filing status. The
/// `QualifyingSurvivingSpouse` arm mirrors the joint column only so the
/// function is total; lookups resolve the alias before reaching a row.
pub open spec fn row_column(r: TaxTableRow, status: FilingStatus) -> int {
    match status {
        FilingStatus::Single => r.single as int,
        FilingStatus::MarriedFilingJointly => r.married_filing_jointly as int,
        FilingStatus::QualifyingSurvivingSpouse => r.married_filing_jointly as int,
        FilingStatus::MarriedFilingSeparately => r.married_filing_separately as int,
        FilingStatus::HeadOfHousehold => r.head_of_household as int,
    }
}

/// What a table lookup returns: the status column of the row containing the
/// income, or `NoBracketFound` when no row does. Under `rows_ordered` the
/// containing row is unique.
pub open spec fn table_lookup(rows: Seq<TaxTableRow>, status: FilingStatus, x: int) -> Result<
    int,
    TaxError,
> {
    if exists|i: int| 0 <= i < rows.len() && row_contains(#[trigger] rows[i], x) {
        let i = choose|i: int| 0 <= i < rows.len() && row_contains(#[trigger] rows[i], x);
        Ok(row_column(rows[i], status))
    } else {
        Err(TaxError::NoBracketFound)
    }
}

/// Look up the tax in a Tax Table (income below $100,000) by binary search
/// over the ordered rows, with a three-way comparison against each row's
/// half-open range.
pub fn compute_from_tax_table(
    rows: &Vec<TaxTableRow>,
    status: FilingStatus,
    taxable_income: i64,
) -> (r: Result<i64, TaxError>)
    requires
        rows_ordered(rows@),
    ensures
        (r is Ok) == (table_lookup(rows@, status, taxable_income as int) is Ok),
        r is Ok ==> r->Ok_0 as int == table_lookup(rows@, status, taxable_income as int)->Ok_0,
        r is Err ==> r->Err_0 == TaxError::NoBracketFound,
{
    let ghost x = taxable_income as int;
    let mut lo: usize = 0;
    let mut hi: usize = rows.len();
    while lo < hi
        invariant
            lo <= hi <= rows@.len(),
            rows_ordered(rows@),
            forall|i: int| 0 <= i < lo as int ==> !row_contains(#[trigger] rows@[i], x),
            forall|i: int| hi as int <= i < rows@.len() ==> !row_contains(#[trigger] rows@[i], x),
            x == taxable_income as int,
        decreases hi - lo,
    {
        let mid = lo + (hi - lo) / 2;
        let row = rows[mid];
        if taxable_income < row.income_min {
            proof {
                assert forall|i: int| mid as int <= i < rows@.len() implies !row_contains(
                    #[trigger] rows@[i],
                    x,
                ) by {
                    if (mid as int) < i {
                        assert(rows@[mid as int].income_max <= rows@[i].income_min);
                    }
                }
            }
            hi = mid;
        } else if taxable_income >= row.income_max {
            proof {
                assert forall|i: int| 0 <= i <= mid as int implies !row_contains(
                    #[trigger] rows@[i],
                    x,
                ) by {
                    if i < (mid as int) {
                        assert(rows@[i].income_max <= rows@[mid as int].income_min);
                    }
                }
            }
            lo = mid + 1;
        } else {
            proof {
                assert(row_contains(rows@[mid as int], x));
                let c = choose|i: int|
                    0 <= i < rows@.len() && row_contains(#[trigger] rows@[i], x);
                if c < (mid as int) {
                    assert(rows@[c].income_max <= rows@[mid as int].income_min);
                } else if (mid as int) < c {
                    assert(rows@[mid as int].income_max <= rows@[c].income_min);
                }
            }
            return Ok(
                match status {
                    FilingStatus::Single => row.single,
                    FilingStatus::MarriedFilingJointly => row.married_filing_jointly,
                    FilingStatus::QualifyingSurvivingSpouse => row.married_filing_jointly,
                    FilingStatus::MarriedFilingSeparately => row.married_filing_separately,
                    FilingStatus::HeadOfHousehold => row.head_of_household,
                },
            );
        }
    }
    Err(TaxError::NoBracketFound)
}

/// The Tax Table amount a year owes an income, as a single closed form: the
/// status column of the row containing the income.
pub open spec fn table_tax(year: TaxYear, status: FilingStatus, x: int) -> int {
    row_column(row_model(year, row_index_of(x)), status)
}

/// A generated table is ordered, and looking an in-range income up in it
/// yields exactly `table_tax`.
pub proof fn lemma_table_lookup_model(
    rows: Seq<TaxTableRow>,
    year: TaxYear,
    status: FilingStatus,
    x: int,
)
    requires
        rows.len() == TABLE_ROWS as int,
        forall|i: int| 0 <= i < TABLE_ROWS as int ==> rows[i] == row_model(year, i),
        0 <= x < 100_000,
    ensures
        rows_ordered(rows),
        table_lookup(rows, status, x) == Ok::<int, TaxError>(table_tax(year, status, x)),
{
    assert forall|i: int| 0 <= i < rows.len() implies (#[trigger] rows[i]).income_min
        <= rows[i].income_max by {
        lemma_row_lower_mono(i, i + 1);
        lemma_row_lower_mono(0, i);
        lemma_row_lower_mono(i + 1, TABLE_ROWS as int);
    }
    assert forall|i: int, j: int| 0 <= i < j < rows.len() implies (#[trigger] rows[i]).income_max
        <= (#[trigger] rows[j]).income_min by {
        lemma_row_lower_mono(i + 1, j);
        lemma_row_lower_mono(0, i + 1);
        lemma_row_lower_mono(j, TABLE_ROWS as int);
    }
    let idx = row_index_of(x);
    lemma_row_index_of(x);
    lemma_row_lower_mono(0, idx);
    lemma_row_lower_mono(idx + 1, TABLE_ROWS as int);
    assert(row_contains(rows[idx], x));
    let c = choose|i: int| 0 <= i < rows.len() && row_contains(#[trigger] rows[i], x);
    if c < idx {
        assert(rows[c].income_max <= rows[idx].income_min);
    } else if idx < c {
        assert(rows[idx].income_max <= rows[c].income_min);
    }
}

} // verus!
