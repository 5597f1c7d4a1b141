//! Embedded per-year IRS rate schedules and bracket location.
//!
//! A rate schedule is the full piecewise-linear tax formula for one year and
//! one Tax Table column: seven brackets, each taxing income in
//! `[income_min, next income_min)` as `income * rate - subtraction_amount`.
//! Rates are stored in ten-thousandths (2200 is 22%) and subtraction amounts
//! in ten-thousandths of a dollar (429_797_500 is $42,979.75), so every
//! computation in this crate is exact integer arithmetic.
//!
//! Both official lookup mechanisms derive from the schedule: each Tax Table
//! row holds the formula value at the row's income midpoint, rounded to the
//! nearest dollar, and the Tax Computation Worksheet is the schedule clipped
//! to incomes of $100,000 and above.

use crate::types::FilingStatus;
use crate::types::TaxYear;
use vstd::prelude::*;

verus! {

/// One bracket of a year's full rate schedule: for incomes at or above
/// `income_min` and below the next bracket's `income_min`, the tax before
/// rounding is `(income * rate_e4 - subtraction_e4) / 10^4` dollars.
#[derive(Debug, Clone, Copy, PartialEq, Eq, Structural)]
pub struct RateBracket {
    /// Lower bound of the bracket, inclusive, in whole dollars.
    pub income_min: i64,
    /// Rate in ten-thousandths (2200 is 22%).
    pub rate_e4: i64,
    /// Subtraction amount in ten-thousandths of a dollar.
    pub subtraction_e4: i64,
}

/// Rate schedule for tax year 2023, single column.
pub open spec fn sched_2023_single() -> Seq<RateBracket> {
    seq![
        RateBracket { income_min: 0, rate_e4: 1000, subtraction_e4: 0 },
        RateBracket { income_min: 11000, rate_e4: 1200, subtraction_e4: 2200000 },
        RateBracket { income_min: 44725, rate_e4: 2200, subtraction_e4: 46925000 },
        RateBracket { income_min: 95375, rate_e4: 2400, subtraction_e4: 66000000 },
        RateBracket { income_min: 182100, rate_e4: 3200, subtraction_e4: 211680000 },
        RateBracket { income_min: 231250, rate_e4: 3500, subtraction_e4: 281055000 },
        RateBracket { income_min: 578125, rate_e4: 3700, subtraction_e4: 396680000 },
    ]
}

/// Rate schedule for tax year 2023, married joint column.
pub open spec fn sched_2023_married_joint() -> Seq<RateBracket> {
    seq![
        RateBracket { income_min: 0, rate_e4: 1000, subtraction_e4: 0 },
        RateBracket { income_min: 22000, rate_e4: 1200, subtraction_e4: 4400000 },
        RateBracket { income_min: 89450, rate_e4: 2200, subtraction_e4: 93850000 },
        RateBracket { income_min: 190750, rate_e4: 2400, subtraction_e4: 132000000 },
        RateBracket { income_min: 364200, rate_e4: 3200, subtraction_e4: 423360000 },
        RateBracket { income_min: 462500, rate_e4: 3500, subtraction_e4: 562110000 },
        RateBracket { income_min: 693750, rate_e4: 3700, subtraction_e4: 700860000 },
    ]
}

/// Rate schedule for tax year 2023, married separate column.
pub open spec fn sched_2023_married_separate() -> Seq<RateBracket> {
    seq![
        RateBracket { income_min: 0, rate_e4: 1000, subtraction_e4: 0 },
        RateBracket { income_min: 11000, rate_e4: 1200, subtraction_e4: 2200000 },
        RateBracket { income_min: 44725, rate_e4: 2200, subtraction_e4: 46925000 },
        RateBracket { income_min: 95375, rate_e4: 2400, subtraction_e4: 66000000 },
        RateBracket { income_min: 182100, rate_e4: 3200, subtraction_e4: 211680000 },
        RateBracket { income_min: 231250, rate_e4: 3500, subtraction_e4: 281055000 },
        RateBracket { income_min: 346875, rate_e4: 3700, subtraction_e4: 350430000 },
    ]
}

/// Rate schedule for tax year 2023, head of household column.
pub open spec fn sched_2023_head_of_household() -> Seq<RateBracket> {
    seq![
        RateBracket { income_min: 0, rate_e4: 1000, subtraction_e4: 0 },
        RateBracket { income_min: 15700, rate_e4: 1200, subtraction_e4: 3140000 },
        RateBracket { income_min: 59850, rate_e4: 2200, subtraction_e4: 62990000 },
        RateBracket { income_min: 95350, rate_e4: 2400, subtraction_e4: 82060000 },
        RateBracket { income_min: 182100, rate_e4: 3200, subtraction_e4: 227740000 },
        RateBracket { income_min: 231250, rate_e4: 3500, subtraction_e4: 297115000 },
        RateBracket { income_min: 578100, rate_e4: 3700, subtraction_e4: 412735000 },
    ]
}

/// Rate schedule for tax year 2024, single column.
pub open spec fn sched_2024_single() -> Seq<RateBracket> {
    seq![
        RateBracket { income_min: 0, rate_e4: 1000, subtraction_e4: 0 },
        RateBracket { income_min: 11600, rate_e4: 1200, subtraction_e4: 2320000 },
        RateBracket { income_min: 47150, rate_e4: 2200, subtraction_e4: 49470000 },
        RateBracket { income_min: 100525, rate_e4: 2400, subtraction_e4: 69575000 },
        RateBracket { income_min: 191950, rate_e4: 3200, subtraction_e4: 223135000 },
        RateBracket { income_min: 243725, rate_e4: 3500, subtraction_e4: 296252500 },
        RateBracket { income_min: 609350, rate_e4: 3700, subtraction_e4: 418122500 },
    ]
}

/// Rate schedule for tax year 2024, married joint column.
pub open spec fn sched_2024_married_joint() -> Seq<RateBracket> {
    seq![
        RateBracket { income_min: 0, rate_e4: 1000, subtraction_e4: 0 },
        RateBracket { income_min: 23200, rate_e4: 1200, subtraction_e4: 4640000 },
        RateBracket { income_min: 94300, rate_e4: 2200, subtraction_e4: 98940000 },
        RateBracket { income_min: 201050, rate_e4: 2400, subtraction_e4: 139150000 },
        RateBracket { income_min: 383900, rate_e4: 3200, subtraction_e4: 446270000 },
        RateBracket { income_min: 487450, rate_e4: 3500, subtraction_e4: 592505000 },
        RateBracket { income_min: 731200, rate_e4: 3700, subtraction_e4: 738745000 },
    ]
}

/// Rate schedule for tax year 2024, married separate column.
pub open spec fn sched_2024_married_separate() -> Seq<RateBracket> {
    seq![
        RateBracket { income_min: 0, rate_e4: 1000, subtraction_e4: 0 },
        RateBracket { income_min: 11600, rate_e4: 1200, subtraction_e4: 2320000 },
        RateBracket { income_min: 47150, rate_e4: 2200, subtraction_e4: 49470000 },
        RateBracket { income_min: 100525, rate_e4: 2400, subtraction_e4: 69575000 },
        RateBracket { income_min: 191950, rate_e4: 3200, subtraction_e4: 223135000 },
        RateBracket { income_min: 243725, rate_e4: 3500, subtraction_e4: 296252500 },
        RateBracket { income_min: 365600, rate_e4: 3700, subtraction_e4: 369372500 },
    ]
}

/// Rate schedule for tax year 2024, head of household column.
pub open spec fn sched_2024_head_of_household() -> Seq<RateBracket> {
    seq![
        RateBracket { income_min: 0, rate_e4: 1000, subtraction_e4: 0 },
        RateBracket { income_min: 16550, rate_e4: 1200, subtraction_e4: 3310000 },
        RateBracket { income_min: 63100, rate_e4: 2200, subtraction_e4: 66410000 },
        RateBracket { income_min: 100500, rate_e4: 2400, subtraction_e4: 86510000 },
        RateBracket { income_min: 191950, rate_e4: 3200, subtraction_e4: 240070000 },
        RateBracket { income_min: 243700, rate_e4: 3500, subtraction_e4: 313180000 },
        RateBracket { income_min: 609350, rate_e4: 3700, subtraction_e4: 435050000 },
    ]
}

/// Rate schedule for tax year 2025, single column.
pub open spec fn sched_2025_single() -> Seq<RateBracket> {
    seq![
        RateBracket { income_min: 0, rate_e4: 1000, subtraction_e4: 0 },
        RateBracket { income_min: 11925, rate_e4: 1200, subtraction_e4: 2385000 },
        RateBracket { income_min: 48475, rate_e4: 2200, subtraction_e4: 50860000 },
        RateBracket { income_min: 103350, rate_e4: 2400, subtraction_e4: 71530000 },
        RateBracket { income_min: 197300, rate_e4: 3200, subtraction_e4: 229370000 },
        RateBracket { income_min: 250525, rate_e4: 3500, subtraction_e4: 304527500 },
        RateBracket { income_min: 626350, rate_e4: 3700, subtraction_e4: 429797500 },
    ]
}

/// Rate schedule for tax year 2025, married joint column.
pub open spec fn sched_2025_married_joint() -> Seq<RateBracket> {
    seq![
        RateBracket { income_min: 0, rate_e4: 1000, subtraction_e4: 0 },
        RateBracket { income_min: 23850, rate_e4: 1200, subtraction_e4: 4770000 },
        RateBracket { income_min: 96950, rate_e4: 2200, subtraction_e4: 101720000 },
        RateBracket { income_min: 206700, rate_e4: 2400, subtraction_e4: 143060000 },
        RateBracket { income_min: 394600, rate_e4: 3200, subtraction_e4: 458740000 },
        RateBracket { income_min: 501050, rate_e4: 3500, subtraction_e4: 609055000 },
        RateBracket { income_min: 751600, rate_e4: 3700, subtraction_e4: 759375000 },
    ]
}

/// Rate schedule for tax year 2025, married separate column.
pub open spec fn sched_2025_married_separate() -> Seq<RateBracket> {
    seq![
        RateBracket { income_min: 0, rate_e4: 1000, subtraction_e4: 0 },
        RateBracket { income_min: 11925, rate_e4: 1200, subtraction_e4: 2385000 },
        RateBracket { income_min: 48475, rate_e4: 2200, subtraction_e4: 50860000 },
        RateBracket { income_min: 103350, rate_e4: 2400, subtraction_e4: 71530000 },
        RateBracket { income_min: 197300, rate_e4: 3200, subtraction_e4: 229370000 },
        RateBracket { income_min: 250525, rate_e4: 3500, subtraction_e4: 304527500 },
        RateBracket { income_min: 375800, rate_e4: 3700, subtraction_e4: 379687500 },
    ]
}

/// Rate schedule for tax year 2025, head of household column.
pub open spec fn sched_2025_head_of_household() -> Seq<RateBracket> {
    seq![
        RateBracket { income_min: 0, rate_e4: 1000, subtraction_e4: 0 },
        RateBracket { income_min: 17000, rate_e4: 1200, subtraction_e4: 3400000 },
        RateBracket { income_min: 64850, rate_e4: 2200, subtraction_e4: 68250000 },
        RateBracket { income_min: 103350, rate_e4: 2400, subtraction_e4: 88920000 },
        RateBracket { income_min: 197300, rate_e4: 3200, subtraction_e4: 246760000 },
        RateBracket { income_min: 250500, rate_e4: 3500, subtraction_e4: 321910000 },
        RateBracket { income_min: 626350, rate_e4: 3700, subtraction_e4: 447180000 },
    ]
}

/// The rate schedule of a year and filing status. The
/// `QualifyingSurvivingSpouse` arm mirrors `MarriedFilingJointly` only so the
/// function is total; lookups resolve the alias before reaching the data.
pub open spec fn schedule_spec(year: TaxYear, status: FilingStatus) -> Seq<RateBracket> {
    match (year, status) {
        (TaxYear::Y2023, FilingStatus::Single) => sched_2023_single(),
        (TaxYear::Y2023, FilingStatus::MarriedFilingJointly)
        | (TaxYear::Y2023, FilingStatus::QualifyingSurvivingSpouse) => sched_2023_married_joint(),
        (TaxYear::Y2023, FilingStatus::MarriedFilingSeparately) => sched_2023_married_separate(),
        (TaxYear::Y2023, FilingStatus::HeadOfHousehold) => sched_2023_head_of_household(),
        (TaxYear::Y2024, FilingStatus::Single) => sched_2024_single(),
        (TaxYear::Y2024, FilingStatus::MarriedFilingJointly)
        | (TaxYear::Y2024, FilingStatus::QualifyingSurvivingSpouse) => sched_2024_married_joint(),
        (TaxYear::Y2024, FilingStatus::MarriedFilingSeparately) => sched_2024_married_separate(),
        (TaxYear::Y2024, FilingStatus::HeadOfHousehold) => sched_2024_head_of_household(),
        (TaxYear::Y2025, FilingStatus::Single) => sched_2025_single(),
        (TaxYear::Y2025, FilingStatus::MarriedFilingJointly)
        | (TaxYear::Y2025, FilingStatus::QualifyingSurvivingSpouse) => sched_2025_married_joint(),
        (TaxYear::Y2025, FilingStatus::MarriedFilingSeparately) => sched_2025_married_separate(),
        (TaxYear::Y2025, FilingStatus::HeadOfHousehold) => sched_2025_head_of_household(),
    }
}

/// A single schedule bracket is well formed: bounds that keep all later
/// arithmetic inside `i64`, a rate that is a positive fraction of at most
/// 100%, and a subtraction amount between 0 and `rate * income_min` (the
/// latter holds of every progressive schedule and keeps the formula value
/// nonnegative inside the bracket).
pub open spec fn bracket_wf(b: RateBracket) -> bool {
    &&& 0 <= b.income_min <= 1_000_000
    &&& 0 < b.rate_e4 <= 10_000
    &&& 0 <= b.subtraction_e4 <= b.rate_e4 * b.income_min
}

/// A full rate schedule is well formed: seven brackets, starting at $0,
/// strictly increasing, with the top bracket beginning above the $100,000
/// table/worksheet threshold.
pub open spec fn schedule_wf(s: Seq<RateBracket>) -> bool {
    &&& s.len() == 7
    &&& s[0].income_min == 0
    &&& s[6].income_min > 100_000
    &&& forall|i: int, j: int|
        0 <= i < j < s.len() ==> (#[trigger] s[i]).income_min < (#[trigger] s[j]).income_min
    &&& forall|k: int| 0 <= k < s.len() ==> bracket_wf(#[trigger] s[k])
}

#[verifier::rlimit(50)]
proof fn lemma_wf_2023_single()
    ensures
        schedule_wf(sched_2023_single()),
{
    let s = sched_2023_single();
    assert forall|i: int, j: int| 0 <= i < j < s.len() implies (#[trigger] s[i]).income_min
        < (#[trigger] s[j]).income_min by {
        assert(s[0].income_min < s[1].income_min < s[2].income_min < s[3].income_min
            < s[4].income_min < s[5].income_min < s[6].income_min);
    }
    assert forall|k: int| 0 <= k < s.len() implies bracket_wf(#[trigger] s[k]) by {
        assert(bracket_wf(s[0]) && bracket_wf(s[1]) && bracket_wf(s[2]) && bracket_wf(s[3])
            && bracket_wf(s[4]) && bracket_wf(s[5]) && bracket_wf(s[6]));
    }
}

#[verifier::rlimit(50)]
proof fn lemma_wf_2023_mfj()
    ensures
        schedule_wf(sched_2023_married_joint()),
{
    let s = sched_2023_married_joint();
    assert forall|i: int, j: int| 0 <= i < j < s.len() implies (#[trigger] s[i]).income_min
        < (#[trigger] s[j]).income_min by {
        assert(s[0].income_min < s[1].income_min < s[2].income_min < s[3].income_min
            < s[4].income_min < s[5].income_min < s[6].income_min);
    }
    assert forall|k: int| 0 <= k < s.len() implies bracket_wf(#[trigger] s[k]) by {
        assert(bracket_wf(s[0]) && bracket_wf(s[1]) && bracket_wf(s[2]) && bracket_wf(s[3])
            && bracket_wf(s[4]) && bracket_wf(s[5]) && bracket_wf(s[6]));
    }
}

#[verifier::rlimit(50)]
proof fn lemma_wf_2023_mfs()
    ensures
        schedule_wf(sched_2023_married_separate()),
{
    let s = sched_2023_married_separate();
    assert forall|i: int, j: int| 0 <= i < j < s.len() implies (#[trigger] s[i]).income_min
        < (#[trigger] s[j]).income_min by {
        assert(s[0].income_min < s[1].income_min < s[2].income_min < s[3].income_min
            < s[4].income_min < s[5].income_min < s[6].income_min);
    }
    assert forall|k: int| 0 <= k < s.len() implies bracket_wf(#[trigger] s[k]) by {
        assert(bracket_wf(s[0]) && bracket_wf(s[1]) && bracket_wf(s[2]) && bracket_wf(s[3])
            && bracket_wf(s[4]) && bracket_wf(s[5]) && bracket_wf(s[6]));
    }
}

#[verifier::rlimit(50)]
proof fn lemma_wf_2023_hoh()
    ensures
        schedule_wf(sched_2023_head_of_household()),
{
    let s = sched_2023_head_of_household();
    assert forall|i: int, j: int| 0 <= i < j < s.len() implies (#[trigger] s[i]).income_min
        < (#[trigger] s[j]).income_min by {
        assert(s[0].income_min < s[1].income_min < s[2].income_min < s[3].income_min
            < s[4].income_min < s[5].income_min < s[6].income_min);
    }
    assert forall|k: int| 0 <= k < s.len() implies bracket_wf(#[trigger] s[k]) by {
        assert(bracket_wf(s[0]) && bracket_wf(s[1]) && bracket_wf(s[2]) && bracket_wf(s[3])
            && bracket_wf(s[4]) && bracket_wf(s[5]) && bracket_wf(s[6]));
    }
}

#[verifier::rlimit(50)]
proof fn lemma_wf_2024_single()
    ensures
        schedule_wf(sched_2024_single()),
{
    let s = sched_2024_single();
    assert forall|i: int, j: int| 0 <= i < j < s.len() implies (#[trigger] s[i]).income_min
        < (#[trigger] s[j]).income_min by {
        assert(s[0].income_min < s[1].income_min < s[2].income_min < s[3].income_min
            < s[4].income_min < s[5].income_min < s[6].income_min);
    }
    assert forall|k: int| 0 <= k < s.len() implies bracket_wf(#[trigger] s[k]) by {
        assert(bracket_wf(s[0]) && bracket_wf(s[1]) && bracket_wf(s[2]) && bracket_wf(s[3])
            && bracket_wf(s[4]) && bracket_wf(s[5]) && bracket_wf(s[6]));
    }
}

#[verifier::rlimit(50)]
proof fn lemma_wf_2024_mfj()
    ensures
        schedule_wf(sched_2024_married_joint()),
{
    let s = sched_2024_married_joint();
    assert forall|i: int, j: int| 0 <= i < j < s.len() implies (#[trigger] s[i]).income_min
        < (#[trigger] s[j]).income_min by {
        assert(s[0].income_min < s[1].income_min < s[2].income_min < s[3].income_min
            < s[4].income_min < s[5].income_min < s[6].income_min);
    }
    assert forall|k: int| 0 <= k < s.len() implies bracket_wf(#[trigger] s[k]) by {
        assert(bracket_wf(s[0]) && bracket_wf(s[1]) && bracket_wf(s[2]) && bracket_wf(s[3])
            && bracket_wf(s[4]) && bracket_wf(s[5]) && bracket_wf(s[6]));
    }
}

#[verifier::rlimit(50)]
proof fn lemma_wf_2024_mfs()
    ensures
        schedule_wf(sched_2024_married_separate()),
{
    let s = sched_2024_married_separate();
    assert forall|i: int, j: int| 0 <= i < j < s.len() implies (#[trigger] s[i]).income_min
        < (#[trigger] s[j]).income_min by {
        assert(s[0].income_min < s[1].income_min < s[2].income_min < s[3].income_min
            < s[4].income_min < s[5].income_min < s[6].income_min);
    }
    assert forall|k: int| 0 <= k < s.len() implies bracket_wf(#[trigger] s[k]) by {
        assert(bracket_wf(s[0]) && bracket_wf(s[1]) && bracket_wf(s[2]) && bracket_wf(s[3])
            && bracket_wf(s[4]) && bracket_wf(s[5]) && bracket_wf(s[6]));
    }
}

#[verifier::rlimit(50)]
proof fn lemma_wf_2024_hoh()
    ensures
        schedule_wf(sched_2024_head_of_household()),
{
    let s = sched_2024_head_of_household();
    assert forall|i: int, j: int| 0 <= i < j < s.len() implies (#[trigger] s[i]).income_min
        < (#[trigger] s[j]).income_min by {
        assert(s[0].income_min < s[1].income_min < s[2].income_min < s[3].income_min
            < s[4].income_min < s[5].income_min < s[6].income_min);
    }
    assert forall|k: int| 0 <= k < s.len() implies bracket_wf(#[trigger] s[k]) by {
        assert(bracket_wf(s[0]) && bracket_wf(s[1]) && bracket_wf(s[2]) && bracket_wf(s[3])
            && bracket_wf(s[4]) && bracket_wf(s[5]) && bracket_wf(s[6]));
    }
}

#[verifier::rlimit(50)]
proof fn lemma_wf_2025_single()
    ensures
        schedule_wf(sched_2025_single()),
{
    let s = sched_2025_single();
    assert forall|i: int, j: int| 0 <= i < j < s.len() implies (#[trigger] s[i]).income_min
        < (#[trigger] s[j]).income_min by {
        assert(s[0].income_min < s[1].income_min < s[2].income_min < s[3].income_min
            < s[4].income_min < s[5].income_min < s[6].income_min);
    }
    assert forall|k: int| 0 <= k < s.len() implies bracket_wf(#[trigger] s[k]) by {
        assert(bracket_wf(s[0]) && bracket_wf(s[1]) && bracket_wf(s[2]) && bracket_wf(s[3])
            && bracket_wf(s[4]) && bracket_wf(s[5]) && bracket_wf(s[6]));
    }
}

#[verifier::rlimit(50)]
proof fn lemma_wf_2025_mfj()
    ensures
        schedule_wf(sched_2025_married_joint()),
{
    let s = sched_2025_married_joint();
    assert forall|i: int, j: int| 0 <= i < j < s.len() implies (#[trigger] s[i]).income_min
        < (#[trigger] s[j]).income_min by {
        assert(s[0].income_min < s[1].income_min < s[2].income_min < s[3].income_min
            < s[4].income_min < s[5].income_min < s[6].income_min);
    }
    assert forall|k: int| 0 <= k < s.len() implies bracket_wf(#[trigger] s[k]) by {
        assert(bracket_wf(s[0]) && bracket_wf(s[1]) && bracket_wf(s[2]) && bracket_wf(s[3])
            && bracket_wf(s[4]) && bracket_wf(s[5]) && bracket_wf(s[6]));
    }
}

#[verifier::rlimit(50)]
proof fn lemma_wf_2025_mfs()
    ensures
        schedule_wf(sched_2025_married_separate()),
{
    let s = sched_2025_married_separate();
    assert forall|i: int, j: int| 0 <= i < j < s.len() implies (#[trigger] s[i]).income_min
        < (#[trigger] s[j]).income_min by {
        assert(s[0].income_min < s[1].income_min < s[2].income_min < s[3].income_min
            < s[4].income_min < s[5].income_min < s[6].income_min);
    }
    assert forall|k: int| 0 <= k < s.len() implies bracket_wf(#[trigger] s[k]) by {
        assert(bracket_wf(s[0]) && bracket_wf(s[1]) && bracket_wf(s[2]) && bracket_wf(s[3])
            && bracket_wf(s[4]) && bracket_wf(s[5]) && bracket_wf(s[6]));
    }
}

#[verifier::rlimit(50)]
proof fn lemma_wf_2025_hoh()
    ensures
        schedule_wf(sched_2025_head_of_household()),
{
    let s = sched_2025_head_of_household();
    assert forall|i: int, j: int| 0 <= i < j < s.len() implies (#[trigger] s[i]).income_min
        < (#[trigger] s[j]).income_min by {
        assert(s[0].income_min < s[1].income_min < s[2].income_min < s[3].income_min
            < s[4].income_min < s[5].income_min < s[6].income_min);
    }
    assert forall|k: int| 0 <= k < s.len() implies bracket_wf(#[trigger] s[k]) by {
        assert(bracket_wf(s[0]) && bracket_wf(s[1]) && bracket_wf(s[2]) && bracket_wf(s[3])
            && bracket_wf(s[4]) && bracket_wf(s[5]) && bracket_wf(s[6]));
    }
}

/// Every embedded schedule is well formed.
pub proof fn lemma_schedule_wf(year: TaxYear, status: FilingStatus)
    ensures
        schedule_wf(schedule_spec(year, status)),
{
    match (year, status) {
        (TaxYear::Y2023, FilingStatus::Single) => {
            lemma_wf_2023_single();
        },
        (TaxYear::Y2023, FilingStatus::MarriedFilingJointly)
        | (TaxYear::Y2023, FilingStatus::QualifyingSurvivingSpouse) => {
            lemma_wf_2023_mfj();
        },
        (TaxYear::Y2023, FilingStatus::MarriedFilingSeparately) => {
            lemma_wf_2023_mfs();
        },
        (TaxYear::Y2023, FilingStatus::HeadOfHousehold) => {
            lemma_wf_2023_hoh();
        },
        (TaxYear::Y2024, FilingStatus::Single) => {
            lemma_wf_2024_single();
        },
        (TaxYear::Y2024, FilingStatus::MarriedFilingJointly)
        | (TaxYear::Y2024, FilingStatus::QualifyingSurvivingSpouse) => {
            lemma_wf_2024_mfj();
        },
        (TaxYear::Y2024, FilingStatus::MarriedFilingSeparately) => {
            lemma_wf_2024_mfs();
        },
        (TaxYear::Y2024, FilingStatus::HeadOfHousehold) => {
            lemma_wf_2024_hoh();
        },
        (TaxYear::Y2025, FilingStatus::Single) => {
            lemma_wf_2025_single();
        },
        (TaxYear::Y2025, FilingStatus::MarriedFilingJointly)
        | (TaxYear::Y2025, FilingStatus::QualifyingSurvivingSpouse) => {
            lemma_wf_2025_mfj();
        },
        (TaxYear::Y2025, FilingStatus::MarriedFilingSeparately) => {
            lemma_wf_2025_mfs();
        },
        (TaxYear::Y2025, FilingStatus::HeadOfHousehold) => {
            lemma_wf_2025_hoh();
        },
    }
}

/// Build the rate schedule of a year and filing status as a vector. The
/// `QualifyingSurvivingSpouse` arm mirrors `MarriedFilingJointly` only so the
/// function is total; callers resolve the alias first.
pub fn rate_schedule(year: TaxYear, status: FilingStatus) -> (v: Vec<RateBracket>)
    ensures
        v@ == schedule_spec(year, status),
{
    let mut v: Vec<RateBracket> = Vec::new();
    match (year, status) {
        (TaxYear::Y2023, FilingStatus::Single) => {
            v.push(RateBracket { income_min: 0, rate_e4: 1000, subtraction_e4: 0 });
            v.push(RateBracket { income_min: 11000, rate_e4: 1200, subtraction_e4: 2200000 });
            v.push(RateBracket { income_min: 44725, rate_e4: 2200, subtraction_e4: 46925000 });
            v.push(RateBracket { income_min: 95375, rate_e4: 2400, subtraction_e4: 66000000 });
            v.push(RateBracket { income_min: 182100, rate_e4: 3200, subtraction_e4: 211680000 });
            v.push(RateBracket { income_min: 231250, rate_e4: 3500, subtraction_e4: 281055000 });
            v.push(RateBracket { income_min: 578125, rate_e4: 3700, subtraction_e4: 396680000 });
            proof { assert(v@ =~= sched_2023_single()); }
        },
        (TaxYear::Y2023, FilingStatus::MarriedFilingJointly)
        | (TaxYear::Y2023, FilingStatus::QualifyingSurvivingSpouse) => {
            v.push(RateBracket { income_min: 0, rate_e4: 1000, subtraction_e4: 0 });
            v.push(RateBracket { income_min: 22000, rate_e4: 1200, subtraction_e4: 4400000 });
            v.push(RateBracket { income_min: 89450, rate_e4: 2200, subtraction_e4: 93850000 });
            v.push(RateBracket { income_min: 190750, rate_e4: 2400, subtraction_e4: 132000000 });
            v.push(RateBracket { income_min: 364200, rate_e4: 3200, subtraction_e4: 423360000 });
            v.push(RateBracket { income_min: 462500, rate_e4: 3500, subtraction_e4: 562110000 });
            v.push(RateBracket { income_min: 693750, rate_e4: 3700, subtraction_e4: 700860000 });
            proof { assert(v@ =~= sched_2023_married_joint()); }
        },
        (TaxYear::Y2023, FilingStatus::MarriedFilingSeparately) => {
            v.push(RateBracket { income_min: 0, rate_e4: 1000, subtraction_e4: 0 });
            v.push(RateBracket { income_min: 11000, rate_e4: 1200, subtraction_e4: 2200000 });
            v.push(RateBracket { income_min: 44725, rate_e4: 2200, subtraction_e4: 46925000 });
            v.push(RateBracket { income_min: 95375, rate_e4: 2400, subtraction_e4: 66000000 });
            v.push(RateBracket { income_min: 182100, rate_e4: 3200, subtraction_e4: 211680000 });
            v.push(RateBracket { income_min: 231250, rate_e4: 3500, subtraction_e4: 281055000 });
            v.push(RateBracket { income_min: 346875, rate_e4: 3700, subtraction_e4: 350430000 });
            proof { assert(v@ =~= sched_2023_married_separate()); }
        },
        (TaxYear::Y2023, FilingStatus::HeadOfHousehold) => {
            v.push(RateBracket { income_min: 0, rate_e4: 1000, subtraction_e4: 0 });
            v.push(RateBracket { income_min: 15700, rate_e4: 1200, subtraction_e4: 3140000 });
            v.push(RateBracket { income_min: 59850, rate_e4: 2200, subtraction_e4: 62990000 });
            v.push(RateBracket { income_min: 95350, rate_e4: 2400, subtraction_e4: 82060000 });
            v.push(RateBracket { income_min: 182100, rate_e4: 3200, subtraction_e4: 227740000 });
            v.push(RateBracket { income_min: 231250, rate_e4: 3500, subtraction_e4: 297115000 });
            v.push(RateBracket { income_min: 578100, rate_e4: 3700, subtraction_e4: 412735000 });
            proof { assert(v@ =~= sched_2023_head_of_household()); }
        },
        (TaxYear::Y2024, FilingStatus::Single) => {
            v.push(RateBracket { income_min: 0, rate_e4: 1000, subtraction_e4: 0 });
            v.push(RateBracket { income_min: 11600, rate_e4: 1200, subtraction_e4: 2320000 });
            v.push(RateBracket { income_min: 47150, rate_e4: 2200, subtraction_e4: 49470000 });
            v.push(RateBracket { income_min: 100525, rate_e4: 2400, subtraction_e4: 69575000 });
            v.push(RateBracket { income_min: 191950, rate_e4: 3200, subtraction_e4: 223135000 });
            v.push(RateBracket { income_min: 243725, rate_e4: 3500, subtraction_e4: 296252500 });
            v.push(RateBracket { income_min: 609350, rate_e4: 3700, subtraction_e4: 418122500 });
            proof { assert(v@ =~= sched_2024_single()); }
        },
        (TaxYear::Y2024, FilingStatus::MarriedFilingJointly)
        | (TaxYear::Y2024, FilingStatus::QualifyingSurvivingSpouse) => {
            v.push(RateBracket { income_min: 0, rate_e4: 1000, subtraction_e4: 0 });
            v.push(RateBracket { income_min: 23200, rate_e4: 1200, subtraction_e4: 4640000 });
            v.push(RateBracket { income_min: 94300, rate_e4: 2200, subtraction_e4: 98940000 });
            v.push(RateBracket { income_min: 201050, rate_e4: 2400, subtraction_e4: 139150000 });
            v.push(RateBracket { income_min: 383900, rate_e4: 3200, subtraction_e4: 446270000 });
            v.push(RateBracket { income_min: 487450, rate_e4: 3500, subtraction_e4: 592505000 });
            v.push(RateBracket { income_min: 731200, rate_e4: 3700, subtraction_e4: 738745000 });
            proof { assert(v@ =~= sched_2024_married_joint()); }
        },
        (TaxYear::Y2024, FilingStatus::MarriedFilingSeparately) => {
            v.push(RateBracket { income_min: 0, rate_e4: 1000, subtraction_e4: 0 });
            v.push(RateBracket { income_min: 11600, rate_e4: 1200, subtraction_e4: 2320000 });
            v.push(RateBracket { income_min: 47150, rate_e4: 2200, subtraction_e4: 49470000 });
            v.push(RateBracket { income_min: 100525, rate_e4: 2400, subtraction_e4: 69575000 });
            v.push(RateBracket { income_min: 191950, rate_e4: 3200, subtraction_e4: 223135000 });
            v.push(RateBracket { income_min: 243725, rate_e4: 3500, subtraction_e4: 296252500 });
            v.push(RateBracket { income_min: 365600, rate_e4: 3700, subtraction_e4: 369372500 });
            proof { assert(v@ =~= sched_2024_married_separate()); }
        },
        (TaxYear::Y2024, FilingStatus::HeadOfHousehold) => {
            v.push(RateBracket { income_min: 0, rate_e4: 1000, subtraction_e4: 0 });
            v.push(RateBracket { income_min: 16550, rate_e4: 1200, subtraction_e4: 3310000 });
            v.push(RateBracket { income_min: 63100, rate_e4: 2200, subtraction_e4: 66410000 });
            v.push(RateBracket { income_min: 100500, rate_e4: 2400, subtraction_e4: 86510000 });
            v.push(RateBracket { income_min: 191950, rate_e4: 3200, subtraction_e4: 240070000 });
            v.push(RateBracket { income_min: 243700, rate_e4: 3500, subtraction_e4: 313180000 });
            v.push(RateBracket { income_min: 609350, rate_e4: 3700, subtraction_e4: 435050000 });
            proof { assert(v@ =~= sched_2024_head_of_household()); }
        },
        (TaxYear::Y2025, FilingStatus::Single) => {
            v.push(RateBracket { income_min: 0, rate_e4: 1000, subtraction_e4: 0 });
            v.push(RateBracket { income_min: 11925, rate_e4: 1200, subtraction_e4: 2385000 });
            v.push(RateBracket { income_min: 48475, rate_e4: 2200, subtraction_e4: 50860000 });
            v.push(RateBracket { income_min: 103350, rate_e4: 2400, subtraction_e4: 71530000 });
            v.push(RateBracket { income_min: 197300, rate_e4: 3200, subtraction_e4: 229370000 });
            v.push(RateBracket { income_min: 250525, rate_e4: 3500, subtraction_e4: 304527500 });
            v.push(RateBracket { income_min: 626350, rate_e4: 3700, subtraction_e4: 429797500 });
            proof { assert(v@ =~= sched_2025_single()); }
        },
        (TaxYear::Y2025, FilingStatus::MarriedFilingJointly)
        | (TaxYear::Y2025, FilingStatus::QualifyingSurvivingSpouse) => {
            v.push(RateBracket { income_min: 0, rate_e4: 1000, subtraction_e4: 0 });
            v.push(RateBracket { income_min: 23850, rate_e4: 1200, subtraction_e4: 4770000 });
            v.push(RateBracket { income_min: 96950, rate_e4: 2200, subtraction_e4: 101720000 });
            v.push(RateBracket { income_min: 206700, rate_e4: 2400, subtraction_e4: 143060000 });
            v.push(RateBracket { income_min: 394600, rate_e4: 3200, subtraction_e4: 458740000 });
            v.push(RateBracket { income_min: 501050, rate_e4: 3500, subtraction_e4: 609055000 });
            v.push(RateBracket { income_min: 751600, rate_e4: 3700, subtraction_e4: 759375000 });
            proof { assert(v@ =~= sched_2025_married_joint()); }
        },
        (TaxYear::Y2025, FilingStatus::MarriedFilingSeparately) => {
            v.push(RateBracket { income_min: 0, rate_e4: 1000, subtraction_e4: 0 });
            v.push(RateBracket { income_min: 11925, rate_e4: 1200, subtraction_e4: 2385000 });
            v.push(RateBracket { income_min: 48475, rate_e4: 2200, subtraction_e4: 50860000 });
            v.push(RateBracket { income_min: 103350, rate_e4: 2400, subtraction_e4: 71530000 });
            v.push(RateBracket { income_min: 197300, rate_e4: 3200, subtraction_e4: 229370000 });
            v.push(RateBracket { income_min: 250525, rate_e4: 3500, subtraction_e4: 304527500 });
            v.push(RateBracket { income_min: 375800, rate_e4: 3700, subtraction_e4: 379687500 });
            proof { assert(v@ =~= sched_2025_married_separate()); }
        },
        (TaxYear::Y2025, FilingStatus::HeadOfHousehold) => {
            v.push(RateBracket { income_min: 0, rate_e4: 1000, subtraction_e4: 0 });
            v.push(RateBracket { income_min: 17000, rate_e4: 1200, subtraction_e4: 3400000 });
            v.push(RateBracket { income_min: 64850, rate_e4: 2200, subtraction_e4: 68250000 });
            v.push(RateBracket { income_min: 103350, rate_e4: 2400, subtraction_e4: 88920000 });
            v.push(RateBracket { income_min: 197300, rate_e4: 3200, subtraction_e4: 246760000 });
            v.push(RateBracket { income_min: 250500, rate_e4: 3500, subtraction_e4: 321910000 });
            v.push(RateBracket { income_min: 626350, rate_e4: 3700, subtraction_e4: 447180000 });
            proof { assert(v@ =~= sched_2025_head_of_household()); }
        },
    }
    v
}

/// The index of the schedule bracket containing `x2 / 2` dollars: the last
/// bracket whose doubled lower bound is at most `x2`. Doubling lets the same
/// definition serve whole-dollar lookups (`x2 = 2 * income`) and Tax Table
/// row midpoints (`x2 = income_min + income_max`, which may be odd).
pub open spec fn bracket_of2(s: Seq<RateBracket>, x2: int) -> int
    decreases s.len(),
{
    if s.len() <= 1 {
        0
    } else if x2 < 2 * s.last().income_min {
        bracket_of2(s.drop_last(), x2)
    } else {
        s.len() - 1
    }
}

/// `bracket_of2` indeed locates `x2`: the chosen bracket starts at or below
/// `x2 / 2` and the next one, if any, starts above it.
pub proof fn lemma_bracket_of2(s: Seq<RateBracket>, x2: int)
    requires
        s.len() >= 1,
        2 * s[0].income_min <= x2,
    ensures
        0 <= bracket_of2(s, x2) < s.len(),
        2 * s[bracket_of2(s, x2)].income_min <= x2,
        bracket_of2(s, x2) + 1 < s.len() ==> x2 < 2 * s[bracket_of2(s, x2) + 1].income_min,
    decreases s.len(),
{
    if s.len() > 1 && x2 < 2 * s.last().income_min {
        lemma_bracket_of2(s.drop_last(), x2);
    }
}

/// Any index with the two location properties equals `bracket_of2`, provided
/// the lower bounds are strictly increasing.
pub proof fn lemma_bracket_of2_unique(s: Seq<RateBracket>, x2: int, k: int)
    requires
        s.len() >= 1,
        2 * s[0].income_min <= x2,
        forall|i: int, j: int|
            0 <= i < j < s.len() ==> (#[trigger] s[i]).income_min < (#[trigger] s[j]).income_min,
        0 <= k < s.len(),
        2 * s[k].income_min <= x2,
        k + 1 < s.len() ==> x2 < 2 * s[k + 1].income_min,
    ensures
        k == bracket_of2(s, x2),
{
    lemma_bracket_of2(s, x2);
    let b = bracket_of2(s, x2);
    if k < b {
        assert(s[k + 1].income_min <= s[b].income_min);
    } else if b < k {
        assert(s[b + 1].income_min <= s[k].income_min);
    }
}

/// Locate the bracket containing `x2 / 2` dollars by a forward scan.
pub fn find_bracket2(sched: &Vec<RateBracket>, x2: i64) -> (k: usize)
    requires
        schedule_wf(sched@),
        x2 >= 0,
    ensures
        k as int == bracket_of2(sched@, x2 as int),
        k < sched@.len(),
        2 * sched@[k as int].income_min <= x2,
        k as int + 1 < sched@.len() ==> x2 < 2 * sched@[k as int + 1].income_min,
{
    let mut k: usize = 0;
    let mut j: usize = 1;
    while j < 7
        invariant
            schedule_wf(sched@),
            x2 >= 0,
            1 <= j <= 7,
            k < j,
            2 * sched@[k as int].income_min <= x2,
            forall|m: int| k < m < j ==> x2 < 2 * (#[trigger] sched@[m]).income_min,
        decreases 7 - j,
    {
        if 2 * sched[j].income_min <= x2 {
            k = j;
        }
        j += 1;
    }
    proof {
        lemma_bracket_of2_unique(sched@, x2 as int, k as int);
    }
    k
}

} // verus!
