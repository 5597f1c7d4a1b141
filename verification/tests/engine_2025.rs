//! Tax engine tests for the 2025 data set.

use us_tax_brackets::FilingStatus;
use us_tax_brackets::TaxError;
use us_tax_brackets::TaxYear;
use us_tax_brackets::compute_tax;

#[test]
fn test_zero_income() {
    let tax = compute_tax(TaxYear::Y2025, FilingStatus::Single, 0).unwrap();
    assert_eq!(tax, 0);
}

#[test]
fn test_negative_income() {
    let result = compute_tax(TaxYear::Y2025, FilingStatus::Single, -1);
    assert_eq!(result, Err(TaxError::NegativeIncome));
}

#[test]
fn test_low_income_single() {
    // $10 taxable income -> $1 tax (from tax table: 5-15 range)
    let tax = compute_tax(TaxYear::Y2025, FilingStatus::Single, 10).unwrap();
    assert_eq!(tax, 1);
}

#[test]
fn test_tax_table_single_50k() {
    // $50,000 single: from IRS tax table
    let tax = compute_tax(TaxYear::Y2025, FilingStatus::Single, 50_000).unwrap();
    assert_eq!(tax, 5_920);
}

#[test]
fn test_tax_table_married_jointly_75k() {
    // $75,000 married filing jointly: from IRS tax table
    let tax = compute_tax(TaxYear::Y2025, FilingStatus::MarriedFilingJointly, 75_000).unwrap();
    assert_eq!(tax, 8_526);
}

#[test]
fn test_worksheet_single_150k() {
    // $150,000 single: 150000 * 0.24 - 7153 = 36000 - 7153 = 28847
    let tax = compute_tax(TaxYear::Y2025, FilingStatus::Single, 150_000).unwrap();
    assert_eq!(tax, 28_847);
}

#[test]
fn test_worksheet_married_jointly_200k() {
    // $200,000 MFJ: 200000 * 0.22 - 10172 = 44000 - 10172 = 33828
    let tax = compute_tax(TaxYear::Y2025, FilingStatus::MarriedFilingJointly, 200_000).unwrap();
    assert_eq!(tax, 33_828);
}

#[test]
fn test_worksheet_single_1m() {
    // $1,000,000 single: 1000000 * 0.37 - 42979.75 = 370000 - 42979.75 = 327020.25 -> 327020
    let tax = compute_tax(TaxYear::Y2025, FilingStatus::Single, 1_000_000).unwrap();
    assert_eq!(tax, 327_020);
}

#[test]
fn test_boundary_100k_single() {
    // $100,000 is the first row of the worksheet: "At least $100,000 but not over $103,350"
    // 100000 * 0.22 - 5086 = 22000 - 5086 = 16914
    let tax = compute_tax(TaxYear::Y2025, FilingStatus::Single, 100_000).unwrap();
    assert_eq!(tax, 16_914);
}

#[test]
fn test_boundary_99999_single() {
    // $99,999 should use the tax table (last row before $100k)
    // Row: 99950-100000 -> single = 16909
    let tax = compute_tax(TaxYear::Y2025, FilingStatus::Single, 99_999).unwrap();
    assert_eq!(tax, 16_909);
}

#[test]
fn test_all_filing_statuses_at_200k() {
    let s = compute_tax(TaxYear::Y2025, FilingStatus::Single, 200_000).unwrap();
    let mfj = compute_tax(TaxYear::Y2025, FilingStatus::MarriedFilingJointly, 200_000).unwrap();
    let mfs = compute_tax(TaxYear::Y2025, FilingStatus::MarriedFilingSeparately, 200_000).unwrap();
    let hoh = compute_tax(TaxYear::Y2025, FilingStatus::HeadOfHousehold, 200_000).unwrap();

    // MFJ should have the lowest tax at the same income
    assert!(mfj < s);
    assert!(mfj < mfs);
    assert!(mfj < hoh);
    // Single: 200000 * 0.32 - 22937 = 41063
    assert_eq!(s, 41_063);
    // MFJ: 200000 * 0.22 - 10172 = 33828
    assert_eq!(mfj, 33_828);
    // MFS same brackets as single at this range
    assert_eq!(mfs, 41_063);
    // HoH: 200000 * 0.32 - 24676 = 39324
    assert_eq!(hoh, 39_324);
}

#[test]
fn test_head_of_household_worksheet() {
    // $300,000 HoH: 300000 * 0.35 - 32191 = 105000 - 32191 = 72809
    let tax = compute_tax(TaxYear::Y2025, FilingStatus::HeadOfHousehold, 300_000).unwrap();
    assert_eq!(tax, 72_809);
}
