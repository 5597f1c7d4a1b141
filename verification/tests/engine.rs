//! Tax engine tests across all three supported years.

use us_tax_brackets::FilingStatus;
use us_tax_brackets::TaxError;
use us_tax_brackets::TaxYear;
use us_tax_brackets::compute_tax;

// ----- Edge cases -----

#[test]
fn zero_income() {
    assert_eq!(compute_tax(TaxYear::Y2024, FilingStatus::Single, 0).unwrap(), 0);
}

#[test]
fn negative_income() {
    assert_eq!(
        compute_tax(TaxYear::Y2023, FilingStatus::Single, -1),
        Err(TaxError::NegativeIncome)
    );
}

// ----- Tax Table lookups (income < $100,000) -----

#[test]
fn low_income_single() {
    // $10 falls in the $5-$15 row -> $1 tax
    assert_eq!(compute_tax(TaxYear::Y2023, FilingStatus::Single, 10).unwrap(), 1);
}

#[test]
fn table_single_50k() {
    // Inflation-adjusted brackets cause tax to decrease year over year
    assert_eq!(
        compute_tax(TaxYear::Y2023, FilingStatus::Single, 50_000).unwrap(),
        6_313
    );
    assert_eq!(
        compute_tax(TaxYear::Y2024, FilingStatus::Single, 50_000).unwrap(),
        6_059
    );
    assert_eq!(
        compute_tax(TaxYear::Y2025, FilingStatus::Single, 50_000).unwrap(),
        5_920
    );
}

#[test]
fn table_married_jointly_75k() {
    assert_eq!(
        compute_tax(TaxYear::Y2024, FilingStatus::MarriedFilingJointly, 75_000).unwrap(),
        8_539
    );
}

#[test]
fn table_head_of_household_75k() {
    assert_eq!(
        compute_tax(TaxYear::Y2023, FilingStatus::HeadOfHousehold, 75_000).unwrap(),
        10_207
    );
}

// ----- Tax Table / Worksheet boundary -----

#[test]
fn boundary_99999_uses_table() {
    assert_eq!(
        compute_tax(TaxYear::Y2025, FilingStatus::Single, 99_999).unwrap(),
        16_909
    );
    assert_eq!(
        compute_tax(TaxYear::Y2023, FilingStatus::Single, 99_999).unwrap(),
        17_394
    );
}

#[test]
fn boundary_100k_uses_worksheet() {
    // 2025: 100000 x 0.22 - 5086 = 16914
    assert_eq!(
        compute_tax(TaxYear::Y2025, FilingStatus::Single, 100_000).unwrap(),
        16_914
    );
    // 2023: 100000 x 0.24 - 6600 = 17400 (no 22% bracket - it ends below $100k)
    assert_eq!(
        compute_tax(TaxYear::Y2023, FilingStatus::Single, 100_000).unwrap(),
        17_400
    );
}

// ----- Worksheet computations (income >= $100,000) -----

#[test]
fn worksheet_single_150k() {
    // 2024: 150000 x 0.24 - 6957.5 = 29042.5 -> 29043
    assert_eq!(
        compute_tax(TaxYear::Y2024, FilingStatus::Single, 150_000).unwrap(),
        29_043
    );
}

#[test]
fn worksheet_married_jointly_200k() {
    // 2023: 200000 x 0.24 - 13200 = 34800
    assert_eq!(
        compute_tax(TaxYear::Y2023, FilingStatus::MarriedFilingJointly, 200_000).unwrap(),
        34_800
    );
}

#[test]
fn worksheet_head_of_household_300k() {
    // 2024: 300000 x 0.35 - 31318 = 73682
    assert_eq!(
        compute_tax(TaxYear::Y2024, FilingStatus::HeadOfHousehold, 300_000).unwrap(),
        73_682
    );
}

#[test]
fn worksheet_single_1m() {
    // 2025: 1000000 x 0.37 - 42979.75 = 327020.25 -> 327020
    assert_eq!(
        compute_tax(TaxYear::Y2025, FilingStatus::Single, 1_000_000).unwrap(),
        327_020
    );
}

// ----- Qualifying surviving spouse -----

#[test]
fn qualifying_surviving_spouse_matches_mfj() {
    // Table lookup (2024)
    let mfj = compute_tax(TaxYear::Y2024, FilingStatus::MarriedFilingJointly, 75_000).unwrap();
    let qss = compute_tax(TaxYear::Y2024, FilingStatus::QualifyingSurvivingSpouse, 75_000)
        .unwrap();
    assert_eq!(mfj, qss);

    // Worksheet (2023)
    let mfj = compute_tax(TaxYear::Y2023, FilingStatus::MarriedFilingJointly, 200_000).unwrap();
    let qss = compute_tax(TaxYear::Y2023, FilingStatus::QualifyingSurvivingSpouse, 200_000)
        .unwrap();
    assert_eq!(mfj, qss);
}

// ----- Cross-status comparison -----

#[test]
fn all_statuses_at_200k() {
    let single = compute_tax(TaxYear::Y2025, FilingStatus::Single, 200_000).unwrap();
    let mfj = compute_tax(TaxYear::Y2025, FilingStatus::MarriedFilingJointly, 200_000).unwrap();
    let mfs =
        compute_tax(TaxYear::Y2025, FilingStatus::MarriedFilingSeparately, 200_000).unwrap();
    let hoh = compute_tax(TaxYear::Y2025, FilingStatus::HeadOfHousehold, 200_000).unwrap();

    // MFJ has the lowest tax at the same income level
    assert!(mfj < single);
    assert!(mfj < mfs);
    assert!(mfj < hoh);

    assert_eq!(single, 41_063); // 200000 x 0.32 - 22937
    assert_eq!(mfj, 33_828); //   200000 x 0.22 - 10172
    assert_eq!(mfs, 41_063); //   same brackets as single at this level
    assert_eq!(hoh, 39_324); //   200000 x 0.32 - 24676
}
