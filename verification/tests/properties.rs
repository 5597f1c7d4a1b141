//! Property-style and edge-case tests on concrete values.

use us_tax_brackets::FilingStatus;
use us_tax_brackets::TaxError;
use us_tax_brackets::TaxYear;
use us_tax_brackets::compute_tax;
use us_tax_brackets::table::TaxTableRow;
use us_tax_brackets::table::build_tax_table;
use us_tax_brackets::table::compute_from_tax_table;
use us_tax_brackets::worksheet::WorksheetBracket;
use us_tax_brackets::worksheet::compute_from_worksheet;

const ALL_YEARS: [TaxYear; 3] = [TaxYear::Y2023, TaxYear::Y2024, TaxYear::Y2025];
const ALL_STATUSES: [FilingStatus; 5] = [
    FilingStatus::Single,
    FilingStatus::MarriedFilingJointly,
    FilingStatus::MarriedFilingSeparately,
    FilingStatus::HeadOfHousehold,
    FilingStatus::QualifyingSurvivingSpouse,
];

#[test]
fn zero_income_owes_nothing_everywhere() {
    for year in ALL_YEARS {
        for status in ALL_STATUSES {
            assert_eq!(compute_tax(year, status, 0), Ok(0));
        }
    }
}

#[test]
fn negative_income_always_rejected() {
    for year in ALL_YEARS {
        for status in ALL_STATUSES {
            for income in [-1, -100, -99_999, i64::MIN] {
                assert_eq!(compute_tax(year, status, income), Err(TaxError::NegativeIncome));
            }
        }
    }
}

#[test]
fn surviving_spouse_equals_married_jointly() {
    for year in ALL_YEARS {
        for income in [0, 10, 50_000, 99_999, 100_000, 123_456, 1_000_000] {
            assert_eq!(
                compute_tax(year, FilingStatus::QualifyingSurvivingSpouse, income),
                compute_tax(year, FilingStatus::MarriedFilingJointly, income)
            );
        }
    }
}

#[test]
fn threshold_sides_match_their_sources() {
    // Each side of the $100,000 threshold independently matches its own
    // mechanism; the small jump between them is expected.
    assert_eq!(compute_tax(TaxYear::Y2024, FilingStatus::Single, 99_999).unwrap(), 17_048);
    assert_eq!(compute_tax(TaxYear::Y2024, FilingStatus::Single, 100_000).unwrap(), 17_053);
    assert_eq!(
        compute_tax(TaxYear::Y2023, FilingStatus::HeadOfHousehold, 99_999).unwrap(),
        15_788
    );
    assert_eq!(
        compute_tax(TaxYear::Y2023, FilingStatus::HeadOfHousehold, 100_000).unwrap(),
        15_794
    );
}

#[test]
fn tax_grows_within_a_worksheet_bracket() {
    // 150,000 and 160,000 both sit in the 2025 single 24% bracket.
    let t1 = compute_tax(TaxYear::Y2025, FilingStatus::Single, 150_000).unwrap();
    let t2 = compute_tax(TaxYear::Y2025, FilingStatus::Single, 160_000).unwrap();
    assert!(t1 <= t2);
    assert_eq!(t1, 28_847);
    assert_eq!(t2, 31_247);

    // Adjacent dollars at a bracket boundary of the 2025 MFS worksheet.
    let a = compute_tax(TaxYear::Y2025, FilingStatus::MarriedFilingSeparately, 375_800).unwrap();
    let b = compute_tax(TaxYear::Y2025, FilingStatus::MarriedFilingSeparately, 375_801).unwrap();
    assert!(a <= b);
    assert_eq!(a, 101_077);
    assert_eq!(b, 101_078);
}

#[test]
fn married_jointly_never_owes_more_at_equal_income() {
    for (year, income) in [
        (TaxYear::Y2023, 150_000),
        (TaxYear::Y2024, 300_000),
        (TaxYear::Y2025, 200_000),
        (TaxYear::Y2023, 75_000),
        (TaxYear::Y2025, 50_000),
    ] {
        let mfj = compute_tax(year, FilingStatus::MarriedFilingJointly, income).unwrap();
        for status in [
            FilingStatus::Single,
            FilingStatus::MarriedFilingSeparately,
            FilingStatus::HeadOfHousehold,
        ] {
            assert!(mfj <= compute_tax(year, status, income).unwrap());
        }
    }
}

#[test]
fn table_regression_values() {
    assert_eq!(compute_tax(TaxYear::Y2025, FilingStatus::Single, 75_000).unwrap(), 11_420);
    assert_eq!(
        compute_tax(TaxYear::Y2025, FilingStatus::QualifyingSurvivingSpouse, 123_456).unwrap(),
        16_988
    );
}

#[test]
fn worksheet_regression_values() {
    assert_eq!(compute_tax(TaxYear::Y2023, FilingStatus::Single, 150_000).unwrap(), 29_400);
    assert_eq!(
        compute_tax(TaxYear::Y2023, FilingStatus::MarriedFilingJointly, 150_000).unwrap(),
        23_615
    );
    assert_eq!(
        compute_tax(TaxYear::Y2023, FilingStatus::HeadOfHousehold, 150_000).unwrap(),
        27_794
    );
    assert_eq!(compute_tax(TaxYear::Y2024, FilingStatus::Single, 300_000).unwrap(), 75_375);
    assert_eq!(
        compute_tax(TaxYear::Y2024, FilingStatus::MarriedFilingJointly, 300_000).unwrap(),
        58_085
    );
}

#[test]
fn lowest_table_rows() {
    // The first table rows are $0-$5, $5-$15, $15-$25, then $25-wide rows.
    assert_eq!(compute_tax(TaxYear::Y2025, FilingStatus::Single, 1).unwrap(), 0);
    assert_eq!(compute_tax(TaxYear::Y2025, FilingStatus::Single, 5).unwrap(), 1);
    assert_eq!(compute_tax(TaxYear::Y2025, FilingStatus::Single, 24).unwrap(), 2);
    assert_eq!(compute_tax(TaxYear::Y2025, FilingStatus::Single, 25).unwrap(), 4);
    assert_eq!(compute_tax(TaxYear::Y2025, FilingStatus::Single, 2_999).unwrap(), 299);
    assert_eq!(compute_tax(TaxYear::Y2025, FilingStatus::Single, 3_000).unwrap(), 303);
}

#[test]
fn largest_income_does_not_overflow() {
    // i64::MAX x 0.37 - 42979.75, rounded to the nearest dollar.
    assert_eq!(
        compute_tax(TaxYear::Y2025, FilingStatus::Single, i64::MAX).unwrap(),
        3_412_647_653_636_224_069
    );
}

#[test]
fn generated_table_shape() {
    let rows = build_tax_table(TaxYear::Y2025);
    assert_eq!(rows.len(), 2062);
    assert_eq!(rows[0].income_min, 0);
    assert_eq!(rows[0].income_max, 5);
    assert_eq!(rows[1].income_max, 15);
    assert_eq!(rows[2061].income_min, 99_950);
    assert_eq!(rows[2061].income_max, 100_000);
    assert_eq!(rows[2061].single, 16_909);
    // Contiguity of a few consecutive rows.
    for i in 0..100 {
        assert_eq!(rows[i].income_max, rows[i + 1].income_min);
    }
}

#[test]
fn table_lookup_without_matching_row() {
    let rows: Vec<TaxTableRow> = Vec::new();
    assert_eq!(
        compute_from_tax_table(&rows, FilingStatus::Single, 50_000),
        Err(TaxError::NoBracketFound)
    );
}

#[test]
fn table_lookup_in_custom_rows() {
    let rows = vec![
        TaxTableRow {
            income_min: 0,
            income_max: 100,
            single: 1,
            married_filing_jointly: 2,
            married_filing_separately: 3,
            head_of_household: 4,
        },
        TaxTableRow {
            income_min: 100,
            income_max: 200,
            single: 11,
            married_filing_jointly: 12,
            married_filing_separately: 13,
            head_of_household: 14,
        },
    ];
    assert_eq!(compute_from_tax_table(&rows, FilingStatus::Single, 99), Ok(1));
    assert_eq!(
        compute_from_tax_table(&rows, FilingStatus::MarriedFilingJointly, 100),
        Ok(12)
    );
    assert_eq!(
        compute_from_tax_table(&rows, FilingStatus::QualifyingSurvivingSpouse, 100),
        Ok(12)
    );
    assert_eq!(
        compute_from_tax_table(&rows, FilingStatus::MarriedFilingSeparately, 150),
        Ok(13)
    );
    assert_eq!(compute_from_tax_table(&rows, FilingStatus::HeadOfHousehold, 0), Ok(4));
    assert_eq!(
        compute_from_tax_table(&rows, FilingStatus::Single, 200),
        Err(TaxError::NoBracketFound)
    );
}

#[test]
fn worksheet_lookup_without_matching_bracket() {
    let empty: Vec<WorksheetBracket> = Vec::new();
    assert_eq!(compute_from_worksheet(&empty, 150_000), Err(TaxError::NoBracketFound));

    // A gap: nothing matches between the bounded bracket and the unbounded
    // one, which is exclusive at its lower end.
    let brackets = vec![
        WorksheetBracket {
            income_min: 100_000,
            income_max: Some(150_000),
            rate_e4: 2_200,
            subtraction_e4: 50_860_000,
        },
        WorksheetBracket {
            income_min: 200_000,
            income_max: None,
            rate_e4: 2_400,
            subtraction_e4: 71_530_000,
        },
    ];
    assert_eq!(compute_from_worksheet(&brackets, 175_000), Err(TaxError::NoBracketFound));
    assert_eq!(compute_from_worksheet(&brackets, 200_000), Err(TaxError::NoBracketFound));
    // 200001 x 0.24 - 7153 = 40847.24 -> 40847
    assert_eq!(compute_from_worksheet(&brackets, 200_001), Ok(40_847));
}

#[test]
fn worksheet_formula_on_custom_bracket() {
    let brackets = vec![WorksheetBracket {
        income_min: 0,
        income_max: None,
        rate_e4: 2_500,
        subtraction_e4: 5_000,
    }];
    // 10 x 0.25 - 0.5 = 2.0
    assert_eq!(compute_from_worksheet(&brackets, 10), Ok(2));
    // 9 x 0.25 - 0.5 = 1.75 -> 2
    assert_eq!(compute_from_worksheet(&brackets, 9), Ok(2));
    // 1 x 0.25 - 0.5 = -0.25 -> 0
    assert_eq!(compute_from_worksheet(&brackets, 1), Ok(0));
}

#[test]
fn labels() {
    assert_eq!(TaxYear::Y2023.label(), "2023");
    assert_eq!(TaxYear::Y2025.label(), "2025");
    assert_eq!(FilingStatus::Single.label(), "Single");
    assert_eq!(
        FilingStatus::QualifyingSurvivingSpouse.label(),
        "Qualifying Surviving Spouse"
    );
    assert_eq!(TaxError::NegativeIncome.label(), "taxable income cannot be negative");
    assert_eq!(TaxError::NoBracketFound.label(), "no matching tax bracket found");
}
