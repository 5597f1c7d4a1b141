//! Tests of the comma-separated source parsers.

use us_tax_brackets::FilingStatus;
use us_tax_brackets::TaxError;
use us_tax_brackets::table::TaxTableRow;
use us_tax_brackets::table::rows_ordered_check;
use us_tax_brackets::worksheet::WorksheetBracket;
use us_tax_brackets::worksheet::ws_brackets_check;
use us_tax_brackets::parse::filing_status_csv_key;
use us_tax_brackets::parse::parse_tax_table;
use us_tax_brackets::parse::parse_worksheet;
use us_tax_brackets::table::compute_from_tax_table;
use us_tax_brackets::worksheet::compute_from_worksheet;

const TABLE_SRC: &str = "income_min,income_max,single,married_filing_jointly,married_filing_separately,head_of_household\n\
0,50,2,2,2,2\n\
50,100,8,7,8,7\n\
100,150,13,12,13,12\n";

#[test]
fn parses_table_rows_in_order() {
    let rows = parse_tax_table(TABLE_SRC);
    assert_eq!(rows.len(), 3);
    assert_eq!(rows[0].income_min, 0);
    assert_eq!(rows[0].income_max, 50);
    assert_eq!(rows[0].single, 2);
    assert_eq!(rows[1].married_filing_jointly, 7);
    assert_eq!(rows[2].income_min, 100);
    assert_eq!(rows[2].head_of_household, 12);
}

#[test]
fn parsed_table_rows_feed_the_lookup() {
    let rows = parse_tax_table(TABLE_SRC);
    assert_eq!(compute_from_tax_table(&rows, FilingStatus::Single, 75), Ok(8));
    assert_eq!(compute_from_tax_table(&rows, FilingStatus::HeadOfHousehold, 149), Ok(12));
    assert_eq!(
        compute_from_tax_table(&rows, FilingStatus::Single, 150),
        Err(TaxError::NoBracketFound)
    );
}

#[test]
fn malformed_table_records_are_dropped() {
    let src = "h\n\
10,20,1,1,1,1\n\
too,short\n\
30,40,2,2,2,oops\n\
,,,,,\n\
\n\
50,60,3,3,3,3\n\n";
    let rows = parse_tax_table(src);
    assert_eq!(rows.len(), 2);
    assert_eq!(rows[0].income_min, 10);
    assert_eq!(rows[1].income_min, 50);
}

#[test]
fn table_source_with_carriage_returns() {
    let src = "h\r\n5,10,1,2,3,4\r\n10,15,5,6,7,8\r\n";
    let rows = parse_tax_table(src);
    assert_eq!(rows.len(), 2);
    assert_eq!(rows[0].married_filing_separately, 3);
    assert_eq!(rows[1].income_max, 15);
}

#[test]
fn table_source_without_data() {
    assert_eq!(parse_tax_table("").len(), 0);
    assert_eq!(parse_tax_table("just a header").len(), 0);
    assert_eq!(parse_tax_table("header\n").len(), 0);
}

const WS_SRC: &str = "filing_status,income_min,income_max,rate,subtraction_amount\n\
single,100000,103350,0.22,5086\n\
single,103350,197300,0.24,7153\n\
single,626350,,0.37,42979.75\n\
married_filing_jointly,100000,206700,0.22,10172\n\
married_filing_jointly,751600,,0.37,75937.5\n";

#[test]
fn parses_worksheet_brackets_for_one_status() {
    let brackets = parse_worksheet(WS_SRC, FilingStatus::Single);
    assert_eq!(brackets.len(), 3);
    assert_eq!(brackets[0].income_min, 100_000);
    assert_eq!(brackets[0].income_max, Some(103_350));
    assert_eq!(brackets[0].rate_e4, 2_200);
    assert_eq!(brackets[0].subtraction_e4, 50_860_000);
    assert_eq!(brackets[2].income_max, None);
    assert_eq!(brackets[2].subtraction_e4, 429_797_500);
}

#[test]
fn worksheet_key_filter_and_alias() {
    let mfj = parse_worksheet(WS_SRC, FilingStatus::MarriedFilingJointly);
    assert_eq!(mfj.len(), 2);
    assert_eq!(mfj[0].subtraction_e4, 101_720_000);
    assert_eq!(mfj[1].subtraction_e4, 759_375_000);

    // The surviving-spouse alias resolves to the joint records.
    let qss = parse_worksheet(WS_SRC, FilingStatus::QualifyingSurvivingSpouse);
    assert_eq!(qss, mfj);

    // No records carry the separate-filer key.
    assert_eq!(parse_worksheet(WS_SRC, FilingStatus::MarriedFilingSeparately).len(), 0);
}

#[test]
fn parsed_worksheet_brackets_feed_the_formula() {
    let brackets = parse_worksheet(WS_SRC, FilingStatus::Single);
    // 150000 x 0.24 - 7153 = 28847
    assert_eq!(compute_from_worksheet(&brackets, 150_000), Ok(28_847));
    // 1000000 x 0.37 - 42979.75 = 327020.25 -> 327020
    assert_eq!(compute_from_worksheet(&brackets, 1_000_000), Ok(327_020));
    // The sample holds no bracket covering this income.
    assert_eq!(compute_from_worksheet(&brackets, 300_000), Err(TaxError::NoBracketFound));
}

#[test]
fn malformed_worksheet_records_are_dropped() {
    let src = "h\n\
single,100000,200000,0.22,5086\n\
single,bad,200000,0.22,5086\n\
single,100000,200000,rate,5086\n\
single,100000,200000,0.22222222,5086\n\
single,short\n\
single,100000,200000,0.22,1.2.3\n";
    let brackets = parse_worksheet(src, FilingStatus::Single);
    assert_eq!(brackets.len(), 1);
    assert_eq!(brackets[0].rate_e4, 2_200);
}

#[test]
fn decimal_fields_scale_to_ten_thousandths() {
    let src = "h\n\
single,1,2,0.1,3\n\
single,3,4,0.305,2.5\n\
single,5,,1,0.0001\n";
    let brackets = parse_worksheet(src, FilingStatus::Single);
    assert_eq!(brackets.len(), 3);
    assert_eq!(brackets[0].rate_e4, 1_000);
    assert_eq!(brackets[0].subtraction_e4, 30_000);
    assert_eq!(brackets[1].rate_e4, 3_050);
    assert_eq!(brackets[1].subtraction_e4, 25_000);
    assert_eq!(brackets[2].rate_e4, 10_000);
    assert_eq!(brackets[2].subtraction_e4, 1);
}

#[test]
fn load_time_validation() {
    let rows = parse_tax_table(TABLE_SRC);
    assert!(rows_ordered_check(&rows));

    // Overlapping ranges are rejected.
    let bad = vec![
        TaxTableRow {
            income_min: 0,
            income_max: 100,
            single: 1,
            married_filing_jointly: 1,
            married_filing_separately: 1,
            head_of_household: 1,
        },
        TaxTableRow {
            income_min: 50,
            income_max: 150,
            single: 2,
            married_filing_jointly: 2,
            married_filing_separately: 2,
            head_of_household: 2,
        },
    ];
    assert!(!rows_ordered_check(&bad));

    let brackets = parse_worksheet(WS_SRC, FilingStatus::Single);
    assert!(ws_brackets_check(&brackets));

    // A rate above 100% violates the bracket invariant.
    let bad = vec![WorksheetBracket {
        income_min: 0,
        income_max: None,
        rate_e4: 10_001,
        subtraction_e4: 0,
    }];
    assert!(!ws_brackets_check(&bad));
}

#[test]
fn status_keys() {
    assert_eq!(filing_status_csv_key(FilingStatus::Single), "single");
    assert_eq!(
        filing_status_csv_key(FilingStatus::MarriedFilingJointly),
        "married_filing_jointly"
    );
    assert_eq!(
        filing_status_csv_key(FilingStatus::QualifyingSurvivingSpouse),
        "married_filing_jointly"
    );
    assert_eq!(
        filing_status_csv_key(FilingStatus::MarriedFilingSeparately),
        "married_filing_separately"
    );
    assert_eq!(
        filing_status_csv_key(FilingStatus::HeadOfHousehold),
        "head_of_household"
    );
}
