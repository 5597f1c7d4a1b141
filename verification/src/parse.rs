//! Parsing of the comma-separated source format for Tax Table rows and
//! worksheet brackets.
//!
//! Both sources are line-oriented: a header line (skipped) followed by data
//! records, one per line, fields separated by commas. A record that is too
//! short or holds an unparsable field is silently dropped, so trailing blank
//! lines are tolerated and callers only ever see well-formed values. Numbers
//! are nonnegative decimal integers; rates and subtraction amounts may carry
//! up to four fractional digits and parse into ten-thousandths.

use crate::table::TaxTableRow;
use crate::types::FilingStatus;
use crate::worksheet::WorksheetBracket;
use vstd::prelude::*;
use vstd::slice::slice_index_get;
use vstd::string::StringSliceAdditionalSpecFns;
use vstd::slice::slice_subrange;
use vstd::slice::slice_to_vec;

verus! {

/// Index of the first occurrence of `b` in `s`, or `s.len()` when absent.
pub open spec fn find_byte(s: Seq<u8>, b: u8) -> int
    decreases s.len(),
{
    if s.len() == 0 {
        0
    } else if s[0] == b {
        0
    } else {
        1 + find_byte(s.drop_first(), b)
    }
}

/// `find_byte` is in range, lands on `b` when in range, and nothing before
/// it is `b`.
pub proof fn lemma_find_byte(s: Seq<u8>, b: u8)
    ensures
        0 <= find_byte(s, b) <= s.len(),
        find_byte(s, b) < s.len() ==> s[find_byte(s, b)] == b,
        forall|i: int| 0 <= i < find_byte(s, b) ==> s[i] != b,
    decreases s.len(),
{
    if s.len() > 0 && s[0] != b {
        lemma_find_byte(s.drop_first(), b);
        assert forall|i: int| 0 <= i < find_byte(s, b) implies s[i] != b by {
            if i > 0 {
                assert(s.drop_first()[i - 1] == s[i]);
            }
        }
    }
}

/// Any index with the three properties above equals `find_byte`.
pub proof fn lemma_find_byte_unique(s: Seq<u8>, b: u8, j: int)
    requires
        0 <= j <= s.len(),
        j < s.len() ==> s[j] == b,
        forall|i: int| 0 <= i < j ==> s[i] != b,
    ensures
        j == find_byte(s, b),
{
    lemma_find_byte(s, b);
    let f = find_byte(s, b);
    if f < j {
        assert(s[f] == b);
    } else if j < f {
        assert(s[j] != b);
    }
}

/// A line with one trailing carriage return has it removed.
pub open spec fn strip_cr(s: Seq<u8>) -> Seq<u8> {
    if s.len() > 0 && s.last() == 13 {
        s.drop_last()
    } else {
        s
    }
}

/// Split into lines on the newline byte, dropping one trailing carriage
/// return per line. A trailing newline yields no final empty line.
pub open spec fn split_lines(s: Seq<u8>) -> Seq<Seq<u8>>
    decreases s.len(),
{
    if s.len() == 0 {
        seq![]
    } else {
        let i = find_byte(s, 10);
        if 0 <= i < s.len() {
            seq![strip_cr(s.take(i))] + split_lines(s.skip(i + 1))
        } else {
            seq![strip_cr(s)]
        }
    }
}

/// Split a record into its comma-separated fields; a record always has at
/// least one field.
pub open spec fn split_fields(s: Seq<u8>) -> Seq<Seq<u8>>
    decreases s.len(),
{
    let i = find_byte(s, 44);
    if 0 <= i < s.len() {
        seq![s.take(i)] + split_fields(s.skip(i + 1))
    } else {
        seq![s]
    }
}

/// All bytes are ASCII digits, and there is at least one.
pub open spec fn is_digits(s: Seq<u8>) -> bool {
    s.len() > 0 && forall|i: int| 0 <= i < s.len() ==> 48 <= #[trigger] s[i] <= 57
}

/// Value of a digit string read in base ten.
pub open spec fn digits_val(s: Seq<u8>) -> int
    decreases s.len(),
{
    if s.len() == 0 {
        0
    } else {
        digits_val(s.drop_last()) * 10 + (s.last() - 48)
    }
}

/// The value of a digit string is nonnegative.
pub proof fn lemma_digits_val_nonneg(s: Seq<u8>)
    requires
        forall|i: int| 0 <= i < s.len() ==> 48 <= #[trigger] s[i] <= 57,
    ensures
        digits_val(s) >= 0,
    decreases s.len(),
{
    if s.len() > 0 {
        lemma_digits_val_nonneg(s.drop_last());
    }
}

/// A digit string is worth at least any of its prefixes.
pub proof fn lemma_digits_val_prefix(s: Seq<u8>, k: int)
    requires
        forall|i: int| 0 <= i < s.len() ==> 48 <= #[trigger] s[i] <= 57,
        0 <= k <= s.len(),
    ensures
        digits_val(s.take(k)) <= digits_val(s),
    decreases s.len() - k,
{
    if k < s.len() {
        lemma_digits_val_prefix(s, k + 1);
        assert(s.take(k + 1).drop_last() =~= s.take(k));
        lemma_digits_val_nonneg(s.take(k));
    }
    if k == s.len() {
        assert(s.take(k) =~= s);
    }
}

/// A string of `n` digits is worth less than `10^n`.
pub proof fn lemma_digits_val_upper(s: Seq<u8>)
    requires
        forall|i: int| 0 <= i < s.len() ==> 48 <= #[trigger] s[i] <= 57,
    ensures
        digits_val(s) < pow10(s.len() as int),
    decreases s.len(),
{
    if s.len() > 0 {
        lemma_digits_val_upper(s.drop_last());
    }
}

/// Powers of ten, for scaling fractional digits.
pub open spec fn pow10(n: int) -> int
    decreases n,
{
    if n <= 0 {
        1
    } else {
        10 * pow10(n - 1)
    }
}

/// Largest integer part a scaled decimal may carry: any more and the value
/// in ten-thousandths would leave the 64-bit range.
pub const DECIMAL_INT_LIMIT: i64 = 922_337_203_685_476;

/// Parse a field as a nonnegative whole number that fits in 64 bits.
pub open spec fn parse_int(s: Seq<u8>) -> Option<int> {
    if is_digits(s) && digits_val(s) <= i64::MAX {
        Some(digits_val(s))
    } else {
        None
    }
}

/// Parse a field as an optional bound: an empty field is the unbounded
/// marker, anything else must be a whole number.
pub open spec fn parse_opt_int(s: Seq<u8>) -> Option<Option<int>> {
    if s.len() == 0 {
        Some(None)
    } else {
        match parse_int(s) {
            Some(v) => Some(Some(v)),
            None => None,
        }
    }
}

/// Parse a field as a nonnegative decimal number with up to four fractional
/// digits, scaled to ten-thousandths.
pub open spec fn parse_decimal_e4(s: Seq<u8>) -> Option<int> {
    let dot = find_byte(s, 46);
    if !(0 <= dot < s.len()) {
        if is_digits(s) && digits_val(s) <= DECIMAL_INT_LIMIT {
            Some(digits_val(s) * 10_000)
        } else {
            None
        }
    } else {
        let ip = s.take(dot);
        let fp = s.skip(dot + 1);
        if is_digits(ip) && is_digits(fp) && fp.len() <= 4 && digits_val(ip)
            <= DECIMAL_INT_LIMIT {
            Some(digits_val(ip) * 10_000 + digits_val(fp) * pow10(4 - fp.len() as int))
        } else {
            None
        }
    }
}

/// Parse one Tax Table record: six comma-separated whole numbers (extra
/// fields are ignored); anything else is dropped.
pub open spec fn parse_table_record(rec: Seq<u8>) -> Option<TaxTableRow> {
    let fs = split_fields(rec);
    if fs.len() < 6 {
        None
    } else {
        let mn = parse_int(fs[0]);
        let mx = parse_int(fs[1]);
        let si = parse_int(fs[2]);
        let mj = parse_int(fs[3]);
        let ms = parse_int(fs[4]);
        let hh = parse_int(fs[5]);
        if mn is Some && mx is Some && si is Some && mj is Some && ms is Some && hh is Some {
            Some(
                TaxTableRow {
                    income_min: mn->0 as i64,
                    income_max: mx->0 as i64,
                    single: si->0 as i64,
                    married_filing_jointly: mj->0 as i64,
                    married_filing_separately: ms->0 as i64,
                    head_of_household: hh->0 as i64,
                },
            )
        } else {
            None
        }
    }
}

/// The rows of every data record of a Tax Table source, in source order.
pub open spec fn parse_table_lines(lines: Seq<Seq<u8>>) -> Seq<TaxTableRow>
    decreases lines.len(),
{
    if lines.len() == 0 {
        seq![]
    } else {
        match parse_table_record(lines[0]) {
            Some(r) => seq![r] + parse_table_lines(lines.drop_first()),
            None => parse_table_lines(lines.drop_first()),
        }
    }
}

/// What parsing a Tax Table source yields: every data record after the
/// header line that parses, in source order.
pub open spec fn parse_table_spec(s: Seq<u8>) -> Seq<TaxTableRow> {
    let lines = split_lines(s);
    if lines.len() == 0 {
        seq![]
    } else {
        parse_table_lines(lines.drop_first())
    }
}

/// Parse one worksheet record for a filing-status key: the key field, two
/// income bounds (the second possibly empty), and two scaled decimals;
/// records with another key or an unparsable field are dropped.
pub open spec fn parse_ws_record(rec: Seq<u8>, key: Seq<u8>) -> Option<WorksheetBracket> {
    let fs = split_fields(rec);
    if fs.len() < 5 {
        None
    } else if fs[0] != key {
        None
    } else {
        let mn = parse_int(fs[1]);
        let mx = parse_opt_int(fs[2]);
        let rt = parse_decimal_e4(fs[3]);
        let sb = parse_decimal_e4(fs[4]);
        if mn is Some && mx is Some && rt is Some && sb is Some {
            Some(
                WorksheetBracket {
                    income_min: mn->0 as i64,
                    income_max: match mx->0 {
                        Some(v) => Some(v as i64),
                        None => None,
                    },
                    rate_e4: rt->0 as i64,
                    subtraction_e4: sb->0 as i64,
                },
            )
        } else {
            None
        }
    }
}

/// The brackets of every data record with the given key, in source order.
pub open spec fn parse_ws_lines(lines: Seq<Seq<u8>>, key: Seq<u8>) -> Seq<WorksheetBracket>
    decreases lines.len(),
{
    if lines.len() == 0 {
        seq![]
    } else {
        match parse_ws_record(lines[0], key) {
            Some(b) => seq![b] + parse_ws_lines(lines.drop_first(), key),
            None => parse_ws_lines(lines.drop_first(), key),
        }
    }
}

/// What parsing a worksheet source for one key yields.
pub open spec fn parse_worksheet_spec(s: Seq<u8>, key: Seq<u8>) -> Seq<WorksheetBracket> {
    let lines = split_lines(s);
    if lines.len() == 0 {
        seq![]
    } else {
        parse_ws_lines(lines.drop_first(), key)
    }
}

/// The key that marks a filing status's records in the worksheet source.
/// The surviving-spouse key resolves to the joint key, as everywhere else.
pub open spec fn status_key(status: FilingStatus) -> Seq<u8> {
    match status {
        FilingStatus::Single => "single".spec_bytes(),
        FilingStatus::MarriedFilingJointly => "married_filing_jointly".spec_bytes(),
        FilingStatus::QualifyingSurvivingSpouse => "married_filing_jointly".spec_bytes(),
        FilingStatus::MarriedFilingSeparately => "married_filing_separately".spec_bytes(),
        FilingStatus::HeadOfHousehold => "head_of_household".spec_bytes(),
    }
}

/// Map a filing status to its worksheet source key.
pub fn filing_status_csv_key(status: FilingStatus) -> (r: &'static str)
    ensures
        r.spec_bytes() == status_key(status),
{
    match status {
        FilingStatus::Single => "single",
        FilingStatus::MarriedFilingJointly | FilingStatus::QualifyingSurvivingSpouse => {
            "married_filing_jointly"
        },
        FilingStatus::MarriedFilingSeparately => "married_filing_separately",
        FilingStatus::HeadOfHousehold => "head_of_household",
    }
}

/// Index of the first occurrence of `b` in `s`, or `s.len()`.
fn find_first(s: &[u8], b: u8) -> (j: usize)
    ensures
        j as int == find_byte(s@, b),
{
    let n = s.len();
    let mut j: usize = 0;
    while j < n
        invariant
            j <= n,
            n == s@.len(),
            forall|i: int| 0 <= i < j as int ==> s@[i] != b,
        decreases n - j,
    {
        if *slice_index_get(s, j) == b {
            proof {
                lemma_find_byte_unique(s@, b, j as int);
            }
            return j;
        }
        j += 1;
    }
    proof {
        lemma_find_byte_unique(s@, b, n as int);
    }
    n
}

/// Whether two byte slices hold the same bytes.
fn bytes_eq(a: &[u8], b: &[u8]) -> (r: bool)
    ensures
        r == (a@ == b@),
{
    let n = a.len();
    if n != b.len() {
        return false;
    }
    let mut j: usize = 0;
    while j < n
        invariant
            j <= n,
            n == a@.len(),
            n == b@.len(),
            forall|i: int| 0 <= i < j as int ==> a@[i] == b@[i],
        decreases n - j,
    {
        if *slice_index_get(a, j) != *slice_index_get(b, j) {
            return false;
        }
        j += 1;
    }
    proof {
        assert(a@ =~= b@);
    }
    true
}

/// Parse a field as a nonnegative whole number, mirroring [`parse_int`].
fn parse_int_slice(s: &[u8]) -> (r: Option<i64>)
    ensures
        (r is Some) == (parse_int(s@) is Some),
        r is Some ==> r->0 as int == parse_int(s@)->0,
        r is Some ==> 0 <= r->0,
{
    let n = s.len();
    if n == 0 {
        return None;
    }
    let mut acc: i64 = 0;
    let mut j: usize = 0;
    while j < n
        invariant
            j <= n,
            n == s@.len(),
            forall|i: int| 0 <= i < j as int ==> 48 <= #[trigger] s@[i] <= 57,
            0 <= acc,
            acc as int == digits_val(s@.take(j as int)),
        decreases n - j,
    {
        let c = *slice_index_get(s, j);
        if c < 48 || c > 57 {
            return None;
        }
        let d = (c - 48) as i64;
        proof {
            assert(s@.take(j as int + 1).drop_last() =~= s@.take(j as int));
            assert(s@.take(j as int + 1).last() == s@[j as int]);
        }
        if acc > (i64::MAX - d) / 10 {
            proof {
                assert(acc as int * 10 + d as int > i64::MAX as int);
                assert(digits_val(s@.take(j as int + 1)) > i64::MAX as int);
                if is_digits(s@) {
                    lemma_digits_val_prefix(s@, j as int + 1);
                }
            }
            return None;
        }
        acc = acc * 10 + d;
        j += 1;
    }
    proof {
        assert(s@.take(n as int) =~= s@);
    }
    Some(acc)
}

/// Parse a field as a scaled decimal, mirroring [`parse_decimal_e4`].
fn parse_decimal_e4_slice(s: &[u8]) -> (r: Option<i64>)
    ensures
        (r is Some) == (parse_decimal_e4(s@) is Some),
        r is Some ==> r->0 as int == parse_decimal_e4(s@)->0,
{
    let n = s.len();
    let dot = find_first(s, 46);
    if dot >= n {
        match parse_int_slice(s) {
            Some(v) => {
                if v <= DECIMAL_INT_LIMIT {
                    proof {
                        assert(DECIMAL_INT_LIMIT == 922_337_203_685_476);
                        assert(0 <= v as int * 10_000 <= 9_223_372_036_854_760_000)
                            by (nonlinear_arith)
                            requires
                                0 <= v <= 922_337_203_685_476,
                        ;
                    }
                    Some(v * 10_000)
                } else {
                    None
                }
            },
            None => None,
        }
    } else {
        let ip = slice_subrange(s, 0, dot);
        let fp = slice_subrange(s, dot + 1, n);
        proof {
            assert(ip@ =~= s@.take(dot as int));
            assert(fp@ =~= s@.skip(dot as int + 1));
            assert(pow10(0) == 1);
            assert(pow10(1) == 10);
            assert(pow10(2) == 100);
            assert(pow10(3) == 1000);
            assert(pow10(4) == 10_000);
        }
        let fl = fp.len();
        if fl == 0 || fl > 4 {
            return None;
        }
        let a = match parse_int_slice(ip) {
            Some(a) => a,
            None => {
                return None;
            },
        };
        let f = match parse_int_slice(fp) {
            Some(f) => f,
            None => {
                proof {
                    if is_digits(fp@) {
                        lemma_digits_val_upper(fp@);
                    }
                }
                return None;
            },
        };
        if a > DECIMAL_INT_LIMIT {
            return None;
        }
        let scale: i64 = if fl == 1 {
            1000
        } else if fl == 2 {
            100
        } else if fl == 3 {
            10
        } else {
            1
        };
        proof {
            lemma_digits_val_upper(fp@);
            assert(DECIMAL_INT_LIMIT == 922_337_203_685_476);
            assert(0 <= a as int * 10_000 <= 9_223_372_036_854_760_000) by (nonlinear_arith)
                requires
                    0 <= a <= 922_337_203_685_476,
            ;
            assert(0 <= f as int * scale as int <= 9_999) by (nonlinear_arith)
                requires
                    0 <= f,
                    (fl == 1 && f < 10 && scale == 1000) || (fl == 2 && f < 100 && scale == 100)
                        || (fl == 3 && f < 1000 && scale == 10) || (fl == 4 && f < 10_000
                        && scale == 1),
            ;
        }
        Some(a * 10_000 + f * scale)
    }
}

/// Split a record into its fields, mirroring [`split_fields`].
fn split_fields_exec(rec: &[u8]) -> (fields: Vec<Vec<u8>>)
    ensures
        fields@.map_values(|f: Vec<u8>| f@) == split_fields(rec@),
    decreases rec@.len(),
{
    let n = rec.len();
    let i = find_first(rec, 44);
    proof {
        lemma_find_byte(rec@, 44);
    }
    if i >= n {
        let mut fields: Vec<Vec<u8>> = Vec::new();
        fields.push(slice_to_vec(rec));
        proof {
            assert(fields@.map_values(|f: Vec<u8>| f@) =~= split_fields(rec@));
        }
        fields
    } else {
        let head = slice_to_vec(slice_subrange(rec, 0, i));
        let mut rest = split_fields_exec(slice_subrange(rec, i + 1, n));
        let mut fields: Vec<Vec<u8>> = Vec::new();
        fields.push(head);
        fields.append(&mut rest);
        proof {
            assert(rec@.subrange(0, i as int) =~= rec@.take(i as int));
            assert(rec@.subrange(i as int + 1, n as int) =~= rec@.skip(i as int + 1));
            assert(fields@.map_values(|f: Vec<u8>| f@) =~= split_fields(rec@));
        }
        fields
    }
}

/// Parse one Tax Table record, mirroring [`parse_table_record`].
fn parse_table_record_exec(rec: &[u8]) -> (r: Option<TaxTableRow>)
    ensures
        r == parse_table_record(rec@),
{
    let fields = split_fields_exec(rec);
    proof {
        assert forall|k: int| 0 <= k < fields@.len() implies (#[trigger] fields@[k])@
            == split_fields(rec@)[k] by {
            assert(fields@.map_values(|f: Vec<u8>| f@)[k] == split_fields(rec@)[k]);
        }
    }
    if fields.len() < 6 {
        return None;
    }
    let mn = match parse_int_slice(fields[0].as_slice()) {
        Some(v) => v,
        None => {
            return None;
        },
    };
    let mx = match parse_int_slice(fields[1].as_slice()) {
        Some(v) => v,
        None => {
            return None;
        },
    };
    let si = match parse_int_slice(fields[2].as_slice()) {
        Some(v) => v,
        None => {
            return None;
        },
    };
    let mj = match parse_int_slice(fields[3].as_slice()) {
        Some(v) => v,
        None => {
            return None;
        },
    };
    let ms = match parse_int_slice(fields[4].as_slice()) {
        Some(v) => v,
        None => {
            return None;
        },
    };
    let hh = match parse_int_slice(fields[5].as_slice()) {
        Some(v) => v,
        None => {
            return None;
        },
    };
    Some(
        TaxTableRow {
            income_min: mn,
            income_max: mx,
            single: si,
            married_filing_jointly: mj,
            married_filing_separately: ms,
            head_of_household: hh,
        },
    )
}

/// Parse one worksheet record for a key, mirroring [`parse_ws_record`].
fn parse_ws_record_exec(rec: &[u8], key: &[u8]) -> (r: Option<WorksheetBracket>)
    ensures
        r == parse_ws_record(rec@, key@),
{
    let fields = split_fields_exec(rec);
    proof {
        assert forall|k: int| 0 <= k < fields@.len() implies (#[trigger] fields@[k])@
            == split_fields(rec@)[k] by {
            assert(fields@.map_values(|f: Vec<u8>| f@)[k] == split_fields(rec@)[k]);
        }
    }
    if fields.len() < 5 {
        return None;
    }
    if !bytes_eq(fields[0].as_slice(), key) {
        return None;
    }
    let mn = match parse_int_slice(fields[1].as_slice()) {
        Some(v) => v,
        None => {
            return None;
        },
    };
    let mx: Option<i64> = if fields[2].len() == 0 {
        None
    } else {
        match parse_int_slice(fields[2].as_slice()) {
            Some(v) => Some(v),
            None => {
                return None;
            },
        }
    };
    let rt = match parse_decimal_e4_slice(fields[3].as_slice()) {
        Some(v) => v,
        None => {
            return None;
        },
    };
    let sb = match parse_decimal_e4_slice(fields[4].as_slice()) {
        Some(v) => v,
        None => {
            return None;
        },
    };
    Some(WorksheetBracket { income_min: mn, income_max: mx, rate_e4: rt, subtraction_e4: sb })
}

/// Parse every data line of a Tax Table source suffix, mirroring
/// [`parse_table_lines`] over [`split_lines`].
fn parse_table_lines_exec(s: &[u8]) -> (rows: Vec<TaxTableRow>)
    ensures
        rows@ == parse_table_lines(split_lines(s@)),
    decreases s@.len(),
{
    let n = s.len();
    if n == 0 {
        return Vec::new();
    }
    let j = find_first(s, 10);
    proof {
        lemma_find_byte(s@, 10);
    }
    let rend = if j > 0 && *slice_index_get(s, j - 1) == 13 {
        j - 1
    } else {
        j
    };
    let rec = slice_subrange(s, 0, rend);
    proof {
        if j == n {
            assert(s@.take(j as int) =~= s@);
        }
        assert(rec@ =~= strip_cr(s@.take(j as int)));
    }
    let head = parse_table_record_exec(rec);
    let mut rows: Vec<TaxTableRow> = Vec::new();
    match head {
        Some(r0) => rows.push(r0),
        None => {},
    }
    if j < n {
        let mut rest = parse_table_lines_exec(slice_subrange(s, j + 1, n));
        rows.append(&mut rest);
        proof {
            assert(s@.subrange(j as int + 1, n as int) =~= s@.skip(j as int + 1));
            let lines = split_lines(s@);
            assert(lines.drop_first() =~= split_lines(s@.skip(j as int + 1)));
            assert(rows@ =~= parse_table_lines(lines));
        }
    } else {
        proof {
            let lines = split_lines(s@);
            assert(lines.drop_first() =~= Seq::<Seq<u8>>::empty());
            assert(parse_table_lines(Seq::<Seq<u8>>::empty()) =~= Seq::<TaxTableRow>::empty());
            assert(rows@ =~= parse_table_lines(lines));
        }
    }
    rows
}

/// Parse every data line of a worksheet source suffix for one key,
/// mirroring [`parse_ws_lines`] over [`split_lines`].
fn parse_ws_lines_exec(s: &[u8], key: &[u8]) -> (brackets: Vec<WorksheetBracket>)
    ensures
        brackets@ == parse_ws_lines(split_lines(s@), key@),
    decreases s@.len(),
{
    let n = s.len();
    if n == 0 {
        return Vec::new();
    }
    let j = find_first(s, 10);
    proof {
        lemma_find_byte(s@, 10);
    }
    let rend = if j > 0 && *slice_index_get(s, j - 1) == 13 {
        j - 1
    } else {
        j
    };
    let rec = slice_subrange(s, 0, rend);
    proof {
        if j == n {
            assert(s@.take(j as int) =~= s@);
        }
        assert(rec@ =~= strip_cr(s@.take(j as int)));
    }
    let head = parse_ws_record_exec(rec, key);
    let mut brackets: Vec<WorksheetBracket> = Vec::new();
    match head {
        Some(b0) => brackets.push(b0),
        None => {},
    }
    if j < n {
        let mut rest = parse_ws_lines_exec(slice_subrange(s, j + 1, n), key);
        brackets.append(&mut rest);
        proof {
            assert(s@.subrange(j as int + 1, n as int) =~= s@.skip(j as int + 1));
            let lines = split_lines(s@);
            assert(lines.drop_first() =~= split_lines(s@.skip(j as int + 1)));
            assert(brackets@ =~= parse_ws_lines(lines, key@));
        }
    } else {
        proof {
            let lines = split_lines(s@);
            assert(lines.drop_first() =~= Seq::<Seq<u8>>::empty());
            assert(parse_ws_lines(Seq::<Seq<u8>>::empty(), key@) =~= Seq::<WorksheetBracket>::empty());
            assert(brackets@ =~= parse_ws_lines(lines, key@));
        }
    }
    brackets
}

/// Parse a Tax Table source: skip the header line, then keep every record
/// that yields six whole numbers, in source order.
pub fn parse_tax_table(csv: &str) -> (rows: Vec<TaxTableRow>)
    ensures
        rows@ == parse_table_spec(csv.spec_bytes()),
{
    let bytes = csv.as_bytes();
    let n = bytes.len();
    if n == 0 {
        return Vec::new();
    }
    let j = find_first(bytes, 10);
    proof {
        lemma_find_byte(bytes@, 10);
    }
    if j >= n {
        proof {
            assert(split_lines(bytes@).drop_first() =~= Seq::<Seq<u8>>::empty());
        }
        return Vec::new();
    }
    let rows = parse_table_lines_exec(slice_subrange(bytes, j + 1, n));
    proof {
        assert(bytes@.subrange(j as int + 1, n as int) =~= bytes@.skip(j as int + 1));
        assert(split_lines(bytes@).drop_first() =~= split_lines(bytes@.skip(j as int + 1)));
    }
    rows
}

/// Parse a worksheet source for a filing status: skip the header line, then
/// keep every record whose key matches the resolved status, in source order.
pub fn parse_worksheet(csv: &str, status: FilingStatus) -> (brackets: Vec<WorksheetBracket>)
    ensures
        brackets@ == parse_worksheet_spec(csv.spec_bytes(), status_key(status)),
{
    let key = filing_status_csv_key(status).as_bytes();
    let bytes = csv.as_bytes();
    let n = bytes.len();
    if n == 0 {
        return Vec::new();
    }
    let j = find_first(bytes, 10);
    proof {
        lemma_find_byte(bytes@, 10);
    }
    if j >= n {
        proof {
            assert(split_lines(bytes@).drop_first() =~= Seq::<Seq<u8>>::empty());
        }
        return Vec::new();
    }
    let brackets = parse_ws_lines_exec(slice_subrange(bytes, j + 1, n), key);
    proof {
        assert(bytes@.subrange(j as int + 1, n as int) =~= bytes@.skip(j as int + 1));
        assert(split_lines(bytes@).drop_first() =~= split_lines(bytes@.skip(j as int + 1)));
    }
    brackets
}

} // verus!
