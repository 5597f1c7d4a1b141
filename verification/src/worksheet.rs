//! The Tax Computation Worksheet: brackets, scanning, and the formula.
//!
//! For incomes of $100,000 and above the tax comes from a per-bracket linear
//! formula, `tax = income * rate - subtraction_amount`, rounded to the
//! nearest whole dollar with halves rounding away from zero. The brackets of
//! a filing status are the year's rate schedule clipped to the $100,000
//! threshold: the first bracket starts exactly at $100,000, every bounded
//! bracket ends (inclusively) where the next one starts, and exactly the top
//! bracket is unbounded and exclusive at its lower end.

use crate::schedule::RateBracket;
use crate::schedule::bracket_of2;
use crate::schedule::find_bracket2;
use crate::schedule::lemma_bracket_of2;
use crate::types::TaxError;
use vstd::prelude::*;

verus! {

/// A single bracket from the Tax Computation Worksheet.
#[derive(Debug, Clone, Copy, PartialEq, Eq, Structural)]
pub struct WorksheetBracket {
    /// Lower bound of the bracket: inclusive for bounded brackets, exclusive
    /// for the unbounded top bracket (which begins exactly where the last
    /// bounded bracket ends).
    pub income_min: i64,
    /// Upper bound of the bracket (inclusive), or `None` for the unbounded
    /// top bracket.
    pub income_max: Option<i64>,
    /// Rate in ten-thousandths (2200 is 22%).
    pub rate_e4: i64,
    /// Subtraction amount in ten-thousandths of a dollar.
    pub subtraction_e4: i64,
}

/// Whether income `x` falls in bracket `b`: `income_min <= x <= income_max`
/// when bounded, `x > income_min` when unbounded.
pub open spec fn ws_matches(b: WorksheetBracket, x: int) -> bool {
    match b.income_max {
        Some(mx) => b.income_min as int <= x <= mx as int,
        None => x > b.income_min as int,
    }
}

/// Index of the first bracket matching `x`, or `bs.len()` when none does
/// (the worksheet is scanned in source order).
pub open spec fn ws_first_match(bs: Seq<WorksheetBracket>, x: int) -> int
    decreases bs.len(),
{
    if bs.len() == 0 {
        0
    } else if ws_matches(bs[0], x) {
        0
    } else {
        1 + ws_first_match(bs.drop_first(), x)
    }
}

/// Characterization of `ws_first_match`: it is in range, it matches when in
/// range, and nothing before it matches.
pub proof fn lemma_ws_first_match(bs: Seq<WorksheetBracket>, x: int)
    ensures
        0 <= ws_first_match(bs, x) <= bs.len(),
        ws_first_match(bs, x) < bs.len() ==> ws_matches(bs[ws_first_match(bs, x)], x),
        forall|i: int| 0 <= i < ws_first_match(bs, x) ==> !ws_matches(#[trigger] bs[i], x),
    decreases bs.len(),
{
    if bs.len() > 0 && !ws_matches(bs[0], x) {
        lemma_ws_first_match(bs.drop_first(), x);
        assert forall|i: int| 0 <= i < ws_first_match(bs, x) implies !ws_matches(
            #[trigger] bs[i],
            x,
        ) by {
            if i > 0 {
                assert(bs.drop_first()[i - 1] == bs[i]);
            }
        }
    }
}

/// Round a value in ten-thousandths of a dollar to whole dollars, halves
/// rounding away from zero (the rounding the worksheet instructions use).
pub open spec fn round_half_away_e4(v: int) -> int {
    if v >= 0 {
        (v + 5000) / 10_000
    } else {
        -((-v + 5000) / 10_000)
    }
}

/// The worksheet formula of bracket `b` applied to income `x`.
pub open spec fn ws_formula(b: WorksheetBracket, x: int) -> int {
    round_half_away_e4(x * b.rate_e4 - b.subtraction_e4)
}

/// What a worksheet lookup returns: the formula value of the first matching
/// bracket, or `NoBracketFound` when none matches.
pub open spec fn ws_lookup(bs: Seq<WorksheetBracket>, x: int) -> Result<int, TaxError> {
    let m = ws_first_match(bs, x);
    if m < bs.len() {
        Ok(ws_formula(bs[m], x))
    } else {
        Err(TaxError::NoBracketFound)
    }
}

/// The bracket invariant the data model demands of every worksheet record:
/// a nonnegative lower bound, a rate that is a positive fraction of at most
/// 100%, and a nonnegative subtraction amount.
pub open spec fn ws_bracket_valid(b: WorksheetBracket) -> bool {
    &&& 0 <= b.income_min
    &&& 0 < b.rate_e4 <= 10_000
    &&& 0 <= b.subtraction_e4
}

/// Every bracket of the sequence is valid.
pub open spec fn ws_brackets_valid(bs: Seq<WorksheetBracket>) -> bool {
    forall|i: int| 0 <= i < bs.len() ==> ws_bracket_valid(#[trigger] bs[i])
}

/// Validate parsed brackets at load time: decide [`ws_brackets_valid`],
/// the invariant [`compute_from_worksheet`] relies on.
pub fn ws_brackets_check(brackets: &Vec<WorksheetBracket>) -> (b: bool)
    ensures
        b == ws_brackets_valid(brackets@),
{
    let n = brackets.len();
    let mut i: usize = 0;
    while i < n
        invariant
            i <= n,
            n == brackets@.len(),
            forall|k: int| 0 <= k < i as int ==> ws_bracket_valid(#[trigger] brackets@[k]),
        decreases n - i,
    {
        let b = brackets[i];
        if !(0 <= b.income_min && 0 < b.rate_e4 && b.rate_e4 <= 10_000 && 0 <= b.subtraction_e4) {
            return false;
        }
        i += 1;
    }
    true
}

/// Compute tax from worksheet brackets (income at or above $100,000 in the
/// intended use, though any nonnegative income is accepted): scan the
/// brackets in order and apply the formula of the first match.
pub fn compute_from_worksheet(brackets: &Vec<WorksheetBracket>, taxable_income: i64) -> (r: Result<
    i64,
    TaxError,
>)
    requires
        ws_brackets_valid(brackets@),
        taxable_income >= 0,
    ensures
        (r is Ok) == (ws_lookup(brackets@, taxable_income as int) is Ok),
        r is Ok ==> r->Ok_0 as int == ws_lookup(brackets@, taxable_income as int)->Ok_0,
        r is Err ==> r->Err_0 == TaxError::NoBracketFound,
{
    let ghost x = taxable_income as int;
    let n = brackets.len();
    let mut j: usize = 0;
    while j < n
        invariant
            j <= n,
            n == brackets@.len(),
            ws_brackets_valid(brackets@),
            taxable_income >= 0,
            x == taxable_income as int,
            forall|i: int| 0 <= i < j as int ==> !ws_matches(#[trigger] brackets@[i], x),
        decreases n - j,
    {
        let b = brackets[j];
        let in_range = match b.income_max {
            Some(mx) => taxable_income >= b.income_min && taxable_income <= mx,
            None => taxable_income > b.income_min,
        };
        if in_range {
            proof {
                lemma_ws_first_match(brackets@, x);
                let m = ws_first_match(brackets@, x);
                assert(m == j as int) by {
                    if m < j as int {
                        assert(ws_matches(brackets@[m], x));
                    } else if (j as int) < m {
                        assert(!ws_matches(brackets@[j as int], x));
                    }
                }
                assert(x * (b.rate_e4 as int) <= 0x7fff_ffff_ffff_ffff * 10_000)
                    by (nonlinear_arith)
                    requires
                        0 <= x <= 0x7fff_ffff_ffff_ffff,
                        0 < b.rate_e4 <= 10_000,
                ;
                assert(0 <= x * (b.rate_e4 as int)) by (nonlinear_arith)
                    requires
                        0 <= x,
                        0 < b.rate_e4,
                ;
            }
            let v = (taxable_income as i128) * (b.rate_e4 as i128) - (b.subtraction_e4 as i128);
            let dollars: i128 = if v >= 0 {
                (v + 5000) / 10_000
            } else {
                -((-v + 5000) / 10_000)
            };
            return Ok(dollars as i64);
        }
        j += 1;
    }
    proof {
        lemma_ws_first_match(brackets@, x);
    }
    Err(TaxError::NoBracketFound)
}

/// Worksheet bracket `k` derived from a rate schedule: lower bound clipped
/// to $100,000 for the first worksheet bracket, upper bound equal to the
/// next schedule bracket's start, unbounded for the top bracket.
pub open spec fn ws_row_model(s: Seq<RateBracket>, k: int) -> WorksheetBracket {
    WorksheetBracket {
        income_min: if k == bracket_of2(s, 200_000) {
            100_000 as i64
        } else {
            s[k].income_min
        },
        income_max: if k < s.len() - 1 {
            Some(s[k + 1].income_min)
        } else {
            None
        },
        rate_e4: s[k].rate_e4,
        subtraction_e4: s[k].subtraction_e4,
    }
}

/// The full worksheet of a rate schedule: its brackets from the one holding
/// $100,000 upward, clipped as in `ws_row_model`.
pub open spec fn ws_model(s: Seq<RateBracket>) -> Seq<WorksheetBracket> {
    Seq::new(
        (s.len() - bracket_of2(s, 200_000)) as nat,
        |j: int| ws_row_model(s, bracket_of2(s, 200_000) + j),
    )
}

/// Build the worksheet brackets of a rate schedule.
pub fn build_worksheet(sched: &Vec<RateBracket>) -> (bs: Vec<WorksheetBracket>)
    requires
        crate::schedule::schedule_wf(sched@),
    ensures
        bs@ == ws_model(sched@),
{
    let k0 = find_bracket2(sched, 200_000);
    let mut bs: Vec<WorksheetBracket> = Vec::new();
    let mut k: usize = k0;
    while k < 7
        invariant
            crate::schedule::schedule_wf(sched@),
            k0 as int == bracket_of2(sched@, 200_000),
            k0 <= k <= 7,
            k0 < 7,
            bs@.len() == k - k0,
            forall|j: int|
                0 <= j < bs@.len() ==> bs@[j] == ws_row_model(sched@, k0 as int + j),
        decreases 7 - k,
    {
        let b = WorksheetBracket {
            income_min: if k == k0 {
                100_000
            } else {
                sched[k].income_min
            },
            income_max: if k < 6 {
                Some(sched[k + 1].income_min)
            } else {
                None
            },
            rate_e4: sched[k].rate_e4,
            subtraction_e4: sched[k].subtraction_e4,
        };
        bs.push(b);
        k += 1;
    }
    proof {
        assert(bs@ =~= ws_model(sched@));
    }
    bs
}

/// The worksheet derived from a well-formed schedule is valid, and every
/// income at or above $100,000 matches some bracket, so a lookup always
/// succeeds.
pub proof fn lemma_ws_lookup_model(s: Seq<RateBracket>, x: int)
    requires
        crate::schedule::schedule_wf(s),
        x >= 100_000,
    ensures
        ws_brackets_valid(ws_model(s)),
        ws_lookup(ws_model(s), x) is Ok,
{
    let bs = ws_model(s);
    let k0 = bracket_of2(s, 200_000);
    lemma_bracket_of2(s, 200_000);
    assert(k0 < 6) by {
        if k0 == 6 {
            assert(2 * s[6].income_min <= 200_000);
        }
    }
    assert forall|i: int| 0 <= i < bs.len() implies ws_bracket_valid(#[trigger] bs[i]) by {
        assert(crate::schedule::bracket_wf(s[k0 + i]));
        assert(bs[i] == ws_row_model(s, k0 + i));
    }
    // Some bracket matches x: the one containing it, or its predecessor when
    // x sits exactly on the top bracket's lower bound.
    let kx = bracket_of2(s, 2 * x);
    lemma_bracket_of2(s, 2 * x);
    assert(k0 <= kx) by {
        if kx < k0 {
            assert(s[kx + 1].income_min <= s[k0].income_min);
        }
    }
    let j0: int = if kx < 6 {
        kx - k0
    } else if x > s[6].income_min {
        6 - k0
    } else {
        5 - k0
    };
    if kx < 6 {
        assert(ws_matches(bs[j0], x));
    } else if x > s[6].income_min {
        assert(ws_matches(bs[j0], x));
    } else {
        assert(x == s[6].income_min);
        assert(s[5].income_min < s[6].income_min);
        assert(ws_matches(bs[j0], x));
    }
    lemma_ws_first_match(bs, x);
    let m = ws_first_match(bs, x);
    if m >= bs.len() {
        assert(!ws_matches(bs[j0], x));
    }
}

} // verus!
