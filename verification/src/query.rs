//! Query results: affected-row counts of executed statements and the
//! buffered result sets of queries; and the declared precision of decimal
//! parameters.

use vstd::prelude::*;

use crate::arrow::pow10;
use crate::driver_value::{decimal_parse, decimal_parts, decimal_text_accepted, DriverDecimal};
use crate::text::decimal_digits;

verus! {

/// The sum of a sequence of counts.
pub open spec fn sum_counts(s: Seq<u64>) -> int
    decreases s.len(),
{
    if s.len() == 0 {
        0
    } else {
        sum_counts(s.drop_last()) + s.last()
    }
}

/// What one executed statement reports.
#[derive(Debug, Clone, Copy, PartialEq, Eq, Structural)]
pub enum StatementOutcome {
    /// A statement that returned rows, with the number of rows read.
    Rows(u64),
    /// A statement without rows, with its affected-row count if the server
    /// sent one.
    NoRows(Option<u64>),
}

/// Result of an `execute()` call: one row count per statement that reported
/// one, in statement order.
#[derive(Debug, Clone)]
pub struct ExecuteResult {
    pub(crate) counts: Vec<u64>,
}

impl ExecuteResult {
    /// The per-statement counts.
    pub closed spec fn spec_counts(&self) -> Seq<u64> {
        self.counts@
    }

    /// A result with the given per-statement counts.
    pub fn new(counts: Vec<u64>) -> (r: Self)
        ensures
            r.spec_counts() == counts@,
    {
        ExecuteResult { counts }
    }

    /// Records one statement: a row-returning statement counts its rows, a
    /// statement without rows contributes its affected-row count when the
    /// server sent one.
    pub fn record(&mut self, outcome: StatementOutcome)
        ensures
            final(self).spec_counts() == match outcome {
                StatementOutcome::Rows(n) => old(self).spec_counts().push(n),
                StatementOutcome::NoRows(Some(n)) => old(self).spec_counts().push(n),
                StatementOutcome::NoRows(None) => old(self).spec_counts(),
            },
    {
        match outcome {
            StatementOutcome::Rows(n) => self.counts.push(n),
            StatementOutcome::NoRows(Some(n)) => self.counts.push(n),
            StatementOutcome::NoRows(None) => {},
        }
    }

    /// Per-statement row counts in statement order.
    pub fn rows_affected(&self) -> (r: &[u64])
        ensures
            r@ == self.spec_counts(),
    {
        self.counts.as_slice()
    }

    /// Total rows affected across all statements.
    pub fn total(&self) -> (r: u64)
        requires
            sum_counts(self.spec_counts()) <= u64::MAX,
        ensures
            r == sum_counts(self.spec_counts()),
    {
        let mut total: u64 = 0;
        let mut i: usize = 0;
        while i < self.counts.len()
            invariant
                0 <= i <= self.counts@.len(),
                total == sum_counts(self.counts@.subrange(0, i as int)),
                sum_counts(self.counts@) <= u64::MAX,
            decreases self.counts@.len() - i,
        {
            proof {
                let sub = self.counts@.subrange(0, i + 1);
                assert(sub.drop_last() =~= self.counts@.subrange(0, i as int));
                lemma_sum_prefix_bounded(self.counts@, i + 1);
            }
            total = total + self.counts[i];
            i = i + 1;
        }
        assert(self.counts@.subrange(0, self.counts@.len() as int) =~= self.counts@);
        total
    }

    /// The per-statement row counts, in order.
    pub fn into_iter(self) -> (r: Vec<u64>)
        ensures
            r@ == self.spec_counts(),
    {
        self.counts
    }
}

/// A prefix of counts never sums to more than the whole.
pub proof fn lemma_sum_prefix_bounded(s: Seq<u64>, n: int)
    requires
        0 <= n <= s.len(),
    ensures
        sum_counts(s.subrange(0, n)) <= sum_counts(s),
    decreases s.len() - n,
{
    if n < s.len() {
        lemma_sum_prefix_bounded(s, n + 1);
        let sub = s.subrange(0, n + 1);
        assert(sub.drop_last() =~= s.subrange(0, n));
    } else {
        assert(s.subrange(0, n) =~= s);
    }
}

/// The total number of rows of a list of result sets.
pub open spec fn total_rows<R>(sets: Seq<Seq<R>>) -> int
    decreases sets.len(),
{
    if sets.len() == 0 {
        0
    } else {
        total_rows(sets.drop_last()) + sets.last().len()
    }
}

/// The rows of all result sets, in order.
pub open spec fn flatten_sets<R>(sets: Seq<Seq<R>>) -> Seq<R>
    decreases sets.len(),
{
    if sets.len() == 0 {
        Seq::empty()
    } else {
        flatten_sets(sets.drop_last()) + sets.last()
    }
}

/// Collected results of one or more SQL statements: one list of rows per
/// result set.
pub struct QueryResult<R> {
    pub(crate) result_sets: Vec<Vec<R>>,
}

/// The view of a list of result sets.
pub open spec fn result_sets_view<R>(sets: Seq<Vec<R>>) -> Seq<Seq<R>> {
    sets.map_values(|v: Vec<R>| v@)
}

impl<R> QueryResult<R> {
    /// The result sets.
    pub closed spec fn spec_sets(&self) -> Seq<Seq<R>> {
        result_sets_view(self.result_sets@)
    }

    /// A result holding these result sets.
    pub fn new(result_sets: Vec<Vec<R>>) -> (r: Self)
        ensures
            r.spec_sets() == result_sets_view(result_sets@),
    {
        QueryResult { result_sets }
    }

    /// A result without any result set.
    pub fn empty() -> (r: Self)
        ensures
            r.spec_sets().len() == 0,
    {
        QueryResult { result_sets: Vec::new() }
    }

    /// The first result set; empty when the query produced none.
    pub fn into_first_result(self) -> (r: Vec<R>)
        ensures
            self.spec_sets().len() == 0 ==> r@.len() == 0,
            self.spec_sets().len() > 0 ==> r@ == self.spec_sets()[0],
    {
        let mut sets = self.result_sets;
        if sets.len() == 0 {
            return Vec::new();
        }
        sets.remove(0)
    }

    /// All result sets, in order.
    pub fn into_results(self) -> (r: Vec<Vec<R>>)
        ensures
            result_sets_view(r@) == self.spec_sets(),
    {
        self.result_sets
    }

    /// Number of result sets.
    pub fn result_set_count(&self) -> (r: usize)
        ensures
            r == self.spec_sets().len(),
    {
        self.result_sets.len()
    }

    /// The rows of all result sets in order, with their number.
    pub fn into_rows(self) -> (r: Vec<R>)
        ensures
            r@ == flatten_sets(self.spec_sets()),
            r@.len() == total_rows(self.spec_sets()),
    {
        let ghost sets = self.spec_sets();
        let mut out: Vec<R> = Vec::new();
        let mut rest = self.result_sets;
        let ghost all = rest@;
        let n = rest.len();
        let mut i: usize = 0;
        while i < n
            invariant
                0 <= i <= n,
                n == all.len(),
                sets == result_sets_view(all),
                rest@ == all.subrange(i as int, n as int),
                out@ == flatten_sets(sets.subrange(0, i as int)),
                out@.len() == total_rows(sets.subrange(0, i as int)),
            decreases n - i,
        {
            let mut set = rest.remove(0);
            let ghost set_view = set@;
            assert(set_view == sets[i as int]);
            out.append(&mut set);
            proof {
                let sub = sets.subrange(0, i + 1);
                assert(sub.drop_last() =~= sets.subrange(0, i as int));
                assert(sub.last() == set_view);
                assert(rest@ =~= all.subrange(i + 1, n as int));
            }
            i = i + 1;
        }
        assert(sets.subrange(0, n as int) =~= sets);
        out
    }
}

/// A number below `10^k` has at most `k` decimal digits.
proof fn lemma_digits_below_pow10(n: nat, k: nat)
    requires
        n < pow10(k),
        k >= 1,
    ensures
        decimal_digits(n).len() <= k,
    decreases n,
{
    if n >= 10 {
        assert(n / 10 < pow10((k - 1) as nat)) by (nonlinear_arith)
            requires
                n < pow10(k),
                k >= 1,
                pow10(k) == 10 * pow10((k - 1) as nat);
        if k == 1 {
            assert(pow10(1) == 10) by {
                reveal_with_fuel(pow10, 2);
            }
        } else {
            lemma_digits_below_pow10(n / 10, (k - 1) as nat);
        }
    }
}

proof fn lemma_pow10_39()
    ensures
        pow10(39) == 1000000000000000000000000000000000000000,
{
    reveal_with_fuel(pow10, 40);
}

/// The number of decimal digits of `m` (1 for zero).
pub fn digit_count(m: u128) -> (r: u32)
    ensures
        r == decimal_digits(m as nat).len(),
        r <= 39,
    decreases m,
{
    proof {
        lemma_pow10_39();
        lemma_digits_below_pow10(m as nat, 39);
    }
    if m < 10 {
        1
    } else {
        1 + digit_count(m / 10)
    }
}

/// The precision that a decimal with this coefficient and scale is declared
/// with: the digits of the coefficient, but at least the scale (taken as a
/// byte).
pub open spec fn decimal_precision_of(mantissa: i128, scale: u32) -> u8 {
    let m: nat = if mantissa < 0 { (-mantissa) as nat } else { mantissa as nat };
    let digits = decimal_digits(m).len() as u8;
    let s = scale as u8;
    if digits < s { s } else { digits }
}

/// The magnitude of a coefficient.
pub open spec fn magnitude_of(mantissa: i128) -> nat {
    if mantissa < 0 {
        (-mantissa) as nat
    } else {
        mantissa as nat
    }
}

/// The declared precision of a decimal is the larger of the number of
/// decimal digits of its coefficient's magnitude and its scale (as a byte):
/// it covers both, and is one of them. So once the coefficient has at least
/// as many digits as the scale, the scale does not change the precision,
/// and the sign of the coefficient never does.
pub proof fn lemma_decimal_precision(mantissa: i128, scale: u32, other_scale: u32)
    ensures
        decimal_precision_of(mantissa, scale) >= decimal_digits(magnitude_of(mantissa)).len(),
        decimal_precision_of(mantissa, scale) >= scale as u8,
        decimal_precision_of(mantissa, scale) == decimal_digits(magnitude_of(mantissa)).len()
            || decimal_precision_of(mantissa, scale) == scale as u8,
        scale as u8 <= decimal_digits(magnitude_of(mantissa)).len() && other_scale as u8 <= decimal_digits(
            magnitude_of(mantissa),
        ).len() ==> decimal_precision_of(mantissa, scale) == decimal_precision_of(mantissa, other_scale),
        mantissa > i128::MIN ==> decimal_precision_of(mantissa, scale) == decimal_precision_of(-mantissa as i128, scale),
{
    lemma_digit_count_small(magnitude_of(mantissa));
    if mantissa > i128::MIN {
        assert(magnitude_of(-mantissa as i128) == magnitude_of(mantissa));
    }
}

/// The magnitude of an `i128` has at most 39 decimal digits.
proof fn lemma_digit_count_small(n: nat)
    requires
        n <= 170141183460469231731687303715884105728,
    ensures
        decimal_digits(n).len() <= 39,
{
    lemma_pow10_39();
    lemma_digits_below_pow10(n, 39);
}

/// The declared precision of a decimal parameter with this coefficient and
/// scale.
pub fn decimal_precision(mantissa: i128, scale: u32) -> (r: u8)
    ensures
        r == decimal_precision_of(mantissa, scale),
        r >= decimal_digits(magnitude_of(mantissa)).len(),
        r >= scale as u8,
        r == decimal_digits(magnitude_of(mantissa)).len() || r == scale as u8,
{
    let m: u128 = if mantissa < 0 {
        if mantissa == i128::MIN {
            170141183460469231731687303715884105728u128
        } else {
            (-mantissa) as u128
        }
    } else {
        mantissa as u128
    };
    let digits = digit_count(m) as u8;
    let s = scale as u8;
    if digits < s {
        s
    } else {
        digits
    }
}

/// The driver's decimal value of `text` for a parameter declared with this
/// precision and scale, retried at the largest precision (38) when the
/// declared one is too small; `None` when neither is accepted.
pub fn decimal_to_sql_type(text: &str, precision: u8, scale: u8) -> (r: Option<DriverDecimal>)
    ensures
        r is Some <==> (decimal_text_accepted(text@, precision, scale) || decimal_text_accepted(text@, 38, scale)),
        r matches Some(v) ==> {
            let p: u8 = if decimal_text_accepted(text@, precision, scale) { precision } else { 38 };
            &&& v.spec_precision() == p
            &&& v.spec_scale() == scale
            &&& decimal_parse(text@, p, scale) == Some((v.spec_positive(), v.spec_magnitude()))
        },
{
    match decimal_parts(text, precision, scale) {
        Ok(parts) => Some(parts),
        Err(_) => match decimal_parts(text, 38, scale) {
            Ok(parts) => Some(parts),
            Err(_) => None,
        },
    }
}

/// The driver's decimal value of a decimal parameter given by its text,
/// coefficient and scale: declared with [`decimal_precision`], with the
/// fallback of [`decimal_to_sql_type`].
pub fn decimal_parameter(text: &str, mantissa: i128, scale: u32) -> (r: Option<DriverDecimal>)
    ensures
        r is Some <==> (decimal_text_accepted(text@, decimal_precision_of(mantissa, scale), scale as u8)
            || decimal_text_accepted(text@, 38, scale as u8)),
        r matches Some(v) ==> {
            let p: u8 = if decimal_text_accepted(text@, decimal_precision_of(mantissa, scale), scale as u8) {
                decimal_precision_of(mantissa, scale)
            } else {
                38
            };
            &&& v.spec_precision() == p
            &&& v.spec_scale() == scale as u8
            &&& decimal_parse(text@, p, scale as u8) == Some((v.spec_positive(), v.spec_magnitude()))
        },
{
    let precision = decimal_precision(mantissa, scale);
    decimal_to_sql_type(text, precision, scale as u8)
}

} // verus!
