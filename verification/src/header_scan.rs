//! A guard over PLY header text, run before the parser.
//!
//! The parser's header grammar converts each decimal count on an `element`
//! line and each version digit run on a `format` line with an unchecked
//! 64-bit conversion that aborts the process, instead of failing, when the
//! run's value does not fit. The import therefore rejects, before parsing,
//! any text whose header holds such a run where the grammar would read one,
//! and returns its normal import error instead.
//!
//! The scan is deliberately a little wider than the grammar: on every line
//! up to the first `end_header` line that begins with `element` or `format`,
//! every maximal decimal run must fit in 64 bits, wherever on the line it
//! stands. Digit runs on other header lines (comments, object info,
//! property declarations) are not restricted, and nothing after the first
//! `end_header` line is scanned. A text without `end_header` is scanned to
//! its end; the parser rejects such a text anyway.

use vstd::prelude::*;
use vstd::string::StringSliceAdditionalSpecFns;

verus! {

/// A decimal digit byte.
pub open spec fn is_digit_byte(c: u8) -> bool {
    '0' as u8 <= c <= '9' as u8
}

/// The byte that ends a header line.
pub open spec fn newline_byte() -> u8 {
    '\n' as u8
}

/// End of the line holding position `i`: the first newline at or after `i`,
/// or the end of the text.
pub open spec fn line_end(b: Seq<u8>, i: int) -> int
    decreases b.len() - i,
        when 0 <= i <= b.len()
{
    if i >= b.len() {
        b.len() as int
    } else if b[i] == newline_byte() {
        i
    } else {
        line_end(b, i + 1)
    }
}

/// The end of a line lies between its start and the end of the text.
proof fn lemma_line_end_bounds(b: Seq<u8>, i: int)
    requires
        0 <= i <= b.len(),
    ensures
        i <= line_end(b, i) <= b.len(),
    decreases b.len() - i,
{
    if i < b.len() && b[i] != newline_byte() {
        lemma_line_end_bounds(b, i + 1);
    }
}

/// Skipping newline-free text does not move the end of the line.
proof fn lemma_line_end_skip(b: Seq<u8>, i: int, k: int)
    requires
        0 <= i <= k <= b.len(),
        forall|m: int| i <= m < k ==> #[trigger] b[m] != newline_byte(),
    ensures
        line_end(b, i) == line_end(b, k),
    decreases k - i,
{
    if i < k {
        lemma_line_end_skip(b, i + 1, k);
    }
}

/// End of the maximal digit run starting at `p`, capped at `j`.
pub open spec fn run_end(b: Seq<u8>, p: int, j: int) -> int
    decreases j - p,
        when 0 <= p <= j <= b.len()
{
    if p >= j {
        j
    } else if !is_digit_byte(b[p]) {
        p
    } else {
        run_end(b, p + 1, j)
    }
}

/// Value of the decimal digit run `b[p..q)`.
pub open spec fn run_value(b: Seq<u8>, p: int, q: int) -> int
    decreases q - p,
        when p <= q
{
    if q <= p {
        0
    } else {
        run_value(b, p, q - 1) * 10 + (b[q - 1] - '0' as u8)
    }
}

/// A digit run's value is never negative.
proof fn lemma_run_value_nonneg(b: Seq<u8>, p: int, q: int)
    requires
        0 <= p <= q <= b.len(),
        forall|m: int| p <= m < q ==> is_digit_byte(#[trigger] b[m]),
    ensures
        run_value(b, p, q) >= 0,
    decreases q - p,
{
    if p < q {
        lemma_run_value_nonneg(b, p, q - 1);
        let prefix = run_value(b, p, q - 1);
        assert(prefix * 10 >= 0) by (nonlinear_arith)
            requires
                prefix >= 0,
        ;
    }
}

/// Every maximal digit run beginning at or after `p` and before `j` fits in
/// 64 bits; `prev_digit` says whether position `p` continues a run begun
/// just before it (such a position starts no run of its own).
pub open spec fn runs_fit_from(b: Seq<u8>, p: int, j: int, prev_digit: bool) -> bool
    decreases j - p,
        when 0 <= p <= j <= b.len()
{
    if p >= j {
        true
    } else {
        let here_digit = is_digit_byte(b[p]);
        &&& ((here_digit && !prev_digit) ==> run_value(b, p, run_end(b, p, j)) <= u64::MAX)
        &&& runs_fit_from(b, p + 1, j, here_digit)
    }
}

/// Every maximal digit run in the line `b[p..j)` fits in 64 bits.
pub open spec fn line_digits_fit(b: Seq<u8>, p: int, j: int) -> bool {
    runs_fit_from(b, p, j, false)
}

/// Digits up to `q`, and `q` closing the run: the run starting at `p` ends
/// exactly at `q`.
proof fn lemma_run_end_chars(b: Seq<u8>, p: int, q: int, j: int)
    requires
        0 <= p <= q <= j <= b.len(),
        forall|m: int| p <= m < q ==> is_digit_byte(#[trigger] b[m]),
        q == j || !is_digit_byte(b[q]),
    ensures
        run_end(b, p, j) == q,
    decreases q - p,
{
    if p < q {
        lemma_run_end_chars(b, p + 1, q, j);
    }
}

/// Inside a run, positions start no run of their own.
proof fn lemma_runs_fit_inside(b: Seq<u8>, p: int, q: int, j: int)
    requires
        0 <= p <= q <= j <= b.len(),
        forall|m: int| p <= m < q ==> is_digit_byte(#[trigger] b[m]),
    ensures
        runs_fit_from(b, p, j, true) == runs_fit_from(b, q, j, true),
    decreases q - p,
{
    if p < q {
        lemma_runs_fit_inside(b, p + 1, q, j);
    }
}

/// A fitting run can be skipped whole: checking resumes after its last
/// digit, with the continuing-run flag set.
proof fn lemma_runs_fit_skip_run(b: Seq<u8>, p: int, q: int, j: int)
    requires
        0 <= p < q <= j <= b.len(),
        forall|m: int| p <= m < q ==> is_digit_byte(#[trigger] b[m]),
        q == j || !is_digit_byte(b[q]),
        run_value(b, p, q) <= u64::MAX,
    ensures
        runs_fit_from(b, p, j, false) == runs_fit_from(b, q, j, true),
{
    lemma_run_end_chars(b, p, q, j);
    lemma_runs_fit_inside(b, p + 1, q, j);
}

/// The bytes of the `element` keyword.
pub open spec fn element_keyword() -> Seq<u8> {
    seq!['e' as u8, 'l' as u8, 'e' as u8, 'm' as u8, 'e' as u8, 'n' as u8, 't' as u8]
}

/// The bytes of the `format` keyword.
pub open spec fn format_keyword() -> Seq<u8> {
    seq!['f' as u8, 'o' as u8, 'r' as u8, 'm' as u8, 'a' as u8, 't' as u8]
}

/// The bytes of the `end_header` keyword.
pub open spec fn end_header_keyword() -> Seq<u8> {
    seq![
        'e' as u8,
        'n' as u8,
        'd' as u8,
        '_' as u8,
        'h' as u8,
        'e' as u8,
        'a' as u8,
        'd' as u8,
        'e' as u8,
        'r' as u8,
    ]
}

/// Whether `pat` stands at position `i` of `b`.
pub open spec fn starts_with_at(b: Seq<u8>, i: int, pat: Seq<u8>) -> bool {
    &&& 0 <= i
    &&& i + pat.len() <= b.len()
    &&& b.subrange(i, i + pat.len() as int) == pat
}

/// The guard, line by line from position `i`: until the first `end_header`
/// line, every line beginning with `element` or `format` carries only
/// 64-bit decimal runs.
pub open spec fn header_scan_from(b: Seq<u8>, i: int) -> bool
    decreases b.len() - i,
        when 0 <= i <= b.len()
        via header_scan_from_decreases
{
    if i >= b.len() {
        true
    } else if starts_with_at(b, i, end_header_keyword()) {
        true
    } else {
        let j = line_end(b, i);
        let guarded = starts_with_at(b, i, element_keyword()) || starts_with_at(
            b,
            i,
            format_keyword(),
        );
        &&& (guarded ==> line_digits_fit(b, i, j))
        &&& (j >= b.len() || header_scan_from(b, j + 1))
    }
}

#[via_fn]
proof fn header_scan_from_decreases(b: Seq<u8>, i: int) {
    if i < b.len() {
        lemma_line_end_bounds(b, i);
    }
}

/// Whether a text's header is safe to hand to the parser: no `element` or
/// `format` header line carries a decimal run beyond 64 bits.
pub open spec fn header_decimals_fit(b: Seq<u8>) -> bool {
    header_scan_from(b, 0)
}

/// Compares `pat` against the bytes at position `i`.
#[verifier::loop_isolation(false)]
fn prefix_at<const N: usize>(bytes: &[u8], i: usize, pat: &[u8; N]) -> (r: bool)
    requires
        i <= bytes@.len(),
    ensures
        r == starts_with_at(bytes@, i as int, pat@),
{
    if bytes.len() - i < N {
        return false;
    }
    let mut m: usize = 0;
    while m < N
        invariant
            m <= N,
            i + N <= bytes@.len(),
            forall|t: int| 0 <= t < m ==> bytes@[i + t] == pat@[t],
        decreases N - m,
    {
        if bytes[i + m] != pat[m] {
            proof {
                if starts_with_at(bytes@, i as int, pat@) {
                    assert(bytes@.subrange(i as int, i + N as int)[m as int] == pat@[m as int]);
                }
            }
            return false;
        }
        m += 1;
    }
    proof {
        assert(bytes@.subrange(i as int, i + N as int) =~= pat@);
    }
    true
}

/// Scans the maximal digit run starting at `start`: its end, and whether its
/// value exceeds 64 bits.
#[verifier::loop_isolation(false)]
fn scan_run(bytes: &[u8], start: usize) -> (r: (usize, bool))
    requires
        start < bytes@.len(),
        is_digit_byte(bytes@[start as int]),
    ensures
        ({
            let (q, over) = r;
            &&& start < q <= bytes@.len()
            &&& forall|m: int| start <= m < q ==> is_digit_byte(#[trigger] bytes@[m])
            &&& (q == bytes@.len() || !is_digit_byte(bytes@[q as int]))
            &&& over == (run_value(bytes@, start as int, q as int) > u64::MAX)
        }),
{
    let n = bytes.len();
    let mut q: usize = start;
    let mut acc: u128 = 0;
    let mut over: bool = false;
    while q < n && bytes[q] >= '0' as u8 && bytes[q] <= '9' as u8
        invariant
            start <= q <= n,
            n == bytes@.len(),
            forall|m: int| start <= m < q ==> is_digit_byte(#[trigger] bytes@[m]),
            !over ==> acc == run_value(bytes@, start as int, q as int) && acc <= u64::MAX,
            over ==> run_value(bytes@, start as int, q as int) > u64::MAX,
        decreases n - q,
    {
        let d: u8 = bytes[q] - '0' as u8;
        if !over {
            let next: u128 = acc * 10 + d as u128;
            if next > u64::MAX as u128 {
                over = true;
            } else {
                acc = next;
            }
        } else {
            proof {
                lemma_run_value_nonneg(bytes@, start as int, q as int);
                let prefix = run_value(bytes@, start as int, q as int);
                let grown = run_value(bytes@, start as int, q as int + 1);
                assert(grown > u64::MAX) by (nonlinear_arith)
                    requires
                        grown == prefix * 10 + (bytes@[q as int] - '0' as u8),
                        prefix > u64::MAX,
                        bytes@[q as int] >= '0' as u8,
                ;
            }
        }
        q += 1;
    }
    (q, over)
}

/// Runs the guard on a text: true exactly when `header_decimals_fit` holds
/// of its bytes.
#[verifier::loop_isolation(false)]
pub fn check_header_decimals(source: &str) -> (ok: bool)
    ensures
        ok == header_decimals_fit(source.spec_bytes()),
{
    let bytes: &[u8] = source.as_bytes();
    let n = bytes.len();
    let element_pat: [u8; 7] = ['e' as u8, 'l' as u8, 'e' as u8, 'm' as u8, 'e' as u8, 'n' as u8, 't' as u8];
    let format_pat: [u8; 6] = ['f' as u8, 'o' as u8, 'r' as u8, 'm' as u8, 'a' as u8, 't' as u8];
    let end_pat: [u8; 10] = [
        'e' as u8,
        'n' as u8,
        'd' as u8,
        '_' as u8,
        'h' as u8,
        'e' as u8,
        'a' as u8,
        'd' as u8,
        'e' as u8,
        'r' as u8,
    ];
    proof {
        assert(element_pat@ =~= element_keyword());
        assert(format_pat@ =~= format_keyword());
        assert(end_pat@ =~= end_header_keyword());
    }
    let ghost b: Seq<u8> = bytes@;
    let mut i: usize = 0;
    while i < n
        invariant
            i <= n,
            n == bytes@.len(),
            b == bytes@,
            b == source.spec_bytes(),
            element_pat@ == element_keyword(),
            format_pat@ == format_keyword(),
            end_pat@ == end_header_keyword(),
            header_scan_from(b, 0) == header_scan_from(b, i as int),
        decreases n - i,
    {
        if prefix_at(bytes, i, &end_pat) {
            return true;
        }
        let guarded = prefix_at(bytes, i, &element_pat) || prefix_at(bytes, i, &format_pat);
        let ghost j = line_end(b, i as int);
        proof {
            lemma_line_end_bounds(b, i as int);
        }
        let mut k: usize = i;
        if guarded {
            while k < n && bytes[k] != '\n' as u8
                invariant
                    i <= k <= n,
                    n == bytes@.len(),
                    b == bytes@,
                    i as int <= j <= n,
                    j == line_end(b, i as int),
                    line_end(b, k as int) == j,
                    k as int <= j,
                    runs_fit_from(b, i as int, j, false) == runs_fit_from(
                        b,
                        k as int,
                        j,
                        k > i && is_digit_byte(b[k - 1]),
                    ),
                decreases n - k,
            {
                let c = bytes[k];
                if c >= '0' as u8 && c <= '9' as u8 {
                    let run_starts = k == i || !(bytes[k - 1] >= '0' as u8 && bytes[k - 1]
                        <= '9' as u8);
                    if run_starts {
                        let (q, over) = scan_run(bytes, k);
                        proof {
                            assert(forall|m: int|
                                k <= m < q ==> #[trigger] b[m] != newline_byte());
                            lemma_line_end_skip(b, k as int, q as int);
                            lemma_line_end_bounds(b, q as int);
                            lemma_run_end_chars(b, k as int, q as int, j);
                        }
                        if over {
                            proof {
                                assert(!runs_fit_from(b, k as int, j, false));
                                assert(!line_digits_fit(b, i as int, j));
                                assert(!header_scan_from(b, i as int));
                            }
                            return false;
                        }
                        proof {
                            lemma_runs_fit_skip_run(b, k as int, q as int, j);
                        }
                        k = q;
                    } else {
                        proof {
                            lemma_line_end_bounds(b, k as int + 1);
                        }
                        k = k + 1;
                    }
                } else {
                    proof {
                        lemma_line_end_bounds(b, k as int + 1);
                    }
                    k = k + 1;
                }
            }
            proof {
                assert(j == k as int);
                assert(line_digits_fit(b, i as int, j));
            }
        } else {
            while k < n && bytes[k] != '\n' as u8
                invariant
                    i <= k <= n,
                    n == bytes@.len(),
                    b == bytes@,
                    j == line_end(b, i as int),
                    line_end(b, k as int) == j,
                decreases n - k,
            {
                k = k + 1;
            }
            proof {
                assert(j == k as int);
            }
        }
        if k >= n {
            proof {
                assert(header_scan_from(b, i as int));
            }
            return true;
        }
        i = k + 1;
    }
    true
}

} // verus!
