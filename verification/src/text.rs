//! Fixed-point numbers as decimal text.
//!
//! The accepted shape is `[-] digits [. d [d [d]]]`: one to twelve integer
//! digits and, after an optional point, one to three fractional digits.
//! The value is in milli-units, so `0.2` reads as 200 and `-12.5` as
//! -12500. Formatting writes the same shape back, with three fractional
//! digits whenever the fractional part is not zero.

use vstd::prelude::*;

verus! {

pub open spec fn is_digit(b: u8) -> bool {
    48 <= b <= 57
}

pub open spec fn all_digits(s: Seq<u8>) -> bool {
    forall|i: int| 0 <= i < s.len() ==> is_digit(#[trigger] s[i])
}

/// The number a digit string denotes, most significant digit first.
pub open spec fn digits_val(s: Seq<u8>) -> int
    decreases s.len(),
{
    if s.len() == 0 {
        0
    } else {
        digits_val(s.drop_last()) * 10 + (s.last() - 48)
    }
}

/// Ten to the `n`.
pub open spec fn pow10(n: int) -> int
    decreases n,
{
    if n <= 0 {
        1
    } else {
        10 * pow10(n - 1)
    }
}

/// Where the run of digits beginning at `i` ends: the first index at or
/// after `i` holding no digit, or the string's end.
pub open spec fn digit_run_end(s: Seq<u8>, i: int) -> int
    decreases s.len() - i,
{
    if 0 <= i < s.len() && is_digit(s[i]) {
        digit_run_end(s, i + 1)
    } else {
        i
    }
}

/// The first index at or after `i` holding byte `b`, or the string's end.
pub open spec fn find_from(s: Seq<u8>, i: int, b: u8) -> int
    decreases s.len() - i,
{
    if 0 <= i < s.len() {
        if s[i] == b {
            i
        } else {
            find_from(s, i + 1, b)
        }
    } else {
        i
    }
}

/// A digit string's value grows with its length: `n` digits stay under
/// `10^n`.
pub proof fn lemma_digits_val_bounds(s: Seq<u8>)
    requires
        all_digits(s),
    ensures
        0 <= digits_val(s) < pow10(s.len() as int),
    decreases s.len(),
{
    if s.len() > 0 {
        lemma_digits_val_bounds(s.drop_last());
        let v = digits_val(s.drop_last());
        let p = pow10(s.len() - 1);
        assert(is_digit(s[s.len() - 1]));
        assert(v * 10 + (s.last() - 48) < 10 * p) by (nonlinear_arith)
            requires
                v < p,
                s.last() - 48 <= 9,
        ;
        assert(v * 10 + (s.last() - 48) >= 0) by (nonlinear_arith)
            requires
                v >= 0,
                s.last() - 48 >= 0,
        ;
    }
}

pub proof fn lemma_digit_run_end_bounds(s: Seq<u8>, i: int)
    requires
        0 <= i <= s.len(),
    ensures
        i <= digit_run_end(s, i) <= s.len(),
        forall|j: int| i <= j < digit_run_end(s, i) ==> is_digit(#[trigger] s[j]),
        digit_run_end(s, i) < s.len() ==> !is_digit(s[digit_run_end(s, i)]),
    decreases s.len() - i,
{
    if i < s.len() && is_digit(s[i]) {
        lemma_digit_run_end_bounds(s, i + 1);
    }
}

/// Whether the byte string is a well-shaped unsigned fixed-point number.
pub open spec fn valid_unsigned(t: Seq<u8>) -> bool {
    let k = digit_run_end(t, 0);
    &&& 1 <= k <= 12
    &&& (k == t.len() || (t[k] == 46 && k + 2 <= t.len() <= k + 4 && all_digits(
        t.subrange(k + 1, t.len() as int),
    )))
}

/// The milli-unit value of a well-shaped unsigned number.
pub open spec fn unsigned_val(t: Seq<u8>) -> int {
    let k = digit_run_end(t, 0);
    if k == t.len() {
        digits_val(t) * 1000
    } else {
        let frac = t.subrange(k + 1, t.len() as int);
        digits_val(t.subrange(0, k)) * 1000 + digits_val(frac) * pow10(3 - frac.len())
    }
}

/// What `parse_fixed` returns on a byte string: the milli-unit value of a
/// well-shaped, optionally negated, fixed-point number, and nothing else.
pub open spec fn parse_fixed_spec(s: Seq<u8>) -> Option<i64> {
    if s.len() >= 1 && s[0] == 45 {
        let t = s.subrange(1, s.len() as int);
        if valid_unsigned(t) {
            Some((-unsigned_val(t)) as i64)
        } else {
            None
        }
    } else {
        if valid_unsigned(s) {
            Some(unsigned_val(s) as i64)
        } else {
            None
        }
    }
}

/// Scan the run of digits beginning at `from`, returning its end and, for
/// runs of at most twelve digits, the run's value.
pub fn scan_digits(s: &[u8], from: usize) -> (r: (usize, i64))
    requires
        from <= s@.len(),
    ensures
        r.0 == digit_run_end(s@, from as int),
        from <= r.0 <= s@.len(),
        r.0 - from <= 12 ==> r.1 == digits_val(s@.subrange(from as int, r.0 as int)) && 0 <= r.1
            < pow10(r.0 - from),
{
    let end = s.len();
    let mut i = from;
    let mut acc: i64 = 0;
    let mut over = false;
    while i < end && s[i] >= 48 && s[i] <= 57
        invariant
            from <= i <= end == s@.len(),
            digit_run_end(s@, from as int) == digit_run_end(s@, i as int),
            !over ==> i - from <= 12 && acc == digits_val(s@.subrange(from as int, i as int))
                && 0 <= acc < pow10(i - from),
            over ==> i - from > 12,
        decreases end - i,
    {
        proof {
            assert(s@.subrange(from as int, i + 1).drop_last() =~= s@.subrange(
                from as int,
                i as int,
            ));
            assert(pow10(i + 1 - from) == 10 * pow10(i - from));
            if i - from <= 12 {
                lemma_pow10_le(i - from, 12);
                reveal_with_fuel(pow10, 13);
                assert(pow10(12) == 1000000000000);
            }
        }
        if i - from >= 12 {
            over = true;
        }
        if !over {
            acc = acc * 10 + (s[i] - 48) as i64;
        }
        i = i + 1;
    }
    proof {
        assert(digit_run_end(s@, i as int) == i);
        lemma_pow10_le(0, i - from);
    }
    (i, acc)
}

/// Ten to the `n` grows with `n`.
pub proof fn lemma_pow10_le(n: int, m: int)
    requires
        n <= m,
    ensures
        pow10(n) <= pow10(m),
        pow10(n) >= 1,
    decreases m,
{
    if m > 0 {
        if n == m {
            lemma_pow10_le(n - 1, m - 1);
        } else {
            lemma_pow10_le(n, m - 1);
        }
    }
}

/// Parse a fixed-point decimal; malformed or oversized text gives `None`.
pub fn parse_fixed(s: &[u8]) -> (r: Option<i64>)
    ensures
        r == parse_fixed_spec(s@),
        r matches Some(v) ==> -1000000000000000 < v < 1000000000000000,
{
    if s.len() >= 1 && s[0] == 45 {
        let t = vstd::slice::slice_subrange(s, 1, s.len());
        match parse_unsigned(t) {
            Some(v) => Some(-v),
            None => None,
        }
    } else {
        parse_unsigned(s)
    }
}

/// Parse a fixed-point decimal without sign.
fn parse_unsigned(s: &[u8]) -> (r: Option<i64>)
    ensures
        valid_unsigned(s@) ==> r == Some(unsigned_val(s@) as i64) && 0 <= unsigned_val(s@)
            < 1000000000000000,
        !valid_unsigned(s@) ==> r is None,
        r matches Some(v) ==> 0 <= v < 1000000000000000,
{
    proof {
        reveal_with_fuel(pow10, 13);
        assert(pow10(12) == 1000000000000);
        assert(pow10(3) == 1000);
        assert(pow10(2) == 100);
        assert(pow10(1) == 10);
    }
    let (k, int_part) = scan_digits(s, 0);
    if k < 1 || k > 12 {
        return None;
    }
    proof {
        lemma_digit_run_end_bounds(s@, 0);
        lemma_pow10_le(k as int, 12);
    }
    if k == s.len() {
        proof {
            assert(s@.subrange(0, s@.len() as int) =~= s@);
        }
        return Some(int_part * 1000);
    }
    if s[k] != 46 {
        return None;
    }
    let flen = s.len() - k - 1;
    if flen < 1 || flen > 3 {
        return None;
    }
    let (fend, frac) = scan_digits(s, k + 1);
    proof {
        lemma_digit_run_end_bounds(s@, k + 1);
    }
    if fend != s.len() {
        proof {
            if valid_unsigned(s@) {
                assert(is_digit(s@.subrange(k + 1, s@.len() as int)[fend - (k + 1)]));
                assert(false);
            }
        }
        return None;
    }
    proof {
        assert(all_digits(s@.subrange(k + 1, s@.len() as int))) by {
            assert(forall|j: int|
                k + 1 <= j < s@.len() ==> is_digit(#[trigger] s@[j]));
        }
        lemma_pow10_le(flen as int, 3);
    }
    let scale: i64 = if flen == 1 {
        100
    } else if flen == 2 {
        10
    } else {
        1
    };
    Some(int_part * 1000 + frac * scale)
}

/// Find the first occurrence of `b` at or after `from`; the string's
/// length when there is none.
pub fn find_byte(s: &[u8], from: usize, b: u8) -> (r: usize)
    requires
        from <= s@.len(),
    ensures
        r == find_from(s@, from as int, b),
        from <= r <= s@.len(),
{
    let end = s.len();
    let mut i = from;
    while i < end && s[i] != b
        invariant
            from <= i <= end == s@.len(),
            find_from(s@, from as int, b) == find_from(s@, i as int, b),
        decreases end - i,
    {
        i = i + 1;
    }
    i
}

/// The decimal digits of a non-negative number, most significant first.
pub open spec fn dec_digits(n: int) -> Seq<u8>
    decreases n,
{
    if n < 10 {
        seq![(48 + n) as u8]
    } else {
        dec_digits(n / 10).push((48 + n % 10) as u8)
    }
}

/// The text `format_fixed` writes for a milli-unit value: sign, integer
/// part, and three fractional digits when the fraction is not zero.
pub open spec fn format_fixed_spec(v: int) -> Seq<u8> {
    let a = if v < 0 {
        -v
    } else {
        v
    };
    let sign: Seq<u8> = if v < 0 {
        seq![45u8]
    } else {
        Seq::empty()
    };
    let f = a % 1000;
    if f == 0 {
        sign + dec_digits(a / 1000)
    } else {
        sign + dec_digits(a / 1000) + seq![46u8, (48 + f / 100) as u8, (48 + (f / 10) % 10) as u8, (
            48 + f % 10) as u8]
    }
}

/// Append the decimal digits of `n`.
fn push_digits(n: u64, out: &mut Vec<u8>)
    ensures
        final(out)@ == old(out)@ + dec_digits(n as int),
    decreases n,
{
    if n < 10 {
        out.push(48 + n as u8);
        proof {
            assert(final(out)@ =~= old(out)@ + dec_digits(n as int));
        }
    } else {
        proof {
            vstd::arithmetic::div_mod::lemma_div_decreases(n as int, 10);
            vstd::arithmetic::div_mod::lemma_div_pos_is_pos(n as int, 10);
            vstd::arithmetic::div_mod::lemma_mod_bound(n as int, 10);
        }
        push_digits(n / 10, out);
        out.push(48 + (n % 10) as u8);
        proof {
            assert(final(out)@ =~= old(out)@ + dec_digits(n as int));
        }
    }
}

/// Write a milli-unit value as decimal text.
pub fn format_fixed(v: i64) -> (r: Vec<u8>)
    requires
        -1000000000000000 < v < 1000000000000000,
    ensures
        r@ == format_fixed_spec(v as int),
{
    let mut out: Vec<u8> = Vec::new();
    let a: u64 = if v < 0 {
        out.push(45);
        (-v) as u64
    } else {
        v as u64
    };
    let f = a % 1000;
    push_digits(a / 1000, &mut out);
    if f != 0 {
        out.push(46);
        out.push(48 + (f / 100) as u8);
        out.push(48 + ((f / 10) % 10) as u8);
        out.push(48 + (f % 10) as u8);
    }
    proof {
        assert(out@ =~= format_fixed_spec(v as int));
    }
    out
}

} // verus!
