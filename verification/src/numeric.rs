//! Fixed-point numeric text: parsing decimal strings (as the exchange sends
//! prices and balances) into integer cents.
//!
//! The accepted grammar is `digits` or `digits '.' digits*` with at most 16
//! integer digits; fractional digits beyond the second are truncated.

use vstd::prelude::*;
use vstd::string::StringSliceAdditionalSpecFns;

verus! {

pub open spec fn is_dec_digit(b: u8) -> bool {
    48 <= b <= 57
}

pub open spec fn all_dec_digits(s: Seq<u8>) -> bool {
    forall|i: int| 0 <= i < s.len() ==> is_dec_digit(#[trigger] s[i])
}

/// Value of a string of decimal digits, most significant first.
pub open spec fn digits_val(s: Seq<u8>) -> nat
    decreases s.len(),
{
    if s.len() == 0 {
        0
    } else {
        digits_val(s.drop_last()) * 10 + (s.last() - 48) as nat
    }
}

pub open spec fn pow10(n: nat) -> nat
    decreases n,
{
    if n == 0 {
        1
    } else {
        10 * pow10((n - 1) as nat)
    }
}

/// Cents contributed by the fractional digits: the first weighs ten cents,
/// the second one cent, the rest nothing.
pub open spec fn frac_cents(s: Seq<u8>) -> nat {
    (if s.len() >= 1 { 10 * (s[0] - 48) } else { 0 }) as nat
        + (if s.len() >= 2 { (s[1] - 48) as nat } else { 0 })
}

/// `i` marks the one decimal point: digits before it (at least one, at most
/// 16), digits after it (possibly none).
pub open spec fn valid_split(s: Seq<u8>, i: int) -> bool {
    &&& 0 < i < s.len()
    &&& i <= 16
    &&& s[i] == 46u8
    &&& all_dec_digits(s.subrange(0, i))
    &&& all_dec_digits(s.subrange(i + 1, s.len() as int))
}

pub open spec fn split_cents(s: Seq<u8>, i: int) -> nat {
    digits_val(s.subrange(0, i)) * 100 + frac_cents(s.subrange(i + 1, s.len() as int))
}

/// The meaning of a decimal byte string, in cents; `None` when the string
/// is not of the accepted grammar.
pub open spec fn dec_cents(s: Seq<u8>) -> Option<nat> {
    if 0 < s.len() <= 16 && all_dec_digits(s) {
        Some(digits_val(s) * 100)
    } else if exists|i: int| valid_split(s, i) {
        Some(split_cents(s, choose|i: int| valid_split(s, i)))
    } else {
        None
    }
}

pub proof fn lemma_digits_val_bound(s: Seq<u8>)
    requires
        all_dec_digits(s),
    ensures
        digits_val(s) < pow10(s.len()),
    decreases s.len(),
{
    if s.len() > 0 {
        assert(forall|i: int|
            0 <= i < s.len() - 1 ==> #[trigger] s.drop_last()[i] == s[i]);
        lemma_digits_val_bound(s.drop_last());
    }
}

pub proof fn lemma_pow10_mono(a: nat, b: nat)
    requires
        a <= b,
    ensures
        pow10(a) <= pow10(b),
    decreases b,
{
    if a < b {
        lemma_pow10_mono(a, (b - 1) as nat);
    }
}

/// A byte string has at most one well-formed decimal point.
pub proof fn lemma_split_unique(s: Seq<u8>, i: int, j: int)
    requires
        valid_split(s, i),
        valid_split(s, j),
    ensures
        i == j,
{
    if i < j {
        assert(is_dec_digit(s.subrange(0, j)[i]));
        assert(false);
    } else if j < i {
        assert(is_dec_digit(s.subrange(0, i)[j]));
        assert(false);
    }
}

/// If a well-formed split exists and the first decimal point sits at
/// `dot`, the split is exactly at `dot`.
proof fn lemma_first_dot_is_split(s: Seq<u8>, k: int, dot: int)
    requires
        valid_split(s, k),
        0 <= dot < s.len(),
        s[dot] == 46u8,
        forall|m: int| 0 <= m < dot ==> s[m] != 46u8,
    ensures
        k == dot,
{
    if k < dot {
        assert(s[k] == 46u8);
        assert(false);
    } else if dot < k {
        assert(is_dec_digit(s.subrange(0, k)[dot]));
        assert(false);
    }
}

/// A non-digit inside the integer part rules out every reading.
proof fn lemma_reject_nondigit_int(s: Seq<u8>, j: int, int_len: int, dot: int, n: int)
    requires
        n == s.len(),
        0 <= j < int_len <= n,
        !is_dec_digit(s[j]),
        dot < n ==> int_len == dot && s[dot] == 46u8
            && (forall|m: int| 0 <= m < dot ==> s[m] != 46u8),
        dot == n ==> int_len == n && (forall|m: int| 0 <= m < n ==> s[m] != 46u8),
        dot <= n,
    ensures
        dec_cents(s) is None,
{
    assert(!is_dec_digit(s[j]));
    assert(!all_dec_digits(s));
    if exists|i: int| valid_split(s, i) {
        let i = choose|i: int| valid_split(s, i);
        if dot < n {
            lemma_first_dot_is_split(s, i, dot);
            assert(is_dec_digit(s.subrange(0, i)[j]));
        } else {
            assert(s[i] == 46u8);
        }
        assert(false);
    }
}

/// A non-digit after the decimal point rules out every reading.
proof fn lemma_reject_nondigit_frac(s: Seq<u8>, k: int, dot: int, n: int)
    requires
        n == s.len(),
        0 <= dot < k < n,
        s[dot] == 46u8,
        forall|m: int| 0 <= m < dot ==> s[m] != 46u8,
        !is_dec_digit(s[k]),
    ensures
        dec_cents(s) is None,
{
    assert(!is_dec_digit(s[dot]));
    assert(!all_dec_digits(s));
    if exists|i: int| valid_split(s, i) {
        let i = choose|i: int| valid_split(s, i);
        lemma_first_dot_is_split(s, i, dot);
        assert(is_dec_digit(s.subrange(dot + 1, n)[k - dot - 1]));
        assert(false);
    }
}

/// Parses a decimal byte string into cents, truncating past the second
/// fractional digit; rejects anything outside the grammar.
pub fn parse_decimal_cents_bytes(bytes: &[u8]) -> (r: Option<u64>)
    ensures
        match r {
            Some(v) => dec_cents(bytes@) == Some(v as nat),
            None => dec_cents(bytes@) is None,
        },
{
    let n = bytes.len();
    // Find the first decimal point, if any; `dot == n` means none.
    let mut dot: usize = n;
    let mut i: usize = 0;
    while i < n
        invariant
            0 <= i <= n,
            n == bytes@.len(),
            dot <= n,
            dot == n ==> forall|m: int| 0 <= m < i ==> bytes@[m] != 46u8,
            dot < n ==> dot < i && bytes@[dot as int] == 46u8
                && (forall|m: int| 0 <= m < dot ==> bytes@[m] != 46u8),
        decreases n - i,
    {
        if bytes[i] == 46u8 && dot == n {
            dot = i;
        }
        i = i + 1;
    }
    let int_len = if dot < n { dot } else { n };
    if int_len == 0 || int_len > 16 {
        proof {
            if exists|w: int| valid_split(bytes@, w) {
                let w = choose|w: int| valid_split(bytes@, w);
                if dot < n {
                    lemma_first_dot_is_split(bytes@, w, dot as int);
                } else {
                    assert(bytes@[w] == 46u8);
                }
                assert(false);
            }
            if int_len == 0 && n > 0 {
                assert(!is_dec_digit(bytes@[0]));
            }
        }
        return None;
    }
    // The integer part must be all digits; accumulate its value.
    let mut acc: u64 = 0;
    let mut j: usize = 0;
    while j < int_len
        invariant
            0 <= j <= int_len,
            0 < int_len <= 16,
            int_len <= n,
            n == bytes@.len(),
            dot <= n,
            dot < n ==> int_len == dot && bytes@[dot as int] == 46u8
                && (forall|m: int| 0 <= m < dot ==> bytes@[m] != 46u8),
            dot == n ==> int_len == n
                && (forall|m: int| 0 <= m < n ==> bytes@[m] != 46u8),
            all_dec_digits(bytes@.subrange(0, j as int)),
            acc == digits_val(bytes@.subrange(0, j as int)),
            acc < pow10(j as nat),
        decreases int_len - j,
    {
        let b = bytes[j];
        if b < 48u8 || b > 57u8 {
            proof {
                lemma_reject_nondigit_int(
                    bytes@, j as int, int_len as int, dot as int, n as int);
            }
            return None;
        }
        proof {
            reveal_with_fuel(pow10, 17);
            lemma_pow10_mono(j as nat, 15nat);
            assert(bytes@.subrange(0, j + 1).drop_last() =~= bytes@.subrange(0, j as int));
            assert forall|m: int| 0 <= m < j + 1
                implies is_dec_digit(#[trigger] bytes@.subrange(0, j + 1)[m]) by {
                if m < j {
                    assert(is_dec_digit(bytes@.subrange(0, j as int)[m]));
                }
            }
        }
        acc = acc * 10 + ((b - 48u8) as u64);
        j = j + 1;
    }
    proof {
        reveal_with_fuel(pow10, 17);
        lemma_pow10_mono(int_len as nat, 16nat);
    }
    if dot == n {
        // Plain digits, no decimal point.
        proof {
            assert(bytes@.subrange(0, n as int) =~= bytes@);
        }
        return Some(acc * 100);
    }
    // Fractional digits after the point.
    let mut frac: u64 = 0;
    let mut k: usize = dot + 1;
    while k < n
        invariant
            dot < k <= n,
            n == bytes@.len(),
            bytes@[dot as int] == 46u8,
            forall|m: int| 0 <= m < dot ==> bytes@[m] != 46u8,
            all_dec_digits(bytes@.subrange(dot + 1, k as int)),
            frac == frac_cents(bytes@.subrange(dot + 1, k as int)),
            frac <= 99,
        decreases n - k,
    {
        let b = bytes[k];
        if b < 48u8 || b > 57u8 {
            proof {
                lemma_reject_nondigit_frac(bytes@, k as int, dot as int, n as int);
            }
            return None;
        }
        proof {
            let old_f = bytes@.subrange(dot + 1, k as int);
            let new_f = bytes@.subrange(dot + 1, k + 1);
            assert(new_f =~= old_f.push(bytes@[k as int]));
            assert forall|m: int| 0 <= m < new_f.len()
                implies is_dec_digit(#[trigger] new_f[m]) by {
                if m < old_f.len() {
                    assert(is_dec_digit(old_f[m]));
                }
            }
        }
        if k == dot + 1 {
            frac = 10 * ((b - 48u8) as u64);
        } else if k == dot + 2 {
            frac = frac + ((b - 48u8) as u64);
        }
        k = k + 1;
    }
    proof {
        assert(valid_split(bytes@, dot as int));
        let w = choose|i: int| valid_split(bytes@, i);
        lemma_split_unique(bytes@, w, dot as int);
        assert(!is_dec_digit(bytes@[dot as int]));
    }
    Some(acc * 100 + frac)
}

/// Parses a decimal string into cents; the string form of
/// `parse_decimal_cents_bytes`.
pub fn parse_decimal_cents(s: &str) -> (r: Option<u64>)
    ensures
        match r {
            Some(v) => dec_cents(s.spec_bytes()) == Some(v as nat),
            None => dec_cents(s.spec_bytes()) is None,
        },
{
    parse_decimal_cents_bytes(s.as_bytes())
}

} // verus!
