//! Reading whole numbers typed into the editor's fields.
use vstd::prelude::*;
use crate::text::digits;
use crate::text::digit_char;
use crate::text::lemma_div_smaller;

verus! {

/// Whether `c` is an ASCII decimal digit.
pub open spec fn is_digit(c: char) -> bool {
    '0' <= c <= '9'
}

/// The value of a digit character.
pub open spec fn digit_value(c: char) -> int {
    (c as int) - ('0' as int)
}

/// The value of a string of decimal digits (0 for the empty string).
pub open spec fn digits_value(ds: Seq<char>) -> int
    decreases ds.len(),
{
    if ds.len() == 0 {
        0
    } else {
        digits_value(ds.drop_last()) * 10 + digit_value(ds.last())
    }
}

/// Whether a number text starts with a minus sign.
pub open spec fn is_negative_text(s: Seq<char>) -> bool {
    s.len() > 0 && s[0] == '-'
}

/// The digits of a number text: what follows its sign (`-` or `+`), if any.
pub open spec fn number_digits(s: Seq<char>) -> Seq<char> {
    if s.len() > 0 && (s[0] == '-' || s[0] == '+') {
        s.drop_first()
    } else {
        s
    }
}

/// Whether every character of `ds` is a digit.
pub open spec fn all_digits(ds: Seq<char>) -> bool {
    forall|i: int| 0 <= i < ds.len() ==> is_digit(#[trigger] ds[i])
}

/// What reading `s` as an `i32` gives (as `str::parse::<i32>` does): an optional sign
/// followed by at least one digit and nothing else, whose value fits in an `i32`.
pub open spec fn spec_parse_i32(s: Seq<char>) -> Option<i32> {
    let ds = number_digits(s);
    let v = if is_negative_text(s) { -digits_value(ds) } else { digits_value(ds) };
    if ds.len() == 0 || !all_digits(ds) {
        None
    } else if i32::MIN <= v <= i32::MAX {
        Some(v as i32)
    } else {
        None
    }
}

proof fn lemma_digits_nonneg(ds: Seq<char>)
    requires
        forall|i: int| 0 <= i < ds.len() ==> is_digit(#[trigger] ds[i]),
    ensures
        digits_value(ds) >= 0,
    decreases ds.len(),
{
    if ds.len() > 0 {
        let d = ds.drop_last();
        assert forall|i: int| 0 <= i < d.len() implies is_digit(#[trigger] d[i]) by {
            assert(d[i] == ds[i]);
        }
        lemma_digits_nonneg(d);
        assert(is_digit(ds[ds.len() - 1]));
    }
}

/// Appending digits never makes the value smaller.
proof fn lemma_digits_grow(ds: Seq<char>, k: int)
    requires
        0 <= k <= ds.len(),
        forall|i: int| 0 <= i < ds.len() ==> is_digit(#[trigger] ds[i]),
    ensures
        digits_value(ds.take(k)) <= digits_value(ds),
    decreases ds.len() - k,
{
    if k < ds.len() {
        lemma_digits_grow(ds, k + 1);
        let t = ds.take(k + 1);
        assert(t.drop_last() =~= ds.take(k));
        assert(forall|i: int| 0 <= i < ds.take(k).len() ==> is_digit(#[trigger] ds.take(k)[i])) by {
            assert forall|i: int| 0 <= i < ds.take(k).len() implies is_digit(#[trigger] ds.take(k)[i]) by {
                assert(ds.take(k)[i] == ds[i]);
            }
        }
        lemma_digits_nonneg(ds.take(k));
        assert(is_digit(ds[k]));
        assert(t.last() == ds[k]);
    } else {
        assert(ds.take(k) =~= ds);
    }
}

/// Reads `s` as an `i32` (see `spec_parse_i32`).
pub fn parse_i32(s: &str) -> (r: Option<i32>)
    ensures
        r == spec_parse_i32(s@),
{
    let n = s.unicode_len();
    let mut start: usize = 0;
    let mut neg = false;
    if n > 0 {
        let c0 = s.get_char(0);
        if c0 == '-' {
            neg = true;
            start = 1;
        } else if c0 == '+' {
            start = 1;
        }
    }
    let ghost ds = number_digits(s@);
    assert(ds =~= s@.skip(start as int));
    if start >= n {
        return None;
    }
    let mut acc: i64 = 0;
    let mut i: usize = start;
    while i < n
        invariant
            start <= i <= n,
            n == s@.len(),
            ds == s@.skip(start as int),
            ds == number_digits(s@),
            0 <= acc <= 0x8000_0000,
            forall|j: int| 0 <= j < i - start ==> is_digit(#[trigger] ds[j]),
            acc == digits_value(ds.take(i - start)),
        decreases n - i,
    {
        let c = s.get_char(i);
        assert(c == ds[i - start]);
        if !('0' <= c && c <= '9') {
            assert(!is_digit(ds[i - start]));
            assert(!all_digits(ds));
            return None;
        }
        assert(ds.take(i - start + 1).drop_last() =~= ds.take(i - start));
        assert(ds.take(i - start + 1).last() == c);
        let d = (c as u32 - '0' as u32) as i64;
        assert(d == digit_value(c));
        acc = acc * 10 + d;
        assert(acc == digits_value(ds.take(i - start + 1)));
        if acc > 0x8000_0000 {
            proof {
                if forall|j: int| 0 <= j < ds.len() ==> is_digit(#[trigger] ds[j]) {
                    lemma_digits_grow(ds, i - start + 1);
                }
            }
            return None;
        }
        i = i + 1;
    }
    assert(ds.take(n - start) =~= ds);
    if neg {
        Some((-acc) as i32)
    } else if acc <= 0x7FFF_FFFF {
        Some(acc as i32)
    } else {
        None
    }
}

proof fn lemma_digit_char_value(k: nat)
    requires
        k < 10,
    ensures
        digit_value(digit_char(k)) == k,
        is_digit(digit_char(k)),
{
    assert('0' as int == 48);
    assert('9' as int == 57);
    if k == 0 {
    } else if k == 1 {
        assert('1' as int == 49);
    } else if k == 2 {
        assert('2' as int == 50);
    } else if k == 3 {
        assert('3' as int == 51);
    } else if k == 4 {
        assert('4' as int == 52);
    } else if k == 5 {
        assert('5' as int == 53);
    } else if k == 6 {
        assert('6' as int == 54);
    } else if k == 7 {
        assert('7' as int == 55);
    } else if k == 8 {
        assert('8' as int == 56);
    }
}

proof fn lemma_digits_read_back(n: nat)
    ensures
        all_digits(digits(n, 10)),
        digits_value(digits(n, 10)) == n,
        digits(n, 10).len() >= 1,
        digits(n, 10)[0] != '-' && digits(n, 10)[0] != '+',
    decreases n,
{
    if n >= 10 {
        lemma_div_smaller(n, 10);
        lemma_digits_read_back(n / 10);
        let d = digits(n, 10);
        let p = digits(n / 10, 10);
        assert(d == p.push(digit_char(n % 10)));
        assert(d.drop_last() =~= p);
        assert forall|i: int| 0 <= i < d.len() implies is_digit(#[trigger] d[i]) by {
            if i < p.len() {
                assert(d[i] == p[i]);
            }
        }
        assert(n == (n / 10) * 10 + n % 10) by (nonlinear_arith);
        assert(d[0] == p[0]);
        lemma_digit_char_value(n % 10);
        assert(d.last() == digit_char(n % 10));
        assert(digits_value(d) == digits_value(d.drop_last()) * 10 + digit_value(d.last()));
        assert(digits_value(d) == digits_value(p) * 10 + (n % 10) as int);
    } else {
        assert(digits(n, 10) == seq![digit_char(n)]);
        lemma_digit_char_value(n);
        let d = digits(n, 10);
        assert(d.drop_last() =~= Seq::<char>::empty());
        assert(d.last() == digit_char(n));
        assert(digits_value(d) == digits_value(d.drop_last()) * 10 + digit_value(d.last()));
        assert(digits_value(Seq::<char>::empty()) == 0);
    }
}

/// Reading back a number written in decimal gives the number (for every `i32` value
/// from 0 up).
pub proof fn lemma_parse_reads_decimal(n: nat)
    requires
        n <= i32::MAX,
    ensures
        spec_parse_i32(digits(n, 10)) == Some(n as i32),
{
    lemma_digits_read_back(n);
    let s = digits(n, 10);
    assert(number_digits(s) == s);
    assert(!is_negative_text(s));
}

} // verus!
