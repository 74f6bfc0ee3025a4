//! Character-level helpers: string equality and base-10 parsing of
//! signed 64-bit integers, matching the standard library's accepted
//! grammar (an optional sign followed by one or more ASCII digits).

use vstd::prelude::*;

verus! {

/// Whether `c` is an ASCII decimal digit.
pub open spec fn is_dec_digit(c: char) -> bool {
    '0' <= c && c <= '9'
}

/// Numeric value of a decimal digit.
pub open spec fn digit_val(c: char) -> int {
    c as int - '0' as int
}

/// Whether every character of `s` is a decimal digit.
pub open spec fn all_digits(s: Seq<char>) -> bool {
    forall|i: int| 0 <= i < s.len() ==> is_dec_digit(s[i])
}

/// Value of a digit string read in base 10.
pub open spec fn digits_val(s: Seq<char>) -> int
    decreases s.len(),
{
    if s.len() == 0 {
        0
    } else {
        digits_val(s.drop_last()) * 10 + digit_val(s.last())
    }
}

/// The digits of `s` (everything after an optional leading sign).
pub open spec fn sign_stripped(s: Seq<char>) -> Seq<char> {
    if s.len() > 0 && (s[0] == '-' || s[0] == '+') {
        s.drop_first()
    } else {
        s
    }
}

/// Whether `s` denotes a negative number.
pub open spec fn is_negative_literal(s: Seq<char>) -> bool {
    s.len() > 0 && s[0] == '-'
}

/// The signed mathematical value denoted by `s`, meaningful only when
/// the shape is valid.
pub open spec fn literal_val(s: Seq<char>) -> int {
    if is_negative_literal(s) {
        -digits_val(sign_stripped(s))
    } else {
        digits_val(sign_stripped(s))
    }
}

/// Whether `s` has the shape of an integer literal: an optional sign
/// followed by at least one decimal digit and nothing else.
pub open spec fn is_int_literal(s: Seq<char>) -> bool {
    sign_stripped(s).len() > 0 && all_digits(sign_stripped(s))
}

/// What base-10 parsing of `s` as an `i64` yields: the denoted value
/// when the shape is valid and the value fits, and nothing otherwise.
pub open spec fn spec_parse_i64(s: Seq<char>) -> Option<i64> {
    if is_int_literal(s) && i64::MIN <= literal_val(s) <= i64::MAX {
        Some(literal_val(s) as i64)
    } else {
        None
    }
}

/// A digit string never denotes a negative value.
pub proof fn lemma_digits_val_nonneg(s: Seq<char>)
    requires
        all_digits(s),
    ensures
        digits_val(s) >= 0,
    decreases s.len(),
{
    if s.len() > 0 {
        assert(all_digits(s.drop_last()));
        lemma_digits_val_nonneg(s.drop_last());
    }
}

/// Appending one digit multiplies the value by ten and adds the digit.
pub proof fn lemma_digits_val_step(s: Seq<char>, i: int)
    requires
        0 <= i < s.len(),
    ensures
        digits_val(s.take(i + 1)) == digits_val(s.take(i)) * 10 + digit_val(s[i]),
{
    assert(s.take(i + 1).drop_last() =~= s.take(i));
    assert(s.take(i + 1).last() == s[i]);
}

/// Whether `c` is an ASCII decimal digit.
pub fn is_digit_char(c: char) -> (r: bool)
    ensures
        r == is_dec_digit(c),
{
    '0' <= c && c <= '9'
}

/// The characters of `s`, collected in order.
pub fn chars_of(s: &str) -> (v: Vec<char>)
    ensures
        v@ == s@,
{
    broadcast use vstd::string::group_string_axioms;

    let mut v: Vec<char> = Vec::new();
    for c in it: s.chars()
        invariant
            v@ == it.seq().take(it.index() as int),
            it.seq() == s@,
    {
        v.push(c);
    }
    assert(v@ =~= s@);
    v
}

/// Whether two string slices hold the same characters.
pub fn str_eq(a: &str, b: &str) -> (r: bool)
    ensures
        r == (a@ == b@),
{
    let sa: String = a.to_owned();
    let sb: String = b.to_owned();
    sa == sb
}

/// Parses `cs` as a base-10 signed 64-bit integer: an optional `+` or
/// `-` sign followed by one or more decimal digits, rejected when any
/// other character occurs or the value does not fit.
pub fn parse_i64_chars(cs: &Vec<char>) -> (r: Option<i64>)
    ensures
        r == spec_parse_i64(cs@),
{
    let n = cs.len();
    let ghost s = cs@;
    let mut start: usize = 0;
    let mut negative: bool = false;
    if n > 0 && cs[0] == '-' {
        start = 1;
        negative = true;
    } else if n > 0 && cs[0] == '+' {
        start = 1;
    }
    let ghost ds = sign_stripped(s);
    proof {
        assert(ds =~= s.subrange(start as int, n as int));
        assert(negative == is_negative_literal(s));
    }
    if start == n {
        // No digits at all.
        return None;
    }
    // Cap the accumulator one power of two above the representable
    // range: once past the cap the exact value no longer matters.
    let cap: u128 = 0x1_0000_0000_0000_0000;
    let mut acc: u128 = 0;
    let mut i: usize = start;
    while i < n
        invariant
            start <= i <= n,
            n == s.len(),
            s == cs@,
            ds == sign_stripped(s),
            ds =~= s.subrange(start as int, n as int),
            start <= 1,
            cap == 0x1_0000_0000_0000_0000,
            all_digits(ds.take(i - start)),
            digits_val(ds.take(i - start)) < cap ==> acc == digits_val(ds.take(i - start)),
            digits_val(ds.take(i - start)) >= cap ==> acc >= cap,
            acc <= 0xffff_ffff_ffff_ffff * 10 + 9,
        decreases n - i,
    {
        let c = cs[i];
        if !is_digit_char(c) {
            proof {
                assert(ds[i - start] == s[i as int]);
                assert(!all_digits(ds));
            }
            return None;
        }
        let d: u128 = (c as u32 - '0' as u32) as u128;
        let ghost prefix = ds.take(i - start);
        let ghost next_prefix = ds.take(i + 1 - start);
        proof {
            lemma_digits_val_step(ds, i - start);
            lemma_digits_val_nonneg(prefix);
            if digits_val(prefix) >= cap {
                assert(digits_val(next_prefix) == digits_val(prefix) * 10 + digit_val(ds[i - start]));
                assert(digits_val(prefix) * 10 >= digits_val(prefix) * 1) by (nonlinear_arith)
                    requires digits_val(prefix) >= 0;
            }
        }
        if acc < cap {
            acc = acc * 10 + d;
        }
        i = i + 1;
        proof {
            assert(ds[i - 1 - start] == s[i - 1]);
            assert(all_digits(next_prefix));
        }
    }
    proof {
        assert(ds.take(n - start) =~= ds);
        lemma_digits_val_nonneg(ds);
        assert(is_int_literal(s));
    }
    if negative {
        // The most negative representable value is one past the
        // magnitude of the most positive one.
        if acc > 0x8000_0000_0000_0000u128 {
            return None;
        }
        if acc == 0x8000_0000_0000_0000u128 {
            return Some(i64::MIN);
        }
        Some(-(acc as i64))
    } else {
        if acc > i64::MAX as u128 {
            return None;
        }
        Some(acc as i64)
    }
}

/// Parses a string slice as a base-10 signed 64-bit integer.
pub fn parse_i64_str(t: &str) -> (r: Option<i64>)
    ensures
        r == spec_parse_i64(t@),
{
    let cs = chars_of(t);
    parse_i64_chars(&cs)
}

} // verus!
