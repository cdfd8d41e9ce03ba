//! Numbers as they are written in text: unsigned decimal integers and
//! decimal literals with a fraction and an exponent.

use crate::text::{copy_range, same_folded, same_ignoring_case};
use vstd::prelude::*;

verus! {

// ---------------------------------------------------------------------------
// Models
// ---------------------------------------------------------------------------
/// Whether `c` is one of the ten ASCII digits.
pub open spec fn is_digit(c: char) -> bool {
    0x30 <= c as u32 <= 0x39
}

/// The value of the digit `c`; 0 for any other character.
pub open spec fn digit_value(c: char) -> nat {
    if is_digit(c) {
        (c as u32 - 0x30) as nat
    } else {
        0
    }
}

/// Whether `s` holds digits only.
pub open spec fn all_digits(s: Seq<char>) -> bool {
    forall|i: int| 0 <= i < s.len() ==> is_digit(#[trigger] s[i])
}

/// The number that the digits of `s` write in base ten.
pub open spec fn decimal_value(s: Seq<char>) -> nat
    decreases s.len(),
{
    if s.len() == 0 {
        0
    } else {
        10 * decimal_value(s.drop_last()) + digit_value(s.last())
    }
}

/// `s` without one plus sign at its start.
pub open spec fn strip_plus(s: Seq<char>) -> Seq<char> {
    if s.len() > 0 && s[0] == '+' {
        s.drop_first()
    } else {
        s
    }
}

/// The unsigned integer that `s` writes: an optional plus sign, then one or
/// more digits and nothing else, with a value of at most `max`. `None` for
/// every other text.
pub open spec fn parse_unsigned(s: Seq<char>, max: nat) -> Option<nat> {
    let d = strip_plus(s);
    if d.len() > 0 && all_digits(d) && decimal_value(d) <= max {
        Some(decimal_value(d))
    } else {
        None
    }
}

/// The number of digits at the start of `s`.
pub open spec fn digit_run(s: Seq<char>) -> nat
    decreases s.len(),
{
    if s.len() > 0 && is_digit(s[0]) {
        1 + digit_run(s.drop_first())
    } else {
        0
    }
}

/// `s` without one plus or minus sign at its start.
pub open spec fn strip_sign(s: Seq<char>) -> Seq<char> {
    if s.len() > 0 && (s[0] == '+' || s[0] == '-') {
        s.drop_first()
    } else {
        s
    }
}

/// Whether `s` is an exponent: the letter `e` in either case, an optional
/// sign, then one or more digits and nothing else.
pub open spec fn is_exponent(s: Seq<char>) -> bool {
    &&& s.len() > 0
    &&& (s[0] == 'e' || s[0] == 'E')
    &&& strip_sign(s.drop_first()).len() > 0
    &&& digit_run(strip_sign(s.drop_first())) == strip_sign(s.drop_first()).len()
}

/// The number of characters that the fraction at the start of `s` takes: a
/// point and the digits after it, or nothing where `s` starts otherwise.
pub open spec fn fraction_run(s: Seq<char>) -> nat {
    if s.len() > 0 && s[0] == '.' {
        1 + digit_run(s.drop_first())
    } else {
        0
    }
}

/// Whether `s` is an unsigned number: digits, optionally a point and more
/// digits, with at least one digit on either side of the point, optionally
/// followed by an exponent.
pub open spec fn is_number(s: Seq<char>) -> bool {
    let whole = digit_run(s) as int;
    let fraction = fraction_run(s.skip(whole)) as int;
    let rest = s.skip(whole + fraction);
    &&& (whole > 0 || fraction > 1)
    &&& (rest.len() == 0 || is_exponent(rest))
}

/// Whether `s` is a decimal literal: an optional sign, then a number, or one
/// of the words `inf`, `infinity` and `nan` in any case of letters.
pub open spec fn is_decimal_literal(s: Seq<char>) -> bool {
    let body = strip_sign(s);
    ||| is_number(body)
    ||| same_ignoring_case(body, "inf"@)
    ||| same_ignoring_case(body, "infinity"@)
    ||| same_ignoring_case(body, "nan"@)
}

/// The character that writes the digit `d`.
pub open spec fn digit_char(d: nat) -> char {
    if d == 0 {
        '0'
    } else if d == 1 {
        '1'
    } else if d == 2 {
        '2'
    } else if d == 3 {
        '3'
    } else if d == 4 {
        '4'
    } else if d == 5 {
        '5'
    } else if d == 6 {
        '6'
    } else if d == 7 {
        '7'
    } else if d == 8 {
        '8'
    } else {
        '9'
    }
}

/// `n` written in base ten, without sign and without leading zeros.
pub open spec fn decimal_digits(n: nat) -> Seq<char>
    decreases n,
{
    if n < 10 {
        seq![digit_char(n)]
    } else {
        decimal_digits(n / 10).push(digit_char(n % 10))
    }
}

// ---------------------------------------------------------------------------
// Facts
// ---------------------------------------------------------------------------
/// A number written with more digits is not smaller.
pub proof fn lemma_value_grows(s: Seq<char>, k: int)
    requires
        0 <= k <= s.len(),
    ensures
        decimal_value(s.take(k)) <= decimal_value(s),
    decreases s.len() - k,
{
    if k == s.len() {
        assert(s.take(k) =~= s);
    } else {
        lemma_value_grows(s.drop_last(), k);
        assert(s.drop_last().take(k) =~= s.take(k));
    }
}

/// Reading back what `decimal_digits` wrote gives the number again.
pub proof fn lemma_digits_round_trip(n: nat, max: nat)
    requires
        n <= max,
    ensures
        parse_unsigned(decimal_digits(n), max) == Some(n),
{
    lemma_digits_value(n);
}

/// `decimal_digits(n)` holds digits only, starts with no sign, and writes `n`.
pub proof fn lemma_digits_value(n: nat)
    ensures
        decimal_digits(n).len() > 0,
        all_digits(decimal_digits(n)),
        decimal_value(decimal_digits(n)) == n,
    decreases n,
{
    let s = decimal_digits(n);
    if n < 10 {
        assert(s.drop_last() =~= Seq::<char>::empty());
        assert(decimal_value(s.drop_last()) == 0);
    } else {
        lemma_digits_value(n / 10);
        assert(s.drop_last() =~= decimal_digits(n / 10));
        assert(s.last() == digit_char(n % 10));
    }
}

// ---------------------------------------------------------------------------
// Executable functions
// ---------------------------------------------------------------------------
/// The unsigned 64-bit integer that `s` writes, if it writes one.
pub fn parse_u64(s: &Vec<char>) -> (r: Option<u64>)
    ensures
        match r {
            Some(n) => parse_unsigned(s@, u64::MAX as nat) == Some(n as nat),
            None => parse_unsigned(s@, u64::MAX as nat) is None,
        },
{
    let n = s.len();
    let start: usize = if n > 0 && s[0] == '+' {
        1
    } else {
        0
    };
    let ghost d = strip_plus(s@);
    assert(d =~= s@.skip(start as int));
    if start == n {
        return None;
    }
    let mut acc: u64 = 0;
    let mut i: usize = start;
    assert(d.take(0) =~= Seq::<char>::empty());
    while i < n
        invariant
            n == s@.len(),
            start <= i <= n,
            d == s@.skip(start as int),
            d == strip_plus(s@),
            all_digits(d.take(i - start)),
            acc == decimal_value(d.take(i - start)),
        decreases n - i,
    {
        let code: u32 = s[i] as u32;
        if code < 0x30 || code > 0x39 {
            assert(d[i - start] == s@[i as int]);
            assert(!is_digit(d[i - start]));
            return None;
        }
        let v: u64 = (code - 0x30) as u64;
        proof {
            assert(d.take(i - start + 1).drop_last() =~= d.take(i - start));
            assert(d.take(i - start + 1).last() == s@[i as int]);
            assert(decimal_value(d.take(i - start + 1)) == 10 * acc + v);
            lemma_value_grows(d, i - start + 1);
            assert forall|j: int| 0 <= j < i - start + 1 implies is_digit(
                #[trigger] d.take(i - start + 1)[j],
            ) by {
                if j < i - start {
                    assert(d.take(i - start + 1)[j] == d.take(i - start)[j]);
                }
            }
        }
        if acc > (u64::MAX - v) / 10 {
            return None;
        }
        acc = acc * 10 + v;
        i += 1;
    }
    assert(d.take(n - start) =~= d);
    Some(acc)
}

/// The unsigned 8-bit integer that `s` writes, if it writes one.
pub fn parse_u8(s: &Vec<char>) -> (r: Option<u8>)
    ensures
        match r {
            Some(n) => parse_unsigned(s@, u8::MAX as nat) == Some(n as nat),
            None => parse_unsigned(s@, u8::MAX as nat) is None,
        },
{
    match parse_u64(s) {
        Some(n) => if n <= 255 {
            Some(n as u8)
        } else {
            None
        },
        None => None,
    }
}

/// The index after the digits that start at `from`.
pub fn skip_digits(s: &Vec<char>, from: usize) -> (i: usize)
    requires
        from <= s@.len(),
    ensures
        from <= i <= s@.len(),
        i == from + digit_run(s@.skip(from as int)),
{
    let mut i: usize = from;
    while i < s.len() && 0x30 <= s[i] as u32 && s[i] as u32 <= 0x39
        invariant
            from <= i <= s@.len(),
            from + digit_run(s@.skip(from as int)) == i + digit_run(s@.skip(i as int)),
        decreases s@.len() - i,
    {
        assert(s@.skip(i as int).drop_first() =~= s@.skip(i + 1));
        i += 1;
    }
    i
}

/// Whether an exponent starts at `from` and ends with `s`.
pub fn exponent_at(s: &Vec<char>, from: usize) -> (r: bool)
    requires
        from < s@.len(),
    ensures
        r == is_exponent(s@.skip(from as int)),
{
    let n = s.len();
    let ghost rest = s@.skip(from as int);
    assert(rest[0] == s@[from as int]);
    assert(rest.drop_first() =~= s@.skip(from + 1));
    if s[from] != 'e' && s[from] != 'E' {
        return false;
    }
    let digits: usize = if from + 1 < n && (s[from + 1] == '+' || s[from + 1] == '-') {
        assert(s@.skip(from + 1).drop_first() =~= s@.skip(from + 2));
        from + 2
    } else {
        from + 1
    };
    assert(strip_sign(rest.drop_first()) == s@.skip(digits as int));
    if digits == n {
        return false;
    }
    let end = skip_digits(s, digits);
    end == n
}

/// Whether `s` is an unsigned number.
pub fn is_number_text(s: &Vec<char>) -> (r: bool)
    ensures
        r == is_number(s@),
{
    let n = s.len();
    assert(s@.skip(0) =~= s@);
    let whole = skip_digits(s, 0);
    let after = if whole < n && s[whole] == '.' {
        assert(s@.skip(whole as int).drop_first() =~= s@.skip(whole + 1));
        skip_digits(s, whole + 1)
    } else {
        whole
    };
    assert(after == whole + fraction_run(s@.skip(whole as int)));
    if whole == 0 && after - whole <= 1 {
        false
    } else if after == n {
        true
    } else {
        exponent_at(s, after)
    }
}

/// Whether `s` is a decimal literal.
pub fn is_decimal(s: &Vec<char>) -> (r: bool)
    ensures
        r == is_decimal_literal(s@),
{
    let start: usize = if s.len() > 0 && (s[0] == '+' || s[0] == '-') {
        1
    } else {
        0
    };
    let body = copy_range(s, start, s.len());
    assert(body@ =~= strip_sign(s@));
    is_number_text(&body) || same_folded(&body, "inf") || same_folded(&body, "infinity")
        || same_folded(&body, "nan")
}

/// The character that writes the digit `d`.
pub fn digit(d: u8) -> (c: char)
    requires
        d < 10,
    ensures
        c == digit_char(d as nat),
{
    if d == 0 {
        '0'
    } else if d == 1 {
        '1'
    } else if d == 2 {
        '2'
    } else if d == 3 {
        '3'
    } else if d == 4 {
        '4'
    } else if d == 5 {
        '5'
    } else if d == 6 {
        '6'
    } else if d == 7 {
        '7'
    } else if d == 8 {
        '8'
    } else {
        '9'
    }
}

/// `n` written in base ten.
pub fn write_u8(n: u8) -> (digits: Vec<char>)
    ensures
        digits@ == decimal_digits(n as nat),
{
    let mut digits: Vec<char> = Vec::new();
    if n >= 100 {
        digits.push(digit(n / 100));
    }
    if n >= 10 {
        digits.push(digit((n / 10) % 10));
    }
    digits.push(digit(n % 10));
    proof {
        let m = n as nat;
        if m >= 100 {
            assert(decimal_digits(m / 100) =~= seq![digit_char(m / 100)]);
            assert(decimal_digits(m / 10) =~= decimal_digits(m / 100).push(
                digit_char((m / 10) % 10),
            ));
        } else if m >= 10 {
            assert(decimal_digits(m / 10) =~= seq![digit_char(m / 10)]);
        }
        assert(digits@ =~= decimal_digits(m));
    }
    digits
}

} // verus!
