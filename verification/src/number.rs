//! Numbers as text: how they are written out, and which texts stand for which
//! number.

use vstd::prelude::*;

use crate::text::{chars_of, is_text, string_of, to_ascii_lower};

verus! {

/// The decimal digit `d`.
pub open spec fn digit_char(d: int) -> char {
    (48 + d) as char
}

/// `n` in decimal, without leading zeros.
pub open spec fn decimal(n: nat) -> Seq<char>
    decreases n,
{
    if n < 10 {
        seq![digit_char(n as int)]
    } else {
        decimal(n / 10).push(digit_char((n % 10) as int))
    }
}

/// `i` in decimal, with a minus sign where it is negative.
pub open spec fn decimal_int(i: int) -> Seq<char> {
    if i < 0 {
        seq!['-'] + decimal((-i) as nat)
    } else {
        decimal(i as nat)
    }
}

/// Whether `c` is a decimal digit.
pub open spec fn is_digit(c: char) -> bool {
    '0' <= c <= '9'
}

/// Whether `s` holds nothing but decimal digits.
pub open spec fn all_digits(s: Seq<char>) -> bool {
    forall|i: int| 0 <= i < s.len() ==> is_digit(#[trigger] s[i])
}

/// The number that a run of decimal digits stands for.
pub open spec fn digits_value(s: Seq<char>) -> nat
    decreases s.len(),
{
    if s.len() == 0 {
        0
    } else {
        digits_value(s.drop_last()) * 10 + (s.last() as nat - 48) as nat
    }
}

/// `s` without a leading plus sign.
pub open spec fn without_plus(s: Seq<char>) -> Seq<char> {
    if s.len() > 0 && s[0] == '+' {
        s.drop_first()
    } else {
        s
    }
}

/// The number that `s` writes out as an optional plus sign and one or more
/// digits.
pub open spec fn unsigned_text(s: Seq<char>) -> Option<int> {
    let digits = without_plus(s);
    if digits.len() > 0 && all_digits(digits) {
        Some(digits_value(digits) as int)
    } else {
        None
    }
}

/// The number that `s` writes out as an optional sign and one or more digits.
pub open spec fn signed_text(s: Seq<char>) -> Option<int> {
    if s.len() > 0 && s[0] == '-' {
        let digits = s.drop_first();
        if digits.len() > 0 && all_digits(digits) {
            Some(-(digits_value(digits) as int))
        } else {
            None
        }
    } else {
        unsigned_text(s)
    }
}

/// The value of a hexadecimal digit.
pub open spec fn hex_digit(c: char) -> Option<int> {
    if '0' <= c <= '9' {
        Some(c as int - 48)
    } else if 'a' <= c <= 'f' {
        Some(c as int - 87)
    } else if 'A' <= c <= 'F' {
        Some(c as int - 55)
    } else {
        None
    }
}

/// The message of the error with which `str::parse::<i64>` refuses a text.
pub uninterp spec fn i64_error_text(s: Seq<char>) -> Seq<char>;

/// The message of the error with which `str::parse::<u32>` refuses a text.
pub uninterp spec fn u32_error_text(s: Seq<char>) -> Seq<char>;

/// `str::parse::<i64>`: succeeds on an optional sign followed by digits alone
/// whose value an `i64` can hold, and gives that value. Of the message with
/// which it fails only this is claimed, that it depends on the text alone.
#[verifier::external_body]
pub(crate) fn parse_i64(text: &str) -> (r: Result<i64, String>)
    ensures
        match r {
            Ok(v) => signed_text(text@) == Some(v as int),
            Err(e) => {
                &&& !(signed_text(text@) matches Some(v) && i64::MIN <= v <= i64::MAX)
                &&& e@ == i64_error_text(text@)
            },
        },
{
    text.parse::<i64>().map_err(|e| e.to_string())
}

/// `str::parse::<u32>`: succeeds on an optional plus sign followed by digits
/// alone whose value a `u32` can hold, and gives that value. Of the message
/// with which it fails only this is claimed, that it depends on the text alone.
#[verifier::external_body]
pub(crate) fn parse_u32(text: &str) -> (r: Result<u32, String>)
    ensures
        match r {
            Ok(v) => unsigned_text(text@) == Some(v as int),
            Err(e) => {
                &&& !(unsigned_text(text@) matches Some(v) && v <= u32::MAX)
                &&& e@ == u32_error_text(text@)
            },
        },
{
    text.parse::<u32>().map_err(|e| e.to_string())
}

/// `n` in decimal.
pub fn decimal_string(n: u64) -> (r: String)
    ensures
        r@ == decimal(n as nat),
    decreases n,
{
    let digit: u8 = (n % 10) as u8;
    let mut out = if n < 10 {
        String::new()
    } else {
        decimal_string(n / 10)
    };
    out.push((48 + digit) as char);
    assert(out@ =~= decimal(n as nat));
    out
}

/// `i` in decimal, with a minus sign where it is negative.
pub fn decimal_int_string(i: i64) -> (r: String)
    ensures
        r@ == decimal_int(i as int),
{
    if i < 0 {
        let mut out = "-".to_owned();
        let size: u64 = (-(i as i128)) as u64;
        out.append(decimal_string(size).as_str());
        proof {
            reveal_strlit("-");
            assert("-"@ =~= seq!['-']);
        }
        out
    } else {
        decimal_string(i as u64)
    }
}

/// The digits of `n` in decimal are digits, at least one, and stand for `n`.
pub proof fn decimal_stands_for_its_number(n: nat)
    ensures
        decimal(n).len() > 0,
        all_digits(decimal(n)),
        digits_value(decimal(n)) == n,
    decreases n,
{
    reveal_with_fuel(digits_value, 2);
    if n < 10 {
        assert(decimal(n).drop_last() =~= Seq::<char>::empty());
    } else {
        decimal_stands_for_its_number(n / 10);
        assert(decimal(n).drop_last() =~= decimal(n / 10));
    }
}

/// Reading back an integer that was written out in decimal gives the integer.
pub proof fn written_integer_reads_back(i: int)
    ensures
        signed_text(decimal_int(i)) == Some(i),
        i >= 0 ==> unsigned_text(decimal_int(i)) == Some(i),
{
    if i < 0 {
        decimal_stands_for_its_number((-i) as nat);
        assert(decimal_int(i).drop_first() =~= decimal((-i) as nat));
    } else {
        decimal_stands_for_its_number(i as nat);
        assert(is_digit(decimal(i as nat)[0]));
    }
}

/// Whether `s` is the mantissa of a number: digits, with at most one point
/// among them or at either end, and at least one digit.
pub open spec fn is_mantissa(s: Seq<char>) -> bool {
    ||| s.len() > 0 && all_digits(s)
    ||| exists|p: int|
        0 <= p < s.len() && #[trigger] s[p] == '.' && s.len() > 1 && all_digits(s.take(p))
            && all_digits(s.skip(p + 1))
}

/// `s` without a leading sign.
pub open spec fn without_sign(s: Seq<char>) -> Seq<char> {
    if s.len() > 0 && (s[0] == '+' || s[0] == '-') {
        s.drop_first()
    } else {
        s
    }
}

/// Whether `s` is the exponent of a number: nothing, or an `e` with an optional
/// sign and at least one digit after it.
pub open spec fn is_exponent(s: Seq<char>) -> bool {
    ||| s.len() == 0
    ||| {
        &&& s[0] == 'e' || s[0] == 'E'
        &&& without_sign(s.drop_first()).len() > 0
        &&& all_digits(without_sign(s.drop_first()))
    }
}

/// Whether `s` is a mantissa followed by an exponent.
pub open spec fn is_number(s: Seq<char>) -> bool {
    exists|k: int|
        0 <= k <= s.len() && #[trigger] is_mantissa(s.take(k)) && is_exponent(s.skip(k))
}

/// Whether `s` stands for a floating point number: an optional sign, then an
/// infinity, a not-a-number (in any case of their letters) or a number.
pub open spec fn is_float_text(s: Seq<char>) -> bool {
    let rest = without_sign(s);
    let lower = crate::text::ascii_lower(rest);
    ||| lower == "inf"@
    ||| lower == "infinity"@
    ||| lower == "nan"@
    ||| is_number(rest)
}

fn digits_between(chars: &Vec<char>, from: usize, to: usize) -> (r: bool)
    requires
        from <= to <= chars@.len(),
    ensures
        r == all_digits(chars@.subrange(from as int, to as int)),
{
    let ghost run = chars@.subrange(from as int, to as int);
    let mut i: usize = from;
    while i < to
        invariant
            from <= i <= to <= chars@.len(),
            run == chars@.subrange(from as int, to as int),
            forall|j: int| 0 <= j < i - from ==> is_digit(run[j]),
        decreases to - i,
    {
        if !('0' <= chars[i] && chars[i] <= '9') {
            assert(!is_digit(run[i - from]));
            return false;
        }
        assert(is_digit(run[i - from]));
        i = i + 1;
    }
    true
}

/// Whether `chars[from..to]` is a mantissa.
fn mantissa(chars: &Vec<char>, from: usize, to: usize) -> (r: bool)
    requires
        from <= to <= chars@.len(),
    ensures
        r == is_mantissa(chars@.subrange(from as int, to as int)),
{
    let ghost s = chars@.subrange(from as int, to as int);
    let mut point: usize = from;
    while point < to && chars[point] != '.'
        invariant
            from <= point <= to <= chars@.len(),
            s == chars@.subrange(from as int, to as int),
            forall|j: int| 0 <= j < point - from ==> s[j] != '.',
        decreases to - point,
    {
        assert(s[point - from] != '.');
        point = point + 1;
    }
    if point == to {
        return to > from && digits_between(chars, from, to);
    }
    let ghost p = point - from;
    assert(s[p] == '.' && !is_digit(s[p]));
    let whole = digits_between(chars, from, point);
    let part = digits_between(chars, point + 1, to);
    assert(s.take(p) =~= chars@.subrange(from as int, point as int));
    assert(s.skip(p + 1) =~= chars@.subrange(point + 1, to as int));
    let r = to - from > 1 && whole && part;
    proof {
        if is_mantissa(s) && !r {
            let q = choose|q: int|
                0 <= q < s.len() && #[trigger] s[q] == '.' && s.len() > 1 && all_digits(s.take(q))
                    && all_digits(s.skip(q + 1));
            if p < q {
                assert(is_digit(s.take(q)[p]));
            }
            assert(false);
        }
    }
    r
}

/// Whether `chars[from..]` is an exponent.
fn exponent(chars: &Vec<char>, from: usize) -> (r: bool)
    requires
        from <= chars@.len(),
    ensures
        r == is_exponent(chars@.skip(from as int)),
{
    let ghost s = chars@.skip(from as int);
    if from == chars.len() {
        return true;
    }
    if chars[from] != 'e' && chars[from] != 'E' {
        return false;
    }
    let mut digits: usize = from + 1;
    if digits < chars.len() && (chars[digits] == '+' || chars[digits] == '-') {
        digits = digits + 1;
    }
    assert(without_sign(s.drop_first()) =~= chars@.subrange(digits as int, chars@.len() as int));
    digits < chars.len() && digits_between(chars, digits, chars.len())
}

/// Whether `chars[from..]` is a mantissa followed by an exponent.
fn number(chars: &Vec<char>, from: usize) -> (r: bool)
    requires
        from <= chars@.len(),
    ensures
        r == is_number(chars@.skip(from as int)),
{
    let ghost s = chars@.skip(from as int);
    let mut split: usize = from;
    while split < chars.len() && chars[split] != 'e' && chars[split] != 'E'
        invariant
            from <= split <= chars@.len(),
            s == chars@.skip(from as int),
            forall|j: int| 0 <= j < split - from ==> s[j] != 'e' && s[j] != 'E',
        decreases chars.len() - split,
    {
        assert(s[split - from] == chars@[split as int]);
        split = split + 1;
    }
    let ghost k = split - from;
    let left = mantissa(chars, from, split);
    let right = exponent(chars, split);
    assert(s.take(k) =~= chars@.subrange(from as int, split as int));
    assert(s.skip(k) =~= chars@.skip(split as int));
    proof {
        if is_number(s) {
            let m = choose|m: int|
                0 <= m <= s.len() && #[trigger] is_mantissa(s.take(m)) && is_exponent(s.skip(m));
            if m < k {
                assert(s.skip(m)[0] == s[m]);
                assert(false);
            }
            if k < m {
                lemma_mantissa_has_no_letter(s.take(m), k);
                assert(false);
            }
        }
    }
    left && right
}

/// A mantissa holds nothing but digits and points.
pub proof fn lemma_mantissa_has_no_letter(s: Seq<char>, i: int)
    requires
        is_mantissa(s),
        0 <= i < s.len(),
    ensures
        is_digit(s[i]) || s[i] == '.',
{
    if !all_digits(s) {
        let p = choose|p: int|
            0 <= p < s.len() && #[trigger] s[p] == '.' && s.len() > 1 && all_digits(s.take(p))
                && all_digits(s.skip(p + 1));
        if i < p {
            assert(is_digit(s.take(p)[i]));
        } else if i > p {
            assert(is_digit(s.skip(p + 1)[i - p - 1]));
        }
    }
}

/// Whether `text` stands for a floating point number.
pub fn float_text(text: &str) -> (r: bool)
    ensures
        r == is_float_text(text@),
{
    let chars = chars_of(text);
    let mut from: usize = 0;
    if chars.len() > 0 && (chars[0] == '+' || chars[0] == '-') {
        from = 1;
    }
    assert(without_sign(text@) =~= chars@.subrange(from as int, chars@.len() as int));
    assert(without_sign(text@) =~= chars@.skip(from as int));
    let rest = string_of(&chars, from, chars.len());
    let lower = to_ascii_lower(rest.as_str());
    is_text(&lower, "inf") || is_text(&lower, "infinity") || is_text(&lower, "nan") || number(
        &chars,
        from,
    )
}

} // verus!
