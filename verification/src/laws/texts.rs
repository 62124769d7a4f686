//! What holds of texts, numbers, byte strings and vectors, whoever handles them.

use vstd::prelude::*;
use vstd::utf8::encode_utf8;

use crate::command::CommandTag;
use crate::error::{server_error, ErrorInfo, SessionError, SessionErrorView};
use crate::hex::{decoded_pairs, hex_encoded, hex_meaning};
use crate::number::{
    all_digits, decimal, decimal_int, decimal_stands_for_its_number, digits_value, hex_digit,
    is_digit, is_exponent, is_float_text, is_mantissa, is_number, lemma_mantissa_has_no_letter,
    signed_text, unsigned_text, without_sign,
};
use crate::text::{
    after_prefix, ascii_lower, ascii_lower_char, ascii_upper, capitalises_ascii, ends_with_text,
    is_white_space, lowers_ascii, occurs_in, trim_end, trim_start, trimmed,
};
use crate::value::{BindValue, BindValueView, FieldFormat, Format};
use crate::vector::{element_is_finite, vector_meaning};

verus! {

proof fn lemma_trim_start_split(s: Seq<char>) -> (n: int)
    ensures
        0 <= n <= s.len(),
        trim_start(s) == s.skip(n),
        forall|i: int| 0 <= i < n ==> is_white_space(#[trigger] s[i]),
        n < s.len() ==> !is_white_space(s[n]),
    decreases s.len(),
{
    if s.len() > 0 && is_white_space(s[0]) {
        let rest = s.drop_first();
        let m = lemma_trim_start_split(rest);
        assert(rest.skip(m) =~= s.skip(m + 1));
        assert forall|i: int| 0 <= i < m + 1 implies is_white_space(#[trigger] s[i]) by {
            if i > 0 {
                assert(s[i] == rest[i - 1]);
            }
        }
        if m < rest.len() {
            assert(rest[m] == s[m + 1]);
        }
        m + 1
    } else {
        assert(s.skip(0) =~= s);
        0
    }
}

proof fn lemma_trim_end_split(s: Seq<char>) -> (n: int)
    ensures
        0 <= n <= s.len(),
        trim_end(s) == s.take(n),
        forall|i: int| n <= i < s.len() ==> is_white_space(#[trigger] s[i]),
        n > 0 ==> !is_white_space(s[n - 1]),
    decreases s.len(),
{
    if s.len() > 0 && is_white_space(s.last()) {
        let rest = s.drop_last();
        let n = lemma_trim_end_split(rest);
        assert(rest.take(n) =~= s.take(n));
        assert forall|i: int| n <= i < s.len() implies is_white_space(#[trigger] s[i]) by {
            if i < rest.len() {
                assert(s[i] == rest[i]);
            }
        }
        n
    } else {
        assert(s.take(s.len() as int) =~= s);
        s.len() as int
    }
}

/// Trimming takes away the white space around a text and nothing else: what is left is
/// a run of the text, all before and behind it is white space, and neither of its ends
/// is.
pub proof fn trimming_takes_white_space_alone(s: Seq<char>)
    ensures
        exists|a: int, b: int|
            0 <= a <= b <= s.len() && trimmed(s) == #[trigger] s.subrange(a, b) && (forall|i: int|
                0 <= i < a || b <= i < s.len() ==> is_white_space(#[trigger] s[i])),
        trimmed(s).len() > 0 ==> !is_white_space(trimmed(s)[0]) && !is_white_space(
            trimmed(s).last(),
        ),
{
    let a = lemma_trim_start_split(s);
    let rest = s.skip(a);
    let n = lemma_trim_end_split(rest);
    assert(rest.take(n) =~= s.subrange(a, a + n));
    assert forall|i: int| 0 <= i < a || a + n <= i < s.len() implies is_white_space(
        #[trigger] s[i],
    ) by {
        if i >= a + n {
            assert(s[i] == rest[i - a]);
        }
    }
    if n > 0 {
        assert(rest[0] == s[a]);
        assert(trimmed(s)[0] == rest[0]);
        assert(trimmed(s).last() == rest[n - 1]);
    }
}

/// White space is what Unicode gives that property: twenty-five characters, six of them in
/// ASCII.
pub proof fn white_space_is_what_unicode_says(c: char)
    ensures
        (c as u32) < 128 ==> (is_white_space(c) <==> c == ' ' || c == '\t' || c == '\n' || c
            == '\u{b}' || c == '\u{c}' || c == '\r'),
        c as u32 >= 128 ==> (is_white_space(c) <==> {
            let n = c as u32;
            n == 0x85 || n == 0xa0 || n == 0x1680 || 0x2000 <= n <= 0x200a || n == 0x2028 || n
                == 0x2029 || n == 0x202f || n == 0x205f || n == 0x3000
        }),
{
}

/// A prefix is taken off exactly where the text is the prefix followed by the rest.
pub proof fn prefix_and_rest_make_up_the_text(prefix: Seq<char>, rest: Seq<char>, s: Seq<char>)
    ensures
        after_prefix(s, prefix) == Some(rest) <==> s == prefix + rest,
        after_prefix(s, prefix) is None <==> !prefix.is_prefix_of(s),
{
    if after_prefix(s, prefix) == Some(rest) {
        assert(prefix =~= s.subrange(0, prefix.len() as int));
        assert(s =~= prefix + rest);
    }
    if s == prefix + rest {
        assert(prefix =~= s.subrange(0, prefix.len() as int));
        assert(s.skip(prefix.len() as int) =~= rest);
    }
}

/// A text that is put between others occurs in the whole.
pub proof fn part_occurs_in_the_whole(a: Seq<char>, part: Seq<char>, b: Seq<char>)
    ensures
        occurs_in(a + part + b, part),
        ends_with_text(a + part, part),
{
    let whole = a + part + b;
    let i = a.len() as int;
    assert(whole.subrange(i, i + part.len()) =~= part);
    assert(crate::text::occurs_at(whole, part, i));
    let short = a + part;
    assert(short.subrange(i, i + part.len()) =~= part);
}

/// What occurs in a text stands there between two other parts, and what it ends with
/// behind one.
pub proof fn occurring_text_parts_the_whole(s: Seq<char>, part: Seq<char>)
    ensures
        occurs_in(s, part) ==> exists|a: Seq<char>, b: Seq<char>| s == #[trigger] (a + part + b),
        ends_with_text(s, part) ==> exists|a: Seq<char>| s == #[trigger] (a + part),
{
    if occurs_in(s, part) {
        let i = choose|i: int| crate::text::occurs_at(s, part, i);
        let a = s.take(i);
        let b = s.skip(i + part.len());
        assert(s =~= a + part + b);
    }
    if ends_with_text(s, part) {
        let a = s.take(s.len() - part.len());
        assert(s =~= a + part);
    }
}

/// The case of ASCII letters is changed by thirty-two places; every other character,
/// and the length of a text, stays.
pub proof fn case_concerns_ascii_letters_alone(s: Seq<char>, i: int)
    requires
        0 <= i < s.len(),
    ensures
        ascii_lower(s).len() == s.len(),
        ascii_upper(s).len() == s.len(),
        'A' <= s[i] <= 'Z' ==> ascii_lower(s)[i] as int == s[i] as int + 32,
        !('A' <= s[i] <= 'Z') ==> ascii_lower(s)[i] == s[i],
        'a' <= s[i] <= 'z' ==> ascii_upper(s)[i] as int == s[i] as int - 32,
        !('a' <= s[i] <= 'z') ==> ascii_upper(s)[i] == s[i],
{
}

/// The capitals and the small letters of a text in ASCII are those of its ASCII letters,
/// and so are those of the ASCII characters that any other text begins with.
pub proof fn case_is_settled_for_ascii(text: Seq<char>, changed: Seq<char>, k: int)
    requires
        0 <= k <= text.len(),
        vstd::utf8::is_ascii_chars(text.take(k)),
    ensures
        capitalises_ascii(text, changed) ==> ascii_upper(text.take(k)).is_prefix_of(changed),
        lowers_ascii(text, changed) ==> ascii_lower(text.take(k)).is_prefix_of(changed),
        k == text.len() && capitalises_ascii(text, changed) ==> changed == ascii_upper(text),
        k == text.len() && lowers_ascii(text, changed) ==> changed == ascii_lower(text),
{
    assert(text.take(text.len() as int) =~= text);
}

/// Digits are the ten characters from zero to nine, and a sign is a plus or a minus at the
/// start.
pub proof fn digits_and_signs_are_these(c: char, s: Seq<char>)
    ensures
        is_digit(c) <==> '0' <= c <= '9',
        all_digits(s) <==> forall|i: int| 0 <= i < s.len() ==> '0' <= #[trigger] s[i] <= '9',
        without_sign(seq!['+'] + s) == s,
        without_sign(seq!['-'] + s) == s,
        s.len() == 0 || (s[0] != '+' && s[0] != '-') ==> without_sign(s) == s,
        digits_value(Seq::empty()) == 0,
{
    assert((seq!['+'] + s).drop_first() =~= s);
    assert((seq!['-'] + s).drop_first() =~= s);
    if all_digits(s) {
        assert forall|i: int| 0 <= i < s.len() implies '0' <= #[trigger] s[i] <= '9' by {
            assert(is_digit(s[i]));
        }
    }
}

/// An integer in decimal is written without zeros in front, with a minus sign if it is
/// negative and with nothing else, so that no two integers are written alike.
pub proof fn decimal_writing_is_short(i: int)
    ensures
        i >= 0 ==> decimal_int(i) == decimal(i as nat),
        i == 0 ==> decimal_int(i) == seq!['0'],
        i > 0 ==> '1' <= decimal_int(i)[0] <= '9',
        i < 0 ==> decimal_int(i)[0] == '-' && '1' <= decimal_int(i)[1] <= '9',
        i >= 0 ==> all_digits(decimal_int(i)) && digits_value(decimal_int(i)) == i,
        i < 0 ==> all_digits(decimal_int(i).drop_first()) && digits_value(
            decimal_int(i).drop_first(),
        ) == -i,
{
    let n = if i < 0 {
        (-i) as nat
    } else {
        i as nat
    };
    decimal_stands_for_its_number(n);
    lemma_first_digit(n);
    if i < 0 {
        assert(decimal_int(i).drop_first() =~= decimal(n));
        assert(decimal_int(i)[1] == decimal(n)[0]);
    }
    assert(i == 0 ==> decimal_int(i) =~= seq!['0']);
}

proof fn lemma_first_digit(n: nat)
    ensures
        decimal(n).len() > 0,
        n > 0 ==> '1' <= decimal(n)[0] <= '9',
    decreases n,
{
    if n >= 10 {
        lemma_first_digit(n / 10);
        assert(decimal(n)[0] == decimal(n / 10)[0]);
    }
}

/// An integer reads as the number of its digits: a text of digits is the number whose
/// last digit and tens it gives, with a minus sign its opposite, and with anything else
/// in it no number.
pub proof fn integers_are_signs_and_digits(s: Seq<char>)
    ensures
        all_digits(s) && s.len() > 0 ==> {
            &&& signed_text(s) == Some(digits_value(s) as int)
            &&& unsigned_text(s) == signed_text(s)
            &&& signed_text(seq!['-'] + s) == Some(-(digits_value(s) as int))
            &&& signed_text(seq!['+'] + s) == signed_text(s)
            &&& unsigned_text(seq!['+'] + s) == signed_text(s)
            &&& unsigned_text(seq!['-'] + s) is None
        },
        s.len() > 0 && all_digits(s) ==> digits_value(s) == digits_value(s.drop_last()) * 10
            + (s.last() as int - '0' as int),
        (exists|i: int| 0 < i < s.len() && !is_digit(#[trigger] s[i])) ==> signed_text(s) is None
            && unsigned_text(s) is None,
        s.len() == 0 || !('0' <= s[0] <= '9' || s[0] == '+' || s[0] == '-') ==> signed_text(s)
            is None,
        s.len() == 0 || !('0' <= s[0] <= '9' || s[0] == '+') ==> unsigned_text(s) is None,
        s.len() == 1 && !('0' <= s[0] <= '9') ==> signed_text(s) is None && unsigned_text(s)
            is None,
{
    if s.len() > 0 && !is_digit(s[0]) {
        assert(!all_digits(s));
    }
    if all_digits(s) && s.len() > 0 {
        assert(is_digit(s[0]));
        assert((seq!['-'] + s).drop_first() =~= s);
        assert((seq!['+'] + s).drop_first() =~= s);
        let minus = seq!['-'] + s;
        assert(!is_digit(minus[0]));
        assert(is_digit(s.last()));
    }
    if exists|i: int| 0 < i < s.len() && !is_digit(#[trigger] s[i]) {
        let i = choose|i: int| 0 < i < s.len() && !is_digit(#[trigger] s[i]);
        assert(!is_digit(s[i]));
        let rest = s.drop_first();
        assert(rest[i - 1] == s[i]);
        assert(!all_digits(rest));
        assert(!all_digits(s));
    }
}

/// A floating point number is digits with a point among them, before or behind them, or
/// without one, then an exponent or none, after a sign or none.
pub proof fn numbers_with_points_and_exponents_are_floats(
    sign: Seq<char>,
    whole: Seq<char>,
    point: bool,
    part: Seq<char>,
    exponent: Seq<char>,
)
    requires
        sign == Seq::<char>::empty() || sign == seq!['+'] || sign == seq!['-'],
        forall|i: int| 0 <= i < whole.len() ==> '0' <= #[trigger] whole[i] <= '9',
        forall|i: int| 0 <= i < part.len() ==> '0' <= #[trigger] part[i] <= '9',
        whole.len() + part.len() > 0,
        !point ==> part.len() == 0,
        exponent.len() == 0 || {
            &&& exponent[0] == 'e' || exponent[0] == 'E'
            &&& exponent.len() > 1
            &&& exponent[1] == '+' || exponent[1] == '-' ==> exponent.len() > 2
            &&& exponent[1] == '+' || exponent[1] == '-' || '0' <= exponent[1] <= '9'
            &&& forall|i: int| 2 <= i < exponent.len() ==> '0' <= #[trigger] exponent[i] <= '9'
        },
    ensures
        is_float_text(
            sign + whole + (if point {
                seq!['.']
            } else {
                Seq::empty()
            }) + part + exponent,
        ),
{
    let dot = if point {
        seq!['.']
    } else {
        Seq::<char>::empty()
    };
    let mantissa = whole + dot + part;
    let rest = mantissa + exponent;
    let s = sign + whole + dot + part + exponent;
    if point {
        let p = whole.len() as int;
        assert(mantissa[p] == '.');
        assert(mantissa.take(p) =~= whole);
        assert(mantissa.skip(p + 1) =~= part);
        assert(all_digits(whole) && all_digits(part));
        assert(is_mantissa(mantissa));
    } else {
        assert(mantissa =~= whole);
        assert(is_mantissa(mantissa));
    }
    lemma_mantissa_has_no_letter(mantissa, 0);
    assert(rest[0] == mantissa[0]);
    if sign.len() > 0 {
        assert(s.drop_first() =~= rest);
        assert(s[0] == sign[0]);
    } else {
        assert(s =~= rest);
    }
    assert(without_sign(s) == rest);
    if exponent.len() > 0 {
        let behind = exponent.drop_first();
        assert(behind[0] == exponent[1]);
        let digits = without_sign(behind);
        assert forall|i: int| 0 <= i < digits.len() implies is_digit(#[trigger] digits[i]) by {
            if digits.len() < behind.len() {
                assert(digits[i] == exponent[i + 2]);
            } else {
                assert(digits[i] == exponent[i + 1]);
            }
        }
        assert(all_digits(digits));
    }
    assert(is_exponent(exponent));
    assert(rest.take(mantissa.len() as int) =~= mantissa);
    assert(rest.skip(mantissa.len() as int) =~= exponent);
    assert(is_number(rest));
}

/// So are the words for infinity and for no number, in any case and after a sign or
/// none.
pub proof fn words_for_infinity_are_floats(sign: Seq<char>, word: Seq<char>)
    requires
        sign == Seq::<char>::empty() || sign == seq!['+'] || sign == seq!['-'],
        ascii_lower(word) == "inf"@ || ascii_lower(word) == "infinity"@ || ascii_lower(word)
            == "nan"@,
    ensures
        is_float_text(sign + word),
{
    reveal_strlit("inf");
    reveal_strlit("infinity");
    reveal_strlit("nan");
    assert(ascii_lower(word).len() == word.len());
    assert(ascii_lower(word)[0] == ascii_lower_char(word[0]));
    assert(ascii_lower(word)[0] == 'i' || ascii_lower(word)[0] == 'n');
    let s = sign + word;
    if sign.len() > 0 {
        assert(s.drop_first() =~= word);
        assert(s[0] == sign[0]);
    } else {
        assert(s =~= word);
    }
    assert(without_sign(s) == word);
}

/// Nothing else is: a text that does not begin with a digit or a point, after its sign,
/// and is none of those words, is no floating point number, and neither is one with a
/// character that numbers do not have.
pub proof fn other_texts_are_no_floats(s: Seq<char>)
    requires
        ({
            let rest = without_sign(s);
            &&& ascii_lower(rest) != "inf"@
            &&& ascii_lower(rest) != "infinity"@
            &&& ascii_lower(rest) != "nan"@
            &&& rest.len() == 0 || !('0' <= rest[0] <= '9' || rest[0] == '.') || exists|i: int|
                0 <= i < rest.len() && !('0' <= #[trigger] rest[i] <= '9' || rest[i] == '.'
                    || rest[i] == 'e' || rest[i] == 'E' || rest[i] == '+' || rest[i] == '-')
        }),
    ensures
        !is_float_text(s),
{
    let rest = without_sign(s);
    if is_number(rest) {
        let k = choose|k: int|
            0 <= k <= rest.len() && #[trigger] is_mantissa(rest.take(k)) && is_exponent(
                rest.skip(k),
            );
        let mantissa = rest.take(k);
        let exponent = rest.skip(k);
        assert(mantissa.len() > 0);
        lemma_mantissa_has_no_letter(mantissa, 0);
        assert(rest[0] == mantissa[0]);
        let i = choose|i: int|
            0 <= i < rest.len() && !('0' <= #[trigger] rest[i] <= '9' || rest[i] == '.' || rest[i]
                == 'e' || rest[i] == 'E' || rest[i] == '+' || rest[i] == '-');
        if i < k {
            lemma_mantissa_has_no_letter(mantissa, i);
            assert(mantissa[i] == rest[i]);
        } else {
            assert(exponent[i - k] == rest[i]);
            let behind = exponent.drop_first();
            let digits = without_sign(behind);
            if i > k {
                assert(behind[i - k - 1] == rest[i]);
                if digits.len() == behind.len() {
                    assert(is_digit(digits[i - k - 1]));
                } else if i - k >= 2 {
                    assert(digits[i - k - 2] == behind[i - k - 1]);
                    assert(is_digit(digits[i - k - 2]));
                }
            }
        }
        assert(false);
    }
}

/// Whatever is taken for a floating point number is written in one of these ways: after a
/// sign or none, a word for infinity or for no number, or digits with at most one point and
/// an exponent or none.
pub proof fn floats_are_written_in_these_ways(s: Seq<char>)
    requires
        is_float_text(s),
    ensures
        ({
            let rest = without_sign(s);
            ||| ascii_lower(rest) == "inf"@ || ascii_lower(rest) == "infinity"@ || ascii_lower(rest)
                == "nan"@
            ||| exists|whole: Seq<char>, dot: Seq<char>, part: Seq<char>, exponent: Seq<char>|
                {
                    &&& rest == #[trigger] (whole + dot + part + exponent)
                    &&& forall|i: int| 0 <= i < whole.len() ==> '0' <= #[trigger] whole[i] <= '9'
                    &&& forall|i: int| 0 <= i < part.len() ==> '0' <= #[trigger] part[i] <= '9'
                    &&& whole.len() + part.len() > 0
                    &&& dot == seq!['.'] || (dot.len() == 0 && part.len() == 0)
                    &&& exponent.len() == 0 || {
                        &&& exponent[0] == 'e' || exponent[0] == 'E'
                        &&& exponent.len() > 1
                        &&& exponent[1] == '+' || exponent[1] == '-' ==> exponent.len() > 2
                        &&& exponent[1] == '+' || exponent[1] == '-' || '0' <= exponent[1] <= '9'
                        &&& forall|i: int|
                            2 <= i < exponent.len() ==> '0' <= #[trigger] exponent[i] <= '9'
                    }
                }
        }),
{
    let rest = without_sign(s);
    if is_number(rest) {
        let k = choose|k: int|
            0 <= k <= rest.len() && #[trigger] is_mantissa(rest.take(k)) && is_exponent(
                rest.skip(k),
            );
        let mantissa = rest.take(k);
        let exponent = rest.skip(k);
        if exponent.len() > 0 {
            let behind = exponent.drop_first();
            let digits = without_sign(behind);
            assert(behind[0] == exponent[1]);
            assert(is_digit(digits[0]));
            assert forall|i: int| 2 <= i < exponent.len() implies '0' <= #[trigger] exponent[i]
                <= '9' by {
                if digits.len() < behind.len() {
                    assert(is_digit(digits[i - 2]));
                } else {
                    assert(is_digit(digits[i - 1]));
                }
            }
        }
        if all_digits(mantissa) {
            let none = Seq::<char>::empty();
            assert forall|i: int| 0 <= i < mantissa.len() implies '0' <= #[trigger] mantissa[i]
                <= '9' by {
                assert(is_digit(mantissa[i]));
            }
            assert(rest =~= mantissa + none + none + exponent);
        } else {
            let p = choose|p: int|
                0 <= p < mantissa.len() && #[trigger] mantissa[p] == '.' && mantissa.len() > 1
                    && all_digits(mantissa.take(p)) && all_digits(mantissa.skip(p + 1));
            let whole = mantissa.take(p);
            let part = mantissa.skip(p + 1);
            assert forall|i: int| 0 <= i < whole.len() implies '0' <= #[trigger] whole[i]
                <= '9' by {
                assert(is_digit(whole[i]));
            }
            assert forall|i: int| 0 <= i < part.len() implies '0' <= #[trigger] part[i] <= '9' by {
                assert(is_digit(part[i]));
            }
            assert(rest =~= whole + seq!['.'] + part + exponent);
        }
    }
}

/// The hexadecimal digits are the sixteen values in order, in small letters or capitals.
pub proof fn hex_digits_count_to_fifteen(c: char)
    ensures
        '0' <= c <= '9' ==> hex_digit(c) == Some(c as int - '0' as int),
        'a' <= c <= 'f' ==> hex_digit(c) == Some(c as int - 'a' as int + 10),
        'A' <= c <= 'F' ==> hex_digit(c) == Some(c as int - 'A' as int + 10),
        !('0' <= c <= '9' || 'a' <= c <= 'f' || 'A' <= c <= 'F') ==> hex_digit(c) is None,
{
}

proof fn lemma_pairs_of_digits(c: Seq<char>, i: int)
    requires
        0 <= i <= c.len(),
        (c.len() - i) % 2 == 0,
        forall|k: int| i <= k < c.len() ==> hex_digit(#[trigger] c[k]) is Some,
    ensures
        decoded_pairs(c, i) is Ok,
        decoded_pairs(c, i)->Ok_0.len() * 2 == c.len() - i,
        forall|k: int|
            0 <= k < (c.len() - i) / 2 ==> #[trigger] decoded_pairs(c, i)->Ok_0[k] as int
                == hex_digit(c[i + 2 * k])->0 * 16 + hex_digit(c[i + 2 * k + 1])->0,
    decreases c.len() - i,
{
    if i < c.len() {
        lemma_pairs_of_digits(c, i + 2);
        assert(hex_digit(c[i]) is Some && hex_digit(c[i + 1]) is Some);
        let all = decoded_pairs(c, i)->Ok_0;
        let rest = decoded_pairs(c, i + 2)->Ok_0;
        assert forall|k: int| 0 <= k < (c.len() - i) / 2 implies #[trigger] all[k] as int
            == hex_digit(c[i + 2 * k])->0 * 16 + hex_digit(c[i + 2 * k + 1])->0 by {
            if k > 0 {
                assert(all[k] == rest[k - 1]);
                assert(i + 2 + 2 * (k - 1) == i + 2 * k);
            }
        }
    }
}

/// An even number of hexadecimal digits stands for the bytes that its pairs write, the
/// first digit of each for sixteens.
pub proof fn pairs_of_digits_are_bytes(hex: Seq<char>)
    requires
        hex.len() % 2 == 0,
        forall|k: int| 0 <= k < hex.len() ==> hex_digit(#[trigger] hex[k]) is Some,
    ensures
        hex_meaning(hex) is Ok,
        hex_meaning(hex)->Ok_0.len() * 2 == hex.len(),
        forall|k: int|
            0 <= k < hex.len() / 2 ==> #[trigger] hex_meaning(hex)->Ok_0[k] as int == hex_digit(
                hex[2 * k],
            )->0 * 16 + hex_digit(hex[2 * k + 1])->0,
{
    lemma_pairs_of_digits(hex, 0);
    assert(vstd::utf8::is_ascii_chars(hex)) by {
        assert forall|i: int| 0 <= i < hex.len() implies '\0' <= #[trigger] hex[i] <= '\u{7f}' by {
            assert(hex_digit(hex[i]) is Some);
        }
    }
    vstd::utf8::is_ascii_chars_encode_utf8(hex);
}

proof fn lemma_first_bad_pair(c: Seq<char>, i: int, p: int)
    requires
        0 <= i <= p < c.len(),
        (p - i) % 2 == 0,
        forall|k: int| i <= k < p ==> hex_digit(#[trigger] c[k]) is Some,
        p + 1 == c.len() || hex_digit(c[p]) is None || hex_digit(c[p + 1]) is None,
    ensures
        decoded_pairs(c, i) == Err::<Seq<u8>, int>(p),
    decreases p - i,
{
    if i < p {
        assert(hex_digit(c[i]) is Some && hex_digit(c[i + 1]) is Some);
        lemma_first_bad_pair(c, i + 2, p);
    }
}

/// A text with anything else in it is refused with the position of the first pair that
/// is not two digits, or for its odd length.
pub proof fn other_hex_is_refused(hex: Seq<char>, p: int)
    requires
        0 <= p < hex.len(),
        p % 2 == 0,
        forall|k: int| 0 <= k < p ==> hex_digit(#[trigger] hex[k]) is Some,
        p + 1 == hex.len() || hex_digit(hex[p]) is None || hex_digit(hex[p + 1]) is None,
    ensures
        encode_utf8(hex).len() % 2 == 1 ==> hex_meaning(hex) == Err::<Seq<u8>, Seq<char>>(
            "odd-length hex string"@,
        ),
        encode_utf8(hex).len() % 2 == 0 ==> hex_meaning(hex) == Err::<Seq<u8>, Seq<char>>(
            "invalid hex at position "@ + decimal_int(p) + ": invalid digit found in string"@,
        ),
{
    lemma_first_bad_pair(hex, 0, p);
}

/// A byte string is written with two digits for each byte, in small letters.
pub proof fn bytes_are_written_in_small_letters(bytes: Seq<u8>, k: int)
    requires
        0 <= k < 2 * bytes.len(),
    ensures
        hex_encoded(bytes).len() == 2 * bytes.len(),
        '0' <= hex_encoded(bytes)[k] <= '9' || 'a' <= hex_encoded(bytes)[k] <= 'f',
{
    assert(0 <= bytes[k / 2] / 16 < 16);
    assert(0 <= bytes[k / 2] % 16 < 16);
}

/// A binary vector is taken exactly where it has a header of four bytes, announces
/// between 1 and 16000 dimensions, has zero in the unused field, is as long as its
/// dimensions make it, and has no element whose exponent is all ones.
pub proof fn vectors_are_taken_or_refused(bytes: Seq<u8>)
    ensures
        vector_meaning(bytes) is Ok <==> {
            &&& bytes.len() >= 4
            &&& 1 <= bytes[0] * 256 + bytes[1] <= 16000
            &&& bytes[2] == 0 && bytes[3] == 0
            &&& bytes.len() == 4 + 4 * (bytes[0] * 256 + bytes[1])
            &&& forall|k: int|
                0 <= k < bytes[0] * 256 + bytes[1] ==> !(#[trigger] bytes[4 + 4 * k] % 128 == 127
                    && bytes[5 + 4 * k] >= 128)
        },
        vector_meaning(bytes) is Ok ==> vector_meaning(bytes)->Ok_0.len() == bytes.len() - 4,
        bytes.len() < 4 ==> vector_meaning(bytes) == Err::<Seq<u8>, Seq<char>>(
            "invalid vector binary parameter: expected a 4-byte header"@,
        ),
        bytes.len() >= 4 && !(1 <= bytes[0] * 256 + bytes[1] <= 16000) ==> vector_meaning(bytes)
            == Err::<Seq<u8>, Seq<char>>(
            "invalid vector binary parameter: dimensions must be between 1 and 16000, got "@
                + decimal_int(bytes[0] * 256 + bytes[1]),
        ),
        bytes.len() >= 4 && 1 <= bytes[0] * 256 + bytes[1] <= 16000 && (bytes[2] != 0 || bytes[3]
            != 0) ==> vector_meaning(bytes) == Err::<Seq<u8>, Seq<char>>(
            "invalid vector binary parameter: unused header field must be zero"@,
        ),
        bytes.len() >= 4 && 1 <= bytes[0] * 256 + bytes[1] <= 16000 && bytes[2] == 0 && bytes[3]
            == 0 && bytes.len() != 4 + 4 * (bytes[0] * 256 + bytes[1]) ==> vector_meaning(bytes)
            == Err::<Seq<u8>, Seq<char>>(
            "invalid vector binary parameter: expected "@ + decimal_int(
                4 + 4 * (bytes[0] * 256 + bytes[1]),
            ) + " bytes, got "@ + decimal_int(bytes.len() as int),
        ),
        bytes.len() >= 4 && 1 <= bytes[0] * 256 + bytes[1] <= 16000 && bytes[2] == 0 && bytes[3]
            == 0 && bytes.len() == 4 + 4 * (bytes[0] * 256 + bytes[1]) && vector_meaning(bytes)
            is Err ==> vector_meaning(bytes) == Err::<Seq<u8>, Seq<char>>(
            "invalid vector binary parameter: elements must be finite"@,
        ),
{
    if bytes.len() >= 4 {
        let d = bytes[0] * 256 + bytes[1];
        assert(4 + d * 4 == 4 + 4 * d);
        if forall|k: int|
            0 <= k < d ==> !(#[trigger] bytes[4 + 4 * k] % 128 == 127 && bytes[5 + 4 * k] >= 128) {
            assert forall|k: int| 0 <= k < d implies #[trigger] element_is_finite(bytes, k) by {
                assert(4 + 4 * k + 1 == 5 + 4 * k);
                assert(!(bytes[4 + 4 * k] % 128 == 127 && bytes[5 + 4 * k] >= 128));
            }
        }
        if vector_meaning(bytes) is Ok {
            assert forall|k: int| 0 <= k < d implies !(#[trigger] bytes[4 + 4 * k] % 128 == 127
                && bytes[5 + 4 * k] >= 128) by {
                assert(element_is_finite(bytes, k));
            }
        }
    }
}

/// Each element of a vector that is taken has its four bytes in the opposite order.
pub proof fn elements_change_their_byte_order(bytes: Seq<u8>, k: int)
    requires
        vector_meaning(bytes) is Ok,
        0 <= k < (bytes.len() - 4) / 4,
    ensures
        vector_meaning(bytes)->Ok_0[4 * k] == bytes[4 * k + 7],
        vector_meaning(bytes)->Ok_0[4 * k + 1] == bytes[4 * k + 6],
        vector_meaning(bytes)->Ok_0[4 * k + 2] == bytes[4 * k + 5],
        vector_meaning(bytes)->Ok_0[4 * k + 3] == bytes[4 * k + 4],
{
    assert((4 * k) / 4 == k && (4 * k) % 4 == 0);
    assert((4 * k + 1) / 4 == k && (4 * k + 1) % 4 == 1);
    assert((4 * k + 2) / 4 == k && (4 * k + 2) % 4 == 2);
    assert((4 * k + 3) / 4 == k && (4 * k + 3) % 4 == 3);
}

/// Every error that a client is answered has the same severity and code, and the
/// message as it is.
pub proof fn clients_are_told_the_message(message: Seq<char>)
    ensures
        server_error(message).severity == "ERROR"@,
        server_error(message).code == "XX000"@,
        server_error(message).message == message,
{
}

/// Views keep what values and errors hold.
pub proof fn views_keep_what_is_held(
    i: i64,
    text: String,
    bytes: Vec<u8>,
    info: ErrorInfo,
    tag: CommandTag,
)
    ensures
        info@.severity == info.severity@ && info@.code == info.code@ && info@.message
            == info.message@,
        tag@.command == tag.command@ && tag@.oid == tag.oid && tag@.rows == tag.rows,
        BindValue::Null@ == BindValueView::Null,
        BindValue::Integer(i)@ == BindValueView::Integer(i as int),
        BindValue::Real(text)@ == BindValueView::Real(text@),
        BindValue::Text(text)@ == BindValueView::Text(text@),
        BindValue::Blob(bytes)@ == BindValueView::Blob(bytes@),
        SessionError::ParseError(text)@ == SessionErrorView::ParseError(text@),
        SessionError::InvalidArgument(text)@ == SessionErrorView::InvalidArgument(text@),
        SessionError::ConversionError(text)@ == SessionErrorView::ConversionError(text@),
        SessionError::InternalError(text)@ == SessionErrorView::InternalError(text@),
{
}

/// A field goes by its own format code where there are such, binary for the code one
/// alone, and by the common format where there is one.
pub proof fn fields_go_by_their_codes(codes: Vec<i16>, i: int)
    ensures
        Format::UnifiedText.covers(i) && Format::UnifiedText.format_of(i) == FieldFormat::Text,
        Format::UnifiedBinary.covers(i) && Format::UnifiedBinary.format_of(i)
            == FieldFormat::Binary,
        Format::Individual(codes).covers(i) <==> 0 <= i < codes@.len(),
        0 <= i < codes@.len() ==> (Format::Individual(codes).format_of(i) == FieldFormat::Binary
            <==> codes@[i] == 1),
{
}

} // verus!
