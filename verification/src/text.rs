//! Sequences of characters: the vocabulary in which statements, type names and
//! messages are described.

use vstd::prelude::*;
use vstd::utf8::is_ascii_chars;

verus! {

/// `String::push` appends one character to the end of the string.
pub assume_specification[ String::push ](s: &mut String, c: char)
    ensures
        final(s)@ == old(s)@.push(c),
;

/// The characters of the Unicode property White_Space.
pub open spec fn is_white_space(c: char) -> bool {
    ||| '\u{9}' <= c <= '\u{d}'
    ||| c == ' '
    ||| c == '\u{85}'
    ||| c == '\u{a0}'
    ||| c == '\u{1680}'
    ||| '\u{2000}' <= c <= '\u{200a}'
    ||| c == '\u{2028}'
    ||| c == '\u{2029}'
    ||| c == '\u{202f}'
    ||| c == '\u{205f}'
    ||| c == '\u{3000}'
}

/// `s` without the white space it begins with.
pub open spec fn trim_start(s: Seq<char>) -> Seq<char>
    decreases s.len(),
{
    if s.len() > 0 && is_white_space(s[0]) {
        trim_start(s.drop_first())
    } else {
        s
    }
}

/// `s` without the white space it ends with.
pub open spec fn trim_end(s: Seq<char>) -> Seq<char>
    decreases s.len(),
{
    if s.len() > 0 && is_white_space(s.last()) {
        trim_end(s.drop_last())
    } else {
        s
    }
}

/// `s` without the white space around it.
pub open spec fn trimmed(s: Seq<char>) -> Seq<char> {
    trim_end(trim_start(s))
}

/// What is left of a text without the white space at its end is its beginning, and ends
/// in something else.
pub proof fn lemma_trim_end(s: Seq<char>)
    ensures
        trim_end(s).is_prefix_of(s),
        trim_end(s).len() > 0 ==> !is_white_space(trim_end(s).last()),
    decreases s.len(),
{
    if s.len() > 0 && is_white_space(s.last()) {
        lemma_trim_end(s.drop_last());
        assert(trim_end(s) =~= s.subrange(0, trim_end(s).len() as int)) by {
            assert(trim_end(s) =~= s.drop_last().subrange(0, trim_end(s).len() as int));
        }
    } else {
        assert(s =~= s.subrange(0, s.len() as int));
    }
}

/// What is left of a text without the white space at its start begins with something
/// else.
pub proof fn lemma_trim_start(s: Seq<char>)
    ensures
        trim_start(s).len() > 0 ==> !is_white_space(trim_start(s)[0]),
    decreases s.len(),
{
    if s.len() > 0 && is_white_space(s[0]) {
        lemma_trim_start(s.drop_first());
    }
}

/// Whether `c` belongs to the Unicode property White_Space.
pub fn white_space(c: char) -> (r: bool)
    ensures
        r == is_white_space(c),
{
    ('\u{9}' <= c && c <= '\u{d}') || c == ' ' || c == '\u{85}' || c == '\u{a0}' || c == '\u{1680}'
        || ('\u{2000}' <= c && c <= '\u{200a}') || c == '\u{2028}' || c == '\u{2029}'
        || c == '\u{202f}' || c == '\u{205f}' || c == '\u{3000}'
}

/// The characters of `s`, one by one.
pub fn chars_of(s: &str) -> (r: Vec<char>)
    ensures
        r@ == s@,
{
    let mut out: Vec<char> = Vec::new();
    for c in it: s.chars()
        invariant
            it.seq() == s@,
            out@ == s@.take(it.index() as int),
    {
        out.push(c);
        assert(s@.take(it.index() as int + 1) =~= s@.take(it.index() as int).push(c));
    }
    assert(s@.take(s@.len() as int) =~= s@);
    out
}

/// The string of the characters `chars[from..to]`.
pub fn string_of(chars: &Vec<char>, from: usize, to: usize) -> (r: String)
    requires
        from <= to <= chars@.len(),
    ensures
        r@ == chars@.subrange(from as int, to as int),
{
    let mut out = String::new();
    let mut i: usize = from;
    while i < to
        invariant
            from <= i <= to <= chars@.len(),
            out@ == chars@.subrange(from as int, i as int),
        decreases to - i,
    {
        out.push(chars[i]);
        i = i + 1;
        assert(chars@.subrange(from as int, i as int) =~= chars@.subrange(from as int, i - 1).push(
            chars@[i - 1],
        ));
    }
    out
}

/// The string `head` followed by `tail`.
pub fn joined(head: &str, tail: &str) -> (r: String)
    ensures
        r@ == head@ + tail@,
{
    let mut out = head.to_owned();
    out.append(tail);
    out
}

/// Whether two strings hold the same characters.
pub fn same(a: &str, b: &str) -> (r: bool)
    ensures
        r == (a@ == b@),
{
    let chars = chars_of(a);
    is_text(&chars, b)
}

/// Whether `chars` begins with the characters of `prefix`.
pub fn begins_with(chars: &Vec<char>, prefix: &str) -> (r: bool)
    ensures
        r == prefix@.is_prefix_of(chars@),
{
    let wanted = chars_of(prefix);
    if wanted.len() > chars.len() {
        return false;
    }
    let mut i: usize = 0;
    while i < wanted.len()
        invariant
            i <= wanted@.len() <= chars@.len(),
            forall|j: int| 0 <= j < i ==> wanted@[j] == chars@[j],
            wanted@ == prefix@,
        decreases wanted.len() - i,
    {
        if wanted[i] != chars[i] {
            assert(prefix@[i as int] != chars@.subrange(0, prefix@.len() as int)[i as int]);
            return false;
        }
        i = i + 1;
    }
    assert(prefix@ =~= chars@.subrange(0, prefix@.len() as int));
    true
}

/// What follows `prefix` in `s`, if `s` begins with it.
pub open spec fn after_prefix(s: Seq<char>, prefix: Seq<char>) -> Option<Seq<char>> {
    if prefix.is_prefix_of(s) {
        Some(s.skip(prefix.len() as int))
    } else {
        None
    }
}

/// What follows `prefix` in `text`, if `text` begins with it.
pub fn strip_prefix(text: &str, prefix: &str) -> (r: Option<String>)
    ensures
        match r {
            Some(rest) => after_prefix(text@, prefix@) == Some(rest@),
            None => after_prefix(text@, prefix@) is None,
        },
{
    let chars = chars_of(text);
    if begins_with(&chars, prefix) {
        let skipped: usize = chars_of(prefix).len();
        assert(chars@.subrange(skipped as int, chars@.len() as int) =~= chars@.skip(skipped as int));
        Some(string_of(&chars, skipped, chars.len()))
    } else {
        None
    }
}

/// Whether `chars` are the characters of `text`.
pub fn is_text(chars: &Vec<char>, text: &str) -> (r: bool)
    ensures
        r == (chars@ == text@),
{
    let wanted = chars_of(text);
    let r = wanted.len() == chars.len() && begins_with(chars, text);
    assert(chars@.subrange(0, chars@.len() as int) =~= chars@);
    r
}

/// Whether `p` occurs in `s` at position `i`.
pub open spec fn occurs_at(s: Seq<char>, p: Seq<char>, i: int) -> bool {
    0 <= i && i + p.len() <= s.len() && s.subrange(i, i + p.len()) == p
}

/// Whether `p` occurs somewhere in `s`.
pub open spec fn occurs_in(s: Seq<char>, p: Seq<char>) -> bool {
    exists|i: int| occurs_at(s, p, i)
}

fn found_at(chars: &Vec<char>, wanted: &Vec<char>, at: usize) -> (r: bool)
    requires
        at + wanted@.len() <= chars@.len(),
    ensures
        r == occurs_at(chars@, wanted@, at as int),
{
    let ghost window = chars@.subrange(at as int, at + wanted@.len());
    let size: usize = chars.len();
    let mut i: usize = 0;
    while i < wanted.len()
        invariant
            at + wanted@.len() <= size == chars@.len(),
            i <= wanted@.len(),
            window == chars@.subrange(at as int, at + wanted@.len()),
            forall|j: int| 0 <= j < i ==> wanted@[j] == window[j],
        decreases wanted.len() - i,
    {
        if wanted[i] != chars[at + i] {
            assert(window[i as int] != wanted@[i as int]);
            return false;
        }
        assert(window[i as int] == wanted@[i as int]);
        i = i + 1;
    }
    assert(window =~= wanted@);
    true
}

/// Whether the characters of `pattern` occur somewhere in `chars`.
pub fn contains_text(chars: &Vec<char>, pattern: &str) -> (r: bool)
    ensures
        r == occurs_in(chars@, pattern@),
{
    let wanted = chars_of(pattern);
    if wanted.len() > chars.len() {
        return false;
    }
    let mut at: usize = 0;
    while at <= chars.len() - wanted.len()
        invariant
            wanted@ == pattern@,
            wanted@.len() <= chars@.len(),
            at <= chars@.len() - wanted@.len() + 1,
            forall|j: int| 0 <= j < at ==> !occurs_at(chars@, pattern@, j),
        decreases chars.len() + 1 - at,
    {
        if found_at(chars, &wanted, at) {
            return true;
        }
        if at == chars.len() - wanted.len() {
            return false;
        }
        at = at + 1;
    }
    false
}

/// Whether `chars` contains the character `wanted`.
pub fn contains_char(chars: &Vec<char>, wanted: char) -> (r: bool)
    ensures
        r == chars@.contains(wanted),
{
    let mut i: usize = 0;
    while i < chars.len()
        invariant
            i <= chars@.len(),
            forall|j: int| 0 <= j < i ==> chars@[j] != wanted,
        decreases chars.len() - i,
    {
        if chars[i] == wanted {
            return true;
        }
        i = i + 1;
    }
    false
}

/// Whether `s` ends with `suffix`.
pub open spec fn ends_with_text(s: Seq<char>, suffix: Seq<char>) -> bool {
    occurs_at(s, suffix, s.len() - suffix.len())
}

/// Whether `chars` ends with the characters of `suffix`.
pub fn ends_with(chars: &Vec<char>, suffix: &str) -> (r: bool)
    ensures
        r == ends_with_text(chars@, suffix@),
{
    let wanted = chars_of(suffix);
    wanted.len() <= chars.len() && found_at(chars, &wanted, chars.len() - wanted.len())
}

/// `c` with an ASCII capital made small.
pub open spec fn ascii_lower_char(c: char) -> char {
    if 'A' <= c <= 'Z' {
        (c as u32 + 32) as char
    } else {
        c
    }
}

/// `c` with an ASCII small letter made capital.
pub open spec fn ascii_upper_char(c: char) -> char {
    if 'a' <= c <= 'z' {
        (c as u32 - 32) as char
    } else {
        c
    }
}

/// `s` with its ASCII capitals made small, everything else kept.
pub open spec fn ascii_lower(s: Seq<char>) -> Seq<char> {
    Seq::new(s.len(), |i: int| ascii_lower_char(s[i]))
}

/// `s` with its ASCII small letters made capital, everything else kept.
pub open spec fn ascii_upper(s: Seq<char>) -> Seq<char> {
    Seq::new(s.len(), |i: int| ascii_upper_char(s[i]))
}

fn lower_char(c: char) -> (r: char)
    ensures
        r == ascii_lower_char(c),
{
    if 'A' <= c && c <= 'Z' {
        ((c as u8) + 32) as char
    } else {
        c
    }
}

/// The characters of `text` with ASCII capitals made small.
pub fn to_ascii_lower(text: &str) -> (r: Vec<char>)
    ensures
        r@ == ascii_lower(text@),
{
    let chars = chars_of(text);
    let mut out: Vec<char> = Vec::new();
    let mut i: usize = 0;
    while i < chars.len()
        invariant
            i <= chars@.len(),
            chars@ == text@,
            out@.len() == i,
            forall|j: int| 0 <= j < i ==> out@[j] == ascii_lower_char(text@[j]),
        decreases chars.len() - i,
    {
        out.push(lower_char(chars[i]));
        i = i + 1;
    }
    assert(out@ =~= ascii_lower(text@));
    out
}

/// Whether two strings are equal up to the case of ASCII letters.
pub fn same_ignoring_ascii_case(a: &str, b: &str) -> (r: bool)
    ensures
        r == (ascii_lower(a@) == ascii_lower(b@)),
{
    let left = to_ascii_lower(a);
    let right = to_ascii_lower(b);
    if left.len() != right.len() {
        return false;
    }
    let mut i: usize = 0;
    while i < left.len()
        invariant
            i <= left@.len() == right@.len(),
            left@ == ascii_lower(a@),
            right@ == ascii_lower(b@),
            forall|j: int| 0 <= j < i ==> left@[j] == right@[j],
        decreases left.len() - i,
    {
        if left[i] != right[i] {
            return false;
        }
        i = i + 1;
    }
    assert(left@ =~= right@);
    true
}

/// The message of the error with which `str::from_utf8` refuses bytes.
pub uninterp spec fn utf8_error_text(bytes: Seq<u8>) -> Seq<char>;

/// `str::from_utf8`: succeeds on bytes that are valid UTF-8 and gives the text
/// that they encode. Of the message with which it fails only this is claimed,
/// that it depends on the bytes alone.
#[verifier::external_body]
pub(crate) fn utf8_text(bytes: &[u8]) -> (r: Result<&str, String>)
    ensures
        match r {
            Ok(text) => vstd::utf8::valid_utf8(bytes@) && text@ == vstd::utf8::decode_utf8(bytes@),
            Err(e) => !vstd::utf8::valid_utf8(bytes@) && e@ == utf8_error_text(bytes@),
        },
{
    std::str::from_utf8(bytes).map_err(|e| e.to_string())
}

/// Whether `upper` has, for the ASCII characters that `text` begins with, their
/// capitals, and nothing else where `text` holds no others.
pub open spec fn capitalises_ascii(text: Seq<char>, upper: Seq<char>) -> bool {
    &&& forall|k: int|
        #![trigger text.take(k)]
        0 <= k <= text.len() && is_ascii_chars(text.take(k)) ==> ascii_upper(
            text.take(k),
        ).is_prefix_of(upper)
    &&& is_ascii_chars(text) ==> upper == ascii_upper(text)
}

/// Whether `lower` has, for the ASCII characters that `text` begins with, their small
/// letters, and nothing else where `text` holds no others.
pub open spec fn lowers_ascii(text: Seq<char>, lower: Seq<char>) -> bool {
    &&& forall|k: int|
        #![trigger text.take(k)]
        0 <= k <= text.len() && is_ascii_chars(text.take(k)) ==> ascii_lower(
            text.take(k),
        ).is_prefix_of(lower)
    &&& is_ascii_chars(text) ==> lower == ascii_lower(text)
}

/// What `str::to_uppercase` makes of a string.
pub uninterp spec fn uppercase(s: Seq<char>) -> Seq<char>;

/// What `str::to_lowercase` makes of a string.
pub uninterp spec fn lowercase(s: Seq<char>) -> Seq<char>;

/// `str::to_uppercase`: the Unicode capitals of a string. The result is a
/// function of the string. ASCII characters become those that
/// `str::to_ascii_uppercase` gives, as long as none but these come before them.
#[verifier::external_body]
pub(crate) fn to_uppercase(text: &str) -> (r: String)
    ensures
        r@ == uppercase(text@),
        capitalises_ascii(text@, r@),
{
    text.to_uppercase()
}

/// `str::to_lowercase`: the Unicode small letters of a string. The result is a
/// function of the string. ASCII characters become those that
/// `str::to_ascii_lowercase` gives, as long as none but these come before them.
#[verifier::external_body]
pub(crate) fn to_lowercase(text: &str) -> (r: String)
    ensures
        r@ == lowercase(text@),
        lowers_ascii(text@, r@),
{
    text.to_lowercase()
}

/// `text` without the white space around it.
pub fn trim(text: &str) -> (r: String)
    ensures
        r@ == trimmed(text@),
{
    let chars = chars_of(text);
    let (from, to) = trim_bounds(&chars);
    string_of(&chars, from, to)
}

/// The bounds between which `chars` stands when the white space around it is
/// taken away.
pub fn trim_bounds(chars: &Vec<char>) -> (r: (usize, usize))
    ensures
        r.0 <= r.1 <= chars@.len(),
        chars@.subrange(r.0 as int, r.1 as int) == trimmed(chars@),
{
    let mut from: usize = 0;
    assert(chars@.subrange(0, chars@.len() as int) =~= chars@);
    while from < chars.len() && white_space(chars[from])
        invariant
            from <= chars@.len(),
            trim_start(chars@.subrange(from as int, chars@.len() as int)) == trim_start(chars@),
        decreases chars.len() - from,
    {
        assert(chars@.subrange(from as int, chars@.len() as int).drop_first() =~= chars@.subrange(
            from + 1,
            chars@.len() as int,
        ));
        from = from + 1;
    }
    let ghost rest = chars@.subrange(from as int, chars@.len() as int);
    assert(trim_start(rest) == rest);
    let mut to: usize = chars.len();
    while to > from && white_space(chars[to - 1])
        invariant
            from <= to <= chars@.len(),
            rest == chars@.subrange(from as int, chars@.len() as int),
            trim_end(chars@.subrange(from as int, to as int)) == trim_end(rest),
        decreases to - from,
    {
        assert(chars@.subrange(from as int, to as int).drop_last() =~= chars@.subrange(
            from as int,
            to - 1,
        ));
        to = to - 1;
    }
    (from, to)
}

} // verus!
