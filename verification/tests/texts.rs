use turso_postgres::number::{decimal_int_string, decimal_string, float_text};
use turso_postgres::text::{
    begins_with, chars_of, contains_char, contains_text, ends_with, is_text, joined, same,
    same_ignoring_ascii_case, string_of, strip_prefix, to_ascii_lower, trim, white_space,
};

#[test]
fn white_space_is_that_of_unicode() {
    for c in '\u{0}'..=char::MAX {
        assert_eq!(white_space(c), c.is_whitespace(), "{c:?}");
    }
}

#[test]
fn texts_are_trimmed_as_std_trims_them() {
    for s in ["", " ", "a", " a", "a ", "\t a b \u{2003}\u{85}", "\u{200b}a"] {
        assert_eq!(trim(s), s.trim());
    }
}

#[test]
fn texts_are_searched_as_std_searches_them() {
    for s in ["", "a", "abc", "aab", "sqlite_schema x", "ab ab", "é-00"] {
        let chars = chars_of(s);
        for p in ["", "a", "ab", "b", "sqlite_schema", "-00", "é", "abcd"] {
            assert_eq!(begins_with(&chars, p), s.starts_with(p));
            assert_eq!(ends_with(&chars, p), s.ends_with(p));
            assert_eq!(contains_text(&chars, p), s.contains(p));
            assert_eq!(is_text(&chars, p), s == p);
            assert_eq!(same(s, p), s == p);
            assert_eq!(strip_prefix(s, p), s.strip_prefix(p).map(|r| r.to_owned()));
            assert_eq!(joined(s, p), format!("{s}{p}"));
        }
        assert_eq!(contains_char(&chars, 'b'), s.contains('b'));
        assert_eq!(string_of(&chars, 0, chars.len()), s);
    }
}

#[test]
fn letters_are_lowered_as_std_lowers_them() {
    for s in ["", "AbZz@[`{", "ÄÖ", "İ"] {
        let lower: String = to_ascii_lower(s).into_iter().collect();
        assert_eq!(lower, s.to_ascii_lowercase());
        for t in ["", "aBzZ@[`{", "äÖ", "ÄÖ"] {
            assert_eq!(same_ignoring_ascii_case(s, t), s.eq_ignore_ascii_case(t));
        }
    }
}

#[test]
fn integers_are_written_as_std_writes_them() {
    for n in [0, 9, 10, 12345, u64::MAX] {
        assert_eq!(decimal_string(n), n.to_string());
    }
    for i in [0, -1, 10, -10, i64::MAX, i64::MIN] {
        assert_eq!(decimal_int_string(i), i.to_string());
    }
}

#[test]
fn floats_have_a_grammar() {
    for s in ["1", "1.", ".5", "-1.5e-3", "+inf", "NaN", "-Infinity", "1E5"] {
        assert!(float_text(s), "{s}");
    }
    for s in ["", ".", "e5", "1e", "1e+", "1_0", "infin", "0x1", "1.2.3", "--1"] {
        assert!(!float_text(s), "{s}");
    }
}
