//! What the fields of a row hold, value by value and type by type.

use pgwire::api::results::DataRowEncoder;
use vstd::prelude::*;
use vstd::utf8::{encode_utf8, is_ascii_chars_encode_utf8};

use crate::error::{SessionError, SessionErrorView};
use crate::hex::hex_encoded;
use crate::number::{decimal_int, written_integer_reads_back};
use crate::parameter::parameter_meaning;
use crate::pgtype::{
    array_of, column_type, has_array_name, listed_type_name, ColumnTypeKind, PgType,
};
use crate::row::{
    escaped, field_of, format_at, has_west_offset_at, holds_elements, is_array_syntax,
    is_left_to_caller, names_zone, needs_quotes, row_bytes, row_fields, row_is_standard, row_slots,
    slots_of, text_payload, took_field, type_at, value_field, wants_vector, Column, CoreVector,
    Encoded, FieldOutcome,
};
use crate::text::{ascii_lower, ends_with_text};
use crate::value::{BindValueView, FieldFormat, Value};
use crate::vector::{big_endian_byte, number_is_the_sum_of_its_bytes, vector_bytes};

verus! {

/// A field is its length in four bytes, the highest places first, and then the bytes of
/// the value.
pub proof fn field_is_length_and_bytes(payload: Seq<u8>)
    requires
        payload.len() < 0x1_0000_0000,
    ensures
        field_of(payload).skip(4) == payload,
        field_of(payload).len() == payload.len() + 4,
        ((field_of(payload)[0] as int * 256 + field_of(payload)[1]) * 256 + field_of(payload)[2])
            * 256 + field_of(payload)[3] == payload.len(),
{
    assert(field_of(payload).skip(4) =~= payload);
    number_is_the_sum_of_its_bytes(payload.len() as u32);
}

/// A missing value is a field of length minus one, in a column of any type.
pub proof fn missing_values_have_no_bytes(
    vector: Option<CoreVector>,
    ty: PgType,
    format: FieldFormat,
    slot: (u32, bool),
)
    ensures
        value_field(Value::Null, vector, ty, format, slot) == Ok::<
            Option<Seq<u8>>,
            SessionErrorView,
        >(Some(seq![255u8, 255u8, 255u8, 255u8])),
{
}

proof fn lemma_eight_bytes(i: i64)
    ensures
        ({
            let b = crate::row::big_endian_i64(i);
            let high = ((b[0] as int * 256 + b[1]) * 256 + b[2]) * 256 + b[3];
            let low = ((b[4] as int * 256 + b[5]) * 256 + b[6]) * 256 + b[7];
            &&& b.len() == 8
            &&& high * 0x1_0000_0000 + low == if i >= 0 {
                i as int
            } else {
                i + 0x1_0000_0000_0000_0000
            }
        }),
{
    let wrapped = i as int % 0x1_0000_0000_0000_0000;
    let high = (wrapped / 0x1_0000_0000) as u32;
    let low = (wrapped % 0x1_0000_0000) as u32;
    number_is_the_sum_of_its_bytes(high);
    number_is_the_sum_of_its_bytes(low);
    let b = crate::row::big_endian_i64(i);
    assert(b[0] == big_endian_byte(high, 0) && b[1] == big_endian_byte(high, 1));
    assert(b[2] == big_endian_byte(high, 2) && b[3] == big_endian_byte(high, 3));
    assert(b[4] == big_endian_byte(low, 0) && b[5] == big_endian_byte(low, 1));
    assert(b[6] == big_endian_byte(low, 2) && b[7] == big_endian_byte(low, 3));
    assert(wrapped == high * 0x1_0000_0000 + low);
    assert(wrapped == if i >= 0 {
        i as int
    } else {
        i + 0x1_0000_0000_0000_0000
    });
}

/// An integer goes out as its decimal digits, or in binary as eight bytes that make it
/// up, in a column of every type but those of truth values, OIDs and vectors; and what
/// goes out as text comes back as the same integer through an integer parameter.
pub proof fn integers_go_out_whole(
    i: i64,
    vector: Option<CoreVector>,
    ty: PgType,
    format: FieldFormat,
    oid: u32,
)
    requires
        ty != PgType::Bool,
        ty != PgType::Oid,
        ty.oid_number() != 40001,
    ensures
        value_field(Value::Integer(i), vector, ty, format, (oid, false)) == Ok::<
            Option<Seq<u8>>,
            SessionErrorView,
        >(Some(field_of(encode_utf8(decimal_int(i as int))))),
        ty == PgType::Int2 || ty == PgType::Int4 || ty == PgType::Int8 ==> parameter_meaning(
            encode_utf8(decimal_int(i as int)),
            ty,
            FieldFormat::Text,
        ) == Ok::<BindValueView, Seq<char>>(BindValueView::Integer(i as int)),
        exists|b: Seq<u8>|
            {
                &&& value_field(Value::Integer(i), vector, ty, format, (oid, true)) == Ok::<
                    Option<Seq<u8>>,
                    SessionErrorView,
                >(Some(#[trigger] field_of(b)))
                &&& b.len() == 8
                &&& (((b[0] as int * 256 + b[1]) * 256 + b[2]) * 256 + b[3]) * 0x1_0000_0000 + (((
                b[4] as int * 256 + b[5]) * 256 + b[6]) * 256 + b[7]) == if i >= 0 {
                    i as int
                } else {
                    i + 0x1_0000_0000_0000_0000
                }
            },
{
    let text = decimal_int(i as int);
    vstd::utf8::encode_utf8_valid_utf8(text);
    vstd::utf8::encode_utf8_decode_utf8(text);
    written_integer_reads_back(i as int);
    lemma_eight_bytes(i);
    let b = crate::row::big_endian_i64(i);
    assert(value_field(Value::Integer(i), vector, ty, format, (oid, true)) == Ok::<
        Option<Seq<u8>>,
        SessionErrorView,
    >(Some(field_of(b))));
}

/// An integer in a column of truth values goes out as a `t` or the byte one unless it is
/// zero, and as an `f` or the byte zero if it is.
pub proof fn truth_goes_out_as_one_letter(
    i: i64,
    vector: Option<CoreVector>,
    format: FieldFormat,
    oid: u32,
)
    ensures
        value_field(Value::Integer(i), vector, PgType::Bool, format, (oid, false)) == Ok::<
            Option<Seq<u8>>,
            SessionErrorView,
        >(
            Some(
                field_of(
                    if i == 0 {
                        seq![102u8]
                    } else {
                        seq![116u8]
                    },
                ),
            ),
        ),
        value_field(Value::Integer(i), vector, PgType::Bool, format, (oid, true)) == Ok::<
            Option<Seq<u8>>,
            SessionErrorView,
        >(
            Some(
                field_of(
                    if i == 0 {
                        seq![0u8]
                    } else {
                        seq![1u8]
                    },
                ),
            ),
        ),
{
    is_ascii_chars_encode_utf8(seq!['t']);
    is_ascii_chars_encode_utf8(seq!['f']);
    assert(seq!['t'][0] as u8 == 116u8 && seq!['f'][0] as u8 == 102u8);
    assert(encode_utf8(seq!['t']) =~= seq![116u8]);
    assert(encode_utf8(seq!['f']) =~= seq![102u8]);
}

/// An integer in a column of OIDs goes out as its decimal digits, or in binary as the
/// four bytes that make it up, as far as a `u32` holds it, and is refused otherwise.
pub proof fn oids_go_out_whole_or_not_at_all(
    i: i64,
    vector: Option<CoreVector>,
    format: FieldFormat,
    oid: u32,
)
    ensures
        0 <= i <= 0xffff_ffff ==> value_field(
            Value::Integer(i),
            vector,
            PgType::Oid,
            format,
            (oid, false),
        ) == Ok::<Option<Seq<u8>>, SessionErrorView>(
            Some(field_of(encode_utf8(decimal_int(i as int)))),
        ),
        0 <= i <= 0xffff_ffff ==> exists|b: Seq<u8>|
            {
                &&& value_field(Value::Integer(i), vector, PgType::Oid, format, (oid, true))
                    == Ok::<Option<Seq<u8>>, SessionErrorView>(Some(#[trigger] field_of(b)))
                &&& b.len() == 4
                &&& ((b[0] as int * 256 + b[1]) * 256 + b[2]) * 256 + b[3] == i
            },
        !(0 <= i <= 0xffff_ffff) ==> forall|binary: bool|
            #[trigger] value_field(Value::Integer(i), vector, PgType::Oid, format, (oid, binary))
                == Err::<Option<Seq<u8>>, SessionErrorView>(
                SessionErrorView::ConversionError(
                    "OID value is out of range: "@ + decimal_int(i as int),
                ),
            ),
{
    if 0 <= i <= 0xffff_ffff {
        number_is_the_sum_of_its_bytes(i as u32);
        let b = crate::row::oid_payload(i as u32, true);
        assert(b[0] == big_endian_byte(i as u32, 0) && b[1] == big_endian_byte(i as u32, 1));
        assert(b[2] == big_endian_byte(i as u32, 2) && b[3] == big_endian_byte(i as u32, 3));
        assert(value_field(Value::Integer(i), vector, PgType::Oid, format, (oid, true)) == Ok::<
            Option<Seq<u8>>,
            SessionErrorView,
        >(Some(field_of(b))));
    }
}

/// A text goes out as its UTF-8, character for character, in a column of its own type,
/// of every type but those of internal characters, timestamps with time zone, vectors
/// and two older arrays. In binary it does so for those arrays too, and in the columns
/// of any other type; in text such a column may put it in quotes.
pub proof fn texts_go_out_whole(
    text: String,
    vector: Option<CoreVector>,
    ty: PgType,
    format: FieldFormat,
    oid: u32,
)
    requires
        ty != PgType::Char,
        ty != PgType::Timestamptz,
        ty.oid_number() != 40001,
    ensures
        value_field(Value::Text(text), vector, ty, format, (oid, true)) == Ok::<
            Option<Seq<u8>>,
            SessionErrorView,
        >(Some(field_of(encode_utf8(text@)))),
        ty.oid_number() != 22 && ty.oid_number() != 30 ==> value_field(
            Value::Text(text),
            vector,
            ty,
            format,
            (ty.oid_number(), false),
        ) == Ok::<Option<Seq<u8>>, SessionErrorView>(Some(field_of(encode_utf8(text@)))),
        has_array_name(ty) ==> value_field(Value::Text(text), vector, ty, format, (oid, false))
            == Ok::<Option<Seq<u8>>, SessionErrorView>(Some(field_of(encode_utf8(text@)))),
        !has_array_name(ty) && oid != ty.oid_number() ==> value_field(
            Value::Text(text),
            vector,
            ty,
            format,
            (oid, false),
        ) == Ok::<Option<Seq<u8>>, SessionErrorView>(
            Some(field_of(text_payload(oid, false, text@))),
        ),
        !has_array_name(ty) && (ty.oid_number() == 22 || ty.oid_number() == 30) ==> value_field(
            Value::Text(text),
            vector,
            ty,
            format,
            (ty.oid_number(), false),
        ) == Ok::<Option<Seq<u8>>, SessionErrorView>(
            Some(field_of(text_payload(ty.oid_number(), false, text@))),
        ),
{
}

/// A text in a column of arrays stands in quotes where it is empty, could be taken for a
/// missing value, or holds one of the characters of arrays, and as it is otherwise; in a
/// column of any other type it never does.
pub proof fn texts_are_quoted_within_arrays_alone(oid: u32, text: Seq<char>, i: int)
    ensures
        text_payload(oid, true, text) == encode_utf8(text),
        !holds_elements(oid) ==> text_payload(oid, false, text) == encode_utf8(text),
        holds_elements(oid) && (text.len() == 0 || ascii_lower(text) == "null"@ || (0 <= i
            < text.len() && (text[i] == '"' || text[i] == '\\' || text[i] == '{' || text[i] == '}'
            || text[i] == ',' || text[i] == ' ' || '\t' <= text[i] <= '\r'))) ==> text_payload(
            oid,
            false,
            text,
        ) == encode_utf8("\""@ + escaped(text) + "\""@),
        text.len() > 0 && ascii_lower(text) != "null"@ && (forall|j: int|
            0 <= j < text.len() ==> !(#[trigger] text[j] == '"' || text[j] == '\\' || text[j] == '{'
                || text[j] == '}' || text[j] == ',' || text[j] == ' '
                || '\t' <= text[j] <= '\r')) ==> text_payload(oid, false, text) == encode_utf8(text),
        oid == 22 || oid == 30 ==> holds_elements(oid),
        oid != 22 && oid != 30 ==> (holds_elements(oid) <==> oid != 2287 && (
        listed_type_name(oid) matches Some(name) && name.len() > 0 && name[0] == '_')),
{
    if 0 <= i < text.len() && (text[i] == '"' || text[i] == '\\' || text[i] == '{' || text[i] == '}'
        || text[i] == ',' || text[i] == ' ' || '\t' <= text[i] <= '\r') {
        assert(is_array_syntax(text[i]));
        assert(needs_quotes(text));
    }
}

/// Within the quotes every quote and every backslash has a backslash before it, and no other
/// character changes.
pub proof fn quotes_and_backslashes_are_escaped(a: Seq<char>, b: Seq<char>, c: char)
    ensures
        escaped(Seq::empty()) == Seq::<char>::empty(),
        escaped(seq![c]) == if c == '"' || c == '\\' {
            seq!['\\', c]
        } else {
            seq![c]
        },
        escaped(a + b) == escaped(a) + escaped(b),
    decreases b.len(),
{
    assert(seq![c].drop_last() =~= Seq::<char>::empty());
    assert(escaped(seq![c].drop_last()) =~= Seq::<char>::empty());
    assert(escaped(seq![c]) =~= if c == '"' || c == '\\' {
        seq!['\\', c]
    } else {
        seq![c]
    });
    if b.len() == 0 {
        assert(a + b =~= a);
        assert(escaped(a) + escaped(b) =~= escaped(a));
    } else {
        assert((a + b).drop_last() =~= a + b.drop_last());
        quotes_and_backslashes_are_escaped(a, b.drop_last(), c);
        assert(escaped(a + b) =~= escaped(a) + escaped(b));
    }
}

/// A type has the name of an array if the crate of types lists it under one that begins
/// with an underscore.
pub proof fn array_names_begin_with_an_underscore(ty: PgType)
    ensures
        has_array_name(ty) <==> (listed_type_name(ty.oid_number()) matches Some(name) && name.len()
            > 0 && name[0] == '_'),
{
}

/// A timestamp with time zone goes out as it is if it names its zone, and with that of
/// UTC behind it if it does not.
pub proof fn timestamps_go_out_with_a_zone(
    text: String,
    vector: Option<CoreVector>,
    format: FieldFormat,
    binary: bool,
)
    ensures
        names_zone(text@) ==> value_field(
            Value::Text(text),
            vector,
            PgType::Timestamptz,
            format,
            (1184, binary),
        ) == Ok::<Option<Seq<u8>>, SessionErrorView>(Some(field_of(encode_utf8(text@)))),
        !names_zone(text@) ==> value_field(
            Value::Text(text),
            vector,
            PgType::Timestamptz,
            format,
            (1184, binary),
        ) == Ok::<Option<Seq<u8>>, SessionErrorView>(Some(field_of(encode_utf8(text@ + "+00"@)))),
{
}

/// So it does in a column that the encoder knows by another type, where the zone comes
/// before the quotes.
pub proof fn timestamps_get_their_zone_before_quotes(
    text: String,
    vector: Option<CoreVector>,
    format: FieldFormat,
    slot: (u32, bool),
)
    requires
        slot.0 != 1184,
    ensures
        !names_zone(text@) ==> value_field(
            Value::Text(text),
            vector,
            PgType::Timestamptz,
            format,
            slot,
        ) == Ok::<Option<Seq<u8>>, SessionErrorView>(
            Some(field_of(text_payload(slot.0, slot.1, text@ + "+00"@))),
        ),
        names_zone(text@) && !has_array_name(PgType::Timestamptz) ==> value_field(
            Value::Text(text),
            vector,
            PgType::Timestamptz,
            format,
            slot,
        ) == Ok::<Option<Seq<u8>>, SessionErrorView>(
            Some(field_of(text_payload(slot.0, slot.1, text@))),
        ),
{
}

/// A timestamp names its zone by a plus sign or the letter `Z`, wherever they stand, or
/// by an offset behind a time of day: a minus sign and two digits, and as many for the
/// minutes, with a colon before them or without.
pub proof fn zones_are_named_in_these_ways(
    time: Seq<char>,
    h1: char,
    h2: char,
    m1: char,
    m2: char,
    text: Seq<char>,
)
    requires
        '0' <= h1 <= '9' && '0' <= h2 <= '9' && '0' <= m1 <= '9' && '0' <= m2 <= '9',
        time.contains(':'),
    ensures
        text.contains('+') || text.contains('Z') ==> names_zone(text),
        names_zone(time + seq!['-', h1, h2]),
        names_zone(time + seq!['-', h1, h2, m1, m2]),
        names_zone(time + seq!['-', h1, h2, ':', m1, m2]),
        names_zone(text + "-00"@),
{
    let p = time.len() as int;
    let a = time + seq!['-', h1, h2];
    assert(a.take(p) =~= time);
    assert(a.skip(p) =~= seq!['-', h1, h2]);
    assert(has_west_offset_at(a, p));
    let b = time + seq!['-', h1, h2, m1, m2];
    assert(b.take(p) =~= time);
    assert(b.skip(p) =~= seq!['-', h1, h2, m1, m2]);
    assert(has_west_offset_at(b, p));
    let c = time + seq!['-', h1, h2, ':', m1, m2];
    assert(c.take(p) =~= time);
    assert(c.skip(p) =~= seq!['-', h1, h2, ':', m1, m2]);
    assert(has_west_offset_at(c, p));
    let d = text + "-00"@;
    assert(d.subrange(text.len() as int, d.len() as int) =~= "-00"@);
    assert(ends_with_text(d, "-00"@));
}

/// An offset may give the seconds too, behind another colon.
pub proof fn offsets_may_give_seconds(time: Seq<char>, offset: Seq<char>)
    requires
        time.contains(':'),
        offset.len() == 9 && offset[0] == '-' && offset[3] == ':' && offset[6] == ':',
        '0' <= offset[1] <= '9' && '0' <= offset[2] <= '9' && '0' <= offset[4] <= '9',
        '0' <= offset[5] <= '9' && '0' <= offset[7] <= '9' && '0' <= offset[8] <= '9',
    ensures
        names_zone(time + offset),
{
    let text = time + offset;
    let p = time.len() as int;
    assert(text.take(p) =~= time);
    assert(text.skip(p) =~= offset);
    assert(has_west_offset_at(text, p));
}

/// A timestamp that names its zone does so in one of these ways and in no other.
pub proof fn zones_are_named_in_no_other_way(text: Seq<char>)
    requires
        names_zone(text),
        !text.contains('+'),
        !text.contains('Z'),
        !ends_with_text(text, "-00"@),
    ensures
        exists|time: Seq<char>, offset: Seq<char>|
            {
                &&& text == #[trigger] (time + offset)
                &&& time.contains(':')
                &&& offset.len() == 3 || offset.len() == 5 || offset.len() == 6 || offset.len() == 9
                &&& offset[0] == '-'
                &&& forall|i: int|
                    1 <= i < offset.len() ==> if offset.len() >= 6 && i % 3 == 0 {
                        #[trigger] offset[i] == ':'
                    } else {
                        '0' <= offset[i] <= '9'
                    }
            },
{
    let p = choose|p: int| has_west_offset_at(text, p);
    let time = text.take(p);
    let offset = text.skip(p);
    assert(text =~= time + offset);
    assert forall|i: int| 1 <= i < offset.len() implies if offset.len() >= 6 && i % 3 == 0 {
        #[trigger] offset[i] == ':'
    } else {
        '0' <= offset[i] <= '9'
    } by {
        assert(i == 1 || i == 2 || i == 3 || i == 4 || i == 5 || i == 6 || i == 7 || i == 8);
    }
}

/// A timestamp that has none of those names no zone: one without a minus sign, a date
/// alone, and one that does not end in a digit.
pub proof fn other_timestamps_name_no_zone(text: Seq<char>)
    requires
        !text.contains('+'),
        !text.contains('Z'),
        !text.contains('-') || (!text.contains(':') && !ends_with_text(text, "-00"@)) || (
        text.len() > 0 && !('0' <= text.last() <= '9')),
    ensures
        !names_zone(text),
{
    reveal_strlit("-00");
    if ends_with_text(text, "-00"@) {
        let tail = text.subrange(text.len() - 3, text.len() as int);
        assert(tail[0] == '-' && tail[2] == '0');
        assert(text[text.len() - 3] == '-');
        assert(text.last() == tail[2]);
    }
    assert forall|p: int| !has_west_offset_at(text, p) by {
        if has_west_offset_at(text, p) {
            let offset = text.skip(p);
            assert(offset[0] == text[p]);
            assert(text[p] == '-');
            assert(offset.last() == text.last());
            let k = choose|k: int| 0 <= k < text.take(p).len() && text.take(p)[k] == ':';
            assert(text[k] == ':');
        }
    }
}

/// An internal character goes out as its first byte: as that byte in binary, and in text
/// as the number of the byte, less 256 from 128 on. An empty one is refused.
pub proof fn internal_characters_go_out_as_their_byte(
    text: String,
    vector: Option<CoreVector>,
    format: FieldFormat,
    oid: u32,
)
    ensures
        encode_utf8(text@).len() > 0 ==> {
            let b = encode_utf8(text@)[0];
            &&& value_field(Value::Text(text), vector, PgType::Char, format, (oid, true)) == Ok::<
                Option<Seq<u8>>,
                SessionErrorView,
            >(Some(field_of(seq![b])))
            &&& value_field(Value::Text(text), vector, PgType::Char, format, (oid, false)) == Ok::<
                Option<Seq<u8>>,
                SessionErrorView,
            >(
                Some(
                    field_of(
                        encode_utf8(
                            decimal_int(
                                if b < 128 {
                                    b as int
                                } else {
                                    b - 256
                                },
                            ),
                        ),
                    ),
                ),
            )
        },
        encode_utf8(text@).len() == 0 ==> forall|binary: bool|
            #[trigger] value_field(Value::Text(text), vector, PgType::Char, format, (oid, binary))
                == Err::<Option<Seq<u8>>, SessionErrorView>(
                SessionErrorView::ConversionError("PostgreSQL internal char cannot be empty"@),
            ),
{
    if encode_utf8(text@).len() > 0 {
        let b = encode_utf8(text@)[0];
        let signed = crate::row::signed_byte(b);
        assert(signed as int % 0x100 == b);
        assert(seq![(signed as int % 0x100) as u8] =~= seq![b]);
    }
}

/// A byte string goes out as it is in binary, and in text as a backslash, an `x` and its
/// hexadecimal digits, in a column of every type but vectors; in one of arrays of byte
/// strings, the text stands in quotes, with the backslash doubled.
pub proof fn byte_strings_go_out_whole(
    bytes: Vec<u8>,
    vector: Option<CoreVector>,
    ty: PgType,
    format: FieldFormat,
    oid: u32,
)
    requires
        ty.oid_number() != 40001,
    ensures
        value_field(Value::Blob(bytes), vector, ty, format, (oid, true)) == Ok::<
            Option<Seq<u8>>,
            SessionErrorView,
        >(Some(field_of(bytes@))),
        oid != 1001 ==> value_field(Value::Blob(bytes), vector, ty, format, (oid, false)) == Ok::<
            Option<Seq<u8>>,
            SessionErrorView,
        >(Some(field_of(encode_utf8("\\x"@ + hex_encoded(bytes@))))),
        oid == 1001 ==> value_field(Value::Blob(bytes), vector, ty, format, (oid, false)) == Ok::<
            Option<Seq<u8>>,
            SessionErrorView,
        >(Some(field_of(encode_utf8("\"\\"@ + ("\\x"@ + hex_encoded(bytes@)) + "\""@)))),
{
}

/// A floating point number is left to the caller, in a column of every type but vectors.
pub proof fn floats_are_left_to_the_caller(
    bits: u64,
    vector: Option<CoreVector>,
    ty: PgType,
    format: FieldFormat,
    slot: (u32, bool),
)
    requires
        ty.oid_number() != 40001,
    ensures
        value_field(Value::Real(bits), vector, ty, format, slot) == Ok::<
            Option<Seq<u8>>,
            SessionErrorView,
        >(None),
{
}

/// A vector goes out as its text, or in binary as its dimensions in two bytes, two zero
/// bytes, and its elements in four bytes each, the highest places first. One that is not
/// dense or not of single precision is refused, and so is one with too many dimensions
/// for two bytes.
pub proof fn vectors_go_out_whole(
    value: Value,
    vector: CoreVector,
    ty: PgType,
    slot: (u32, bool),
    k: int,
)
    requires
        !(value is Null),
        ty.oid_number() == 40001,
    ensures
        !vector.dense_f32 ==> forall|format: FieldFormat|
            #[trigger] value_field(value, Some(vector), ty, format, slot) == Err::<
                Option<Seq<u8>>,
                SessionErrorView,
            >(
                SessionErrorView::ConversionError(
                    "PostgreSQL vector values must use dense float32 storage"@,
                ),
            ),
        vector.dense_f32 ==> value_field(value, Some(vector), ty, FieldFormat::Text, slot) == Ok::<
            Option<Seq<u8>>,
            SessionErrorView,
        >(Some(field_of(encode_utf8(vector.text@)))),
        vector.dense_f32 && vector.dims > 65535 ==> value_field(
            value,
            Some(vector),
            ty,
            FieldFormat::Binary,
            slot,
        ) == Err::<Option<Seq<u8>>, SessionErrorView>(
            SessionErrorView::ConversionError(
                "vector dimensions exceed PostgreSQL binary format limits"@,
            ),
        ),
        vector.dense_f32 && vector.dims <= 65535 ==> {
            let b = vector_bytes(vector.dims as int, vector.elements@);
            &&& value_field(value, Some(vector), ty, FieldFormat::Binary, slot) == Ok::<
                Option<Seq<u8>>,
                SessionErrorView,
            >(Some(field_of(b)))
            &&& b.len() == 4 + 4 * vector.elements@.len()
            &&& b[0] as int * 256 + b[1] == vector.dims
            &&& b[2] == 0 && b[3] == 0
            &&& 0 <= k < vector.elements@.len() ==> ((b[4 + 4 * k] as int * 256 + b[5 + 4 * k])
                * 256 + b[6 + 4 * k]) * 256 + b[7 + 4 * k] == vector.elements@[k]
        },
{
    if vector.dense_f32 && vector.dims <= 65535 && 0 <= k < vector.elements@.len() {
        let b = vector_bytes(vector.dims as int, vector.elements@);
        let e = vector.elements@[k];
        number_is_the_sum_of_its_bytes(e);
        assert((4 * k) / 4 == k && (4 * k) % 4 == 0);
        assert((4 * k + 1) / 4 == k && (4 * k + 1) % 4 == 1);
        assert((4 * k + 2) / 4 == k && (4 * k + 2) % 4 == 2);
        assert((4 * k + 3) / 4 == k && (4 * k + 3) % 4 == 3);
        assert(b[4 + 4 * k] == big_endian_byte(e, 0));
        assert(b[5 + 4 * k] == big_endian_byte(e, 1));
        assert(b[6 + 4 * k] == big_endian_byte(e, 2));
        assert(b[7 + 4 * k] == big_endian_byte(e, 3));
    }
}

/// Encoding a value adds the bytes of its field behind those that are there and uses up
/// one column, or, for a floating point number or an error, leaves the row as it is.
pub proof fn encoding_adds_the_field_or_nothing(
    r: Result<Encoded, SessionError>,
    before: DataRowEncoder,
    after: DataRowEncoder,
    value: Value,
    outcome: FieldOutcome,
)
    requires
        took_field(r, before, after, value, outcome),
    ensures
        outcome matches Ok(Some(bytes)) ==> {
            &&& r == Ok::<Encoded, SessionError>(Encoded::Written)
            &&& row_bytes(after) == row_bytes(before) + bytes
            &&& row_slots(after) == row_slots(before).skip(1)
            &&& row_is_standard(after) == row_is_standard(before)
        },
        outcome matches Ok(None) ==> after == before && (value matches Value::Real(bits) && r
            == Ok::<Encoded, SessionError>(Encoded::Real(bits))),
        outcome matches Err(e) ==> after == before && r is Err && r->Err_0@ == e,
{
    assert(row_slots(before).drop_first() =~= row_slots(before).skip(1));
}

/// A vector has to be read for every value in a column of vectors but a missing one, and
/// for no other.
pub proof fn vectors_are_read_for_vector_columns(value: Value, ty: PgType)
    ensures
        wants_vector(value, ty) <==> ty.oid_number() == 40001 && value != Value::Null,
{
}

/// A row goes on with the next value after each that is written, stops at the first that
/// is left to the caller, and fails at the first that cannot be written.
pub proof fn rows_go_value_by_value(
    columns: Seq<Column>,
    values: Seq<Value>,
    vectors: Seq<Option<CoreVector>>,
    slots: Seq<(u32, bool)>,
    from: int,
)
    requires
        0 <= from < values.len() <= columns.len(),
        columns[from].pg_type.oid_number() == 40001 && values[from] != Value::Null
            ==> vectors[from] is Some,
    ensures
        ({
            let outcome = value_field(
                values[from],
                vectors[from],
                columns[from].pg_type,
                columns[from].format,
                slots[0],
            );
            let (bytes, end) = row_fields(columns, values, vectors, slots, from);
            let (rest, last) = row_fields(columns, values, vectors, slots.drop_first(), from + 1);
            match outcome {
                Ok(Some(field)) => bytes == field + rest && end == last,
                Ok(None) => bytes.len() == 0 && end == Ok::<int, SessionErrorView>(from),
                Err(e) => bytes.len() == 0 && end == Err::<int, SessionErrorView>(e),
            }
        }),
{
}

/// A value beyond the columns goes out as one in a column of texts would.
pub proof fn values_beyond_the_columns_are_texts(
    columns: Seq<Column>,
    values: Seq<Value>,
    vectors: Seq<Option<CoreVector>>,
    slots: Seq<(u32, bool)>,
    from: int,
)
    requires
        columns.len() <= from < values.len(),
    ensures
        type_at(columns, from) == PgType::Text,
        format_at(columns, from) == FieldFormat::Text,
        ({
            let outcome = value_field(
                values[from],
                vectors[from],
                PgType::Text,
                FieldFormat::Text,
                slots[0],
            );
            let (bytes, end) = row_fields(columns, values, vectors, slots, from);
            let (rest, last) = row_fields(columns, values, vectors, slots.drop_first(), from + 1);
            match outcome {
                Ok(Some(field)) => bytes == field + rest && end == last,
                Ok(None) => bytes.len() == 0 && end == Ok::<int, SessionErrorView>(from),
                Err(e) => bytes.len() == 0 && end == Err::<int, SessionErrorView>(e),
            }
        }),
{
}

/// What is left to the caller is a floating point number outside the columns of vectors, and
/// in those a value from which the engine read no vector.
pub proof fn floats_and_unread_vectors_are_left(
    columns: Seq<Column>,
    values: Seq<Value>,
    vectors: Seq<Option<CoreVector>>,
    i: int,
)
    requires
        0 <= i < values.len(),
    ensures
        ({
            let in_vectors = i < columns.len() && columns[i].pg_type.oid_number() == 40001;
            &&& !in_vectors ==> (is_left_to_caller(columns, values, vectors, i)
                <==> values[i] is Real)
            &&& in_vectors ==> (is_left_to_caller(columns, values, vectors, i) <==> values[i]
                != Value::Null && vectors[i] is None)
        }),
{
}

/// A row stops where the engine could read no vector from a value in a column of
/// vectors, and at its end.
pub proof fn rows_stop_at_their_end(
    columns: Seq<Column>,
    values: Seq<Value>,
    vectors: Seq<Option<CoreVector>>,
    slots: Seq<(u32, bool)>,
    from: int,
)
    requires
        0 <= from <= values.len() <= columns.len(),
        from == values.len() || (columns[from].pg_type.oid_number() == 40001 && values[from]
            != Value::Null && vectors[from] is None),
    ensures
        row_fields(columns, values, vectors, slots, from) == (
            Seq::<u8>::empty(),
            Ok::<int, SessionErrorView>(from),
        ),
{
}

/// Every column is announced to the encoder by the OID of its type and its format.
pub proof fn columns_keep_type_and_format(columns: Seq<Column>, i: int)
    requires
        0 <= i < columns.len(),
    ensures
        slots_of(columns).len() == columns.len(),
        slots_of(columns)[i].0 == columns[i].pg_type.oid_number(),
        slots_of(columns)[i].1 <==> columns[i].format == FieldFormat::Binary,
        type_at(columns, i) == columns[i].pg_type,
        format_at(columns, i) == columns[i].format,
{
}

/// A column of structs or unions is one of JSONB, whatever it was declared as; any other
/// has its declared type unless that says no more than text, and then its base, if it
/// has one. An array of any depth is an array of that.
pub proof fn columns_have_declared_type_or_base(
    kind: ColumnTypeKind,
    declared: PgType,
    base: Option<PgType>,
    depth: int,
)
    ensures
        kind != ColumnTypeKind::Plain && depth <= 0 ==> column_type(kind, declared, base, depth)
            == PgType::Jsonb,
        kind == ColumnTypeKind::Plain && depth <= 0 && declared != PgType::Text ==> column_type(
            kind,
            declared,
            base,
            depth,
        ) == declared,
        kind == ColumnTypeKind::Plain && depth <= 0 && declared == PgType::Text && base is Some
            ==> column_type(kind, declared, base, depth) == base->0,
        kind == ColumnTypeKind::Plain && depth <= 0 && declared == PgType::Text && base is None
            ==> column_type(kind, declared, base, depth) == PgType::Text,
        depth > 0 ==> column_type(kind, declared, base, depth) == array_of(
            column_type(kind, declared, base, 0),
        ),
{
}

} // verus!
