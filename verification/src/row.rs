//! Rows that go out to a client: the columns they are announced with, and the
//! bytes of their fields.

use std::sync::Arc;

use pgwire::api::results::{DataRowEncoder, FieldInfo};
use pgwire::types::format::FormatOptions;
use postgres_types::{Kind, Type};
use vstd::prelude::*;
use vstd::utf8::encode_utf8;

use crate::error::{SessionError, SessionErrorView};
use crate::hex::hex_encoded;
use crate::number::{decimal_int, decimal_int_string, is_digit};
use crate::pgtype::{
    array_name, ascii_resolved_type, has_array_name, has_ascii_names, listed_type_name,
    resolve_pg_type_for_column, resolved_type, ColumnTypeInfo, PgType,
};
use crate::pgvector::VECTOR_TYPE_OID;
use crate::text::{ascii_lower, chars_of, contains_char, ends_with, ends_with_text, joined};
use crate::value::{FieldFormat, Format, Value};
use crate::vector::{big_endian_byte, encode_pgvector_binary, vector_bytes};

verus! {

/// A column of a result: its name, and the type and the format in which its
/// values go out.
#[derive(Debug, PartialEq, Eq)]
pub struct Column {
    pub name: String,
    pub pg_type: PgType,
    pub format: FieldFormat,
}

/// A column of a result as the engine describes it.
pub struct ResultColumn {
    pub name: String,
    pub type_info: Option<ColumnTypeInfo>,
}

/// Build the columns of a result from what the engine says of them.
pub fn build_field_info(columns: &Vec<ResultColumn>, format: &Format) -> (r: Vec<Column>)
    requires
        forall|i: int| 0 <= i < columns@.len() ==> #[trigger] format.covers(i),
    ensures
        r@.len() == columns@.len(),
        forall|i: int|
            0 <= i < r@.len() ==> {
                &&& (#[trigger] r@[i]).name@ == columns@[i].name@
                &&& r@[i].pg_type == resolved_type(columns@[i].type_info)
                &&& has_ascii_names(columns@[i].type_info) ==> r@[i].pg_type
                    == ascii_resolved_type(columns@[i].type_info)
                &&& r@[i].format == format.format_of(i)
            },
{
    let mut out: Vec<Column> = Vec::new();
    let mut i: usize = 0;
    while i < columns.len()
        invariant
            i <= columns@.len(),
            forall|j: int| 0 <= j < columns@.len() ==> #[trigger] format.covers(j),
            out@.len() == i,
            forall|j: int|
                0 <= j < i ==> {
                    &&& (#[trigger] out@[j]).name@ == columns@[j].name@
                    &&& out@[j].pg_type == resolved_type(columns@[j].type_info)
                    &&& has_ascii_names(columns@[j].type_info) ==> out@[j].pg_type
                        == ascii_resolved_type(columns@[j].type_info)
                    &&& out@[j].format == format.format_of(j)
                },
        decreases columns.len() - i,
    {
        assert(format.covers(i as int));
        let column = Column {
            name: columns[i].name.clone(),
            pg_type: resolve_pg_type_for_column(&columns[i].type_info),
            format: format.format_for(i),
        };
        out.push(column);
        i = i + 1;
    }
    out
}

/// A vector as the engine reads it from a stored value: whether it is dense and
/// in single precision, its dimensions, the bit patterns of its elements and the
/// text that stands for it.
pub struct CoreVector {
    pub dense_f32: bool,
    pub dims: usize,
    pub elements: Vec<u32>,
    pub text: String,
}

/// The encoder in which `pgwire` gathers the fields of a row.
#[verifier::external_type_specification]
#[verifier::external_body]
pub struct ExDataRowEncoder(DataRowEncoder);

/// The bytes of the fields that a `DataRowEncoder` has taken in.
pub uninterp spec fn row_bytes(encoder: DataRowEncoder) -> Seq<u8>;

/// The columns that a `DataRowEncoder` has no field for yet, each by the OID of
/// its type and whether its fields go out in binary.
pub uninterp spec fn row_slots(encoder: DataRowEncoder) -> Seq<(u32, bool)>;

/// Whether the columns of a `DataRowEncoder` have the built-in types of their OIDs,
/// or a simple type named `vector` where none is built in, and the format options
/// that `FieldInfo::new` gives.
pub uninterp spec fn row_is_standard(encoder: DataRowEncoder) -> bool;

/// A column by what `pgwire` has to know of it.
pub struct WireColumn {
    pub name: String,
    pub type_oid: u32,
    /// The name and the schema of the type, for a type that is not built in.
    pub type_label: String,
    pub type_schema: String,
    /// The format code: 1 for binary, 0 for text.
    pub format_code: i16,
}

/// The OID and the format of a column.
pub open spec fn slot_of(column: Column) -> (u32, bool) {
    (column.pg_type.oid_number(), column.format == FieldFormat::Binary)
}

/// The columns of a row that has no field yet.
pub open spec fn slots_of(columns: Seq<Column>) -> Seq<(u32, bool)> {
    Seq::new(columns.len(), |i: int| slot_of(columns[i]))
}

/// `DataRowEncoder::new`, on fields made by `FieldInfo::new` with the built-in
/// type of each OID, or with a simple type named `vector` where `Type::from_oid`
/// lists none: an encoder that holds no bytes and has the given columns to fill. The
/// name is fixed because `postgres_types` writes a text in binary by the name of its
/// type.
#[verifier::external_body]
fn new_encoder(columns: Vec<WireColumn>) -> (r: DataRowEncoder)
    requires
        forall|i: int|
            0 <= i < columns@.len() ==> (#[trigger] columns@[i]).type_label@ == "vector"@,
    ensures
        row_bytes(r) == Seq::<u8>::empty(),
        row_slots(r) == Seq::new(
            columns@.len(),
            |i: int| (columns@[i].type_oid, columns@[i].format_code == 1),
        ),
        row_is_standard(r),
{
    let fields = columns.into_iter().map(|c| {
        let unlisted = Type::new(c.type_label, c.type_oid, Kind::Simple, c.type_schema);
        let data_type = Type::from_oid(c.type_oid).unwrap_or(unlisted);
        let format = pgwire::api::results::FieldFormat::from(c.format_code);
        FieldInfo::new(c.name, None, None, data_type, format)
    });
    DataRowEncoder::new(Arc::new(fields.collect()))
}

/// A column by what `pgwire` has to know of it.
pub fn wire_column(column: &Column) -> (r: WireColumn)
    ensures
        r.name@ == column.name@,
        r.type_oid == column.pg_type.oid_number(),
        r.type_label@ == "vector"@,
        r.type_schema@ == "public"@,
        r.format_code == (if column.format == FieldFormat::Binary {
            1i16
        } else {
            0i16
        }),
{
    WireColumn {
        name: column.name.clone(),
        type_oid: column.pg_type.oid(),
        type_label: "vector".to_owned(),
        type_schema: "public".to_owned(),
        format_code: match column.format {
            FieldFormat::Text => 0,
            FieldFormat::Binary => 1,
        },
    }
}

/// An encoder for one row of a result with the given columns.
pub fn row_encoder(columns: &Vec<Column>) -> (r: DataRowEncoder)
    ensures
        row_bytes(r) == Seq::<u8>::empty(),
        row_slots(r) == slots_of(columns@),
        row_is_standard(r),
{
    let mut wire: Vec<WireColumn> = Vec::new();
    let mut i: usize = 0;
    while i < columns.len()
        invariant
            i <= columns@.len(),
            wire@.len() == i,
            forall|j: int|
                0 <= j < i ==> ((#[trigger] wire@[j]).type_oid, wire@[j].format_code == 1)
                    == slot_of(columns@[j]),
            forall|j: int| 0 <= j < i ==> (#[trigger] wire@[j]).type_label@ == "vector"@,
        decreases columns.len() - i,
    {
        wire.push(wire_column(&columns[i]));
        i = i + 1;
    }
    assert(Seq::new(wire@.len(), |i: int| (wire@[i].type_oid, wire@[i].format_code == 1))
        =~= slots_of(columns@));
    new_encoder(wire)
}

/// The bytes of a field whose value takes the given bytes: their number in four
/// bytes, then they themselves.
pub open spec fn field_of(payload: Seq<u8>) -> Seq<u8> {
    Seq::new(4, |k: int| big_endian_byte((payload.len() % 0x1_0000_0000) as u32, k)) + payload
}

/// The bytes of a field without a value.
pub open spec fn null_field() -> Seq<u8> {
    seq![0xffu8, 0xffu8, 0xffu8, 0xffu8]
}

/// The bytes of a boolean.
pub open spec fn bool_payload(value: bool, binary: bool) -> Seq<u8> {
    if binary {
        seq![if value { 1u8 } else { 0u8 }]
    } else {
        encode_utf8(if value { seq!['t'] } else { seq!['f'] })
    }
}

/// The bytes of an OID.
pub open spec fn oid_payload(value: u32, binary: bool) -> Seq<u8> {
    if binary {
        Seq::new(4, |k: int| big_endian_byte(value, k))
    } else {
        encode_utf8(decimal_int(value as int))
    }
}

/// The eight bytes of an integer in big-endian order, a negative one in two's
/// complement.
pub open spec fn big_endian_i64(value: i64) -> Seq<u8> {
    let wrapped = value as int % 0x1_0000_0000_0000_0000;
    Seq::new(
        8,
        |k: int|
            if k < 4 {
                big_endian_byte((wrapped / 0x1_0000_0000) as u32, k)
            } else {
                big_endian_byte((wrapped % 0x1_0000_0000) as u32, k - 4)
            },
    )
}

/// The bytes of an integer.
pub open spec fn integer_payload(value: i64, binary: bool) -> Seq<u8> {
    if binary {
        big_endian_i64(value)
    } else {
        encode_utf8(decimal_int(value as int))
    }
}

/// The bytes of one of PostgreSQL's internal characters: a signed byte.
pub open spec fn char_payload(value: i8, binary: bool) -> Seq<u8> {
    if binary {
        seq![(value as int % 0x100) as u8]
    } else {
        encode_utf8(decimal_int(value as int))
    }
}

/// The bytes of a byte string. In text it is written in hexadecimal, and within
/// the quotes of an array element where the type is that of an array of byte
/// strings.
pub open spec fn blob_payload(value: Seq<u8>, oid: u32, binary: bool) -> Seq<u8> {
    let digits = "\\x"@ + hex_encoded(value);
    if binary {
        value
    } else if oid == PgType::ByteaArray.oid_number() {
        encode_utf8("\"\\"@ + digits + "\""@)
    } else {
        encode_utf8(digits)
    }
}

/// Whether the texts in a column are elements of an array: `postgres_types` gives the
/// type the kind of an array. Those are the types whose names begin with an
/// underscore, but for the one of anonymous records, and two older ones.
pub open spec fn holds_elements(oid: u32) -> bool {
    ||| listed_type_name(oid) matches Some(name) && name.len() > 0 && name[0] == '_' && oid != 2287
    ||| oid == 22
    ||| oid == 30
}

/// Whether a character has to stand in quotes within an array: a quote, a backslash,
/// a brace, a comma, or white space in ASCII.
pub open spec fn is_array_syntax(c: char) -> bool {
    c == '"' || c == '\\' || c == '{' || c == '}' || c == ',' || c == ' ' || '\u{9}' <= c
        <= '\u{d}'
}

/// Whether an element of an array has to stand in quotes: it is empty, holds a
/// character of the syntax of arrays, or could be taken for a missing value.
pub open spec fn needs_quotes(text: Seq<char>) -> bool {
    ||| text.len() == 0
    ||| exists|i: int| 0 <= i < text.len() && is_array_syntax(#[trigger] text[i])
    ||| ascii_lower(text) == "null"@
}

/// `text` with a backslash before every quote and every backslash.
pub open spec fn escaped(text: Seq<char>) -> Seq<char>
    decreases text.len(),
{
    if text.len() == 0 {
        text
    } else if text.last() == '"' || text.last() == '\\' {
        escaped(text.drop_last()).push('\\').push(text.last())
    } else {
        escaped(text.drop_last()).push(text.last())
    }
}

/// The bytes of a text in a column of a type, in text or in binary: its UTF-8, but in
/// text, where it is an element of an array, in quotes as far as it needs them.
pub open spec fn text_payload(oid: u32, binary: bool, text: Seq<char>) -> Seq<u8> {
    if !binary && holds_elements(oid) && needs_quotes(text) {
        encode_utf8("\""@ + escaped(text) + "\""@)
    } else {
        encode_utf8(text)
    }
}

/// `DataRowEncoder::encode_field` on nothing, for which `None::<i8>` stands: it
/// fills the next column with a field without a value.
#[verifier::external_body]
fn encode_null(encoder: &mut DataRowEncoder) -> (r: Result<(), String>)
    requires
        row_slots(*old(encoder)).len() > 0,
    ensures
        r is Ok,
        row_bytes(*final(encoder)) == row_bytes(*old(encoder)) + null_field(),
        row_slots(*final(encoder)) == row_slots(*old(encoder)).drop_first(),
        row_is_standard(*final(encoder)) == row_is_standard(*old(encoder)),
{
    encoder.encode_field(&None::<i8>).map_err(|e| e.to_string())
}

/// `DataRowEncoder::encode_field` on a `bool`: it fills the next column with a
/// `t` or an `f`, or with the byte one or zero in binary.
#[verifier::external_body]
fn encode_bool(encoder: &mut DataRowEncoder, value: bool) -> (r: Result<(), String>)
    requires
        row_slots(*old(encoder)).len() > 0,
    ensures
        r is Ok,
        row_bytes(*final(encoder)) == row_bytes(*old(encoder)) + field_of(
            bool_payload(value, row_slots(*old(encoder))[0].1),
        ),
        row_slots(*final(encoder)) == row_slots(*old(encoder)).drop_first(),
        row_is_standard(*final(encoder)) == row_is_standard(*old(encoder)),
{
    encoder.encode_field(&value).map_err(|e| e.to_string())
}

/// `DataRowEncoder::encode_field` on a `u32`: it fills the next column with the
/// number in decimal, or with its four bytes in binary.
#[verifier::external_body]
fn encode_oid(encoder: &mut DataRowEncoder, value: u32) -> (r: Result<(), String>)
    requires
        row_slots(*old(encoder)).len() > 0,
    ensures
        r is Ok,
        row_bytes(*final(encoder)) == row_bytes(*old(encoder)) + field_of(
            oid_payload(value, row_slots(*old(encoder))[0].1),
        ),
        row_slots(*final(encoder)) == row_slots(*old(encoder)).drop_first(),
        row_is_standard(*final(encoder)) == row_is_standard(*old(encoder)),
{
    encoder.encode_field(&value).map_err(|e| e.to_string())
}

/// `DataRowEncoder::encode_field` on an `i64`: it fills the next column with the
/// number in decimal, or with its eight bytes in binary.
#[verifier::external_body]
fn encode_integer(encoder: &mut DataRowEncoder, value: i64) -> (r: Result<(), String>)
    requires
        row_slots(*old(encoder)).len() > 0,
    ensures
        r is Ok,
        row_bytes(*final(encoder)) == row_bytes(*old(encoder)) + field_of(
            integer_payload(value, row_slots(*old(encoder))[0].1),
        ),
        row_slots(*final(encoder)) == row_slots(*old(encoder)).drop_first(),
        row_is_standard(*final(encoder)) == row_is_standard(*old(encoder)),
{
    encoder.encode_field(&value).map_err(|e| e.to_string())
}

/// `DataRowEncoder::encode_field` on an `i8`: it fills the next column with the
/// number in decimal, or with its one byte in binary.
#[verifier::external_body]
fn encode_char(encoder: &mut DataRowEncoder, value: i8) -> (r: Result<(), String>)
    requires
        row_slots(*old(encoder)).len() > 0,
    ensures
        r is Ok,
        row_bytes(*final(encoder)) == row_bytes(*old(encoder)) + field_of(
            char_payload(value, row_slots(*old(encoder))[0].1),
        ),
        row_slots(*final(encoder)) == row_slots(*old(encoder)).drop_first(),
        row_is_standard(*final(encoder)) == row_is_standard(*old(encoder)),
{
    encoder.encode_field(&value).map_err(|e| e.to_string())
}

/// `DataRowEncoder::encode_field` on a `&str`: it fills the next column with the
/// UTF-8 of the text. In text format, where the type of the column is of the kind of
/// an array, the text is put in quotes if it is empty, `null` in any case, or holds a
/// quote, a backslash, a brace, a comma or ASCII white space, with a backslash before
/// its quotes and backslashes.
#[verifier::external_body]
fn encode_text(encoder: &mut DataRowEncoder, value: &str) -> (r: Result<(), String>)
    requires
        row_slots(*old(encoder)).len() > 0,
        row_is_standard(*old(encoder)),
    ensures
        r is Ok,
        row_bytes(*final(encoder)) == row_bytes(*old(encoder)) + field_of(
            text_payload(row_slots(*old(encoder))[0].0, row_slots(*old(encoder))[0].1, value@),
        ),
        row_slots(*final(encoder)) == row_slots(*old(encoder)).drop_first(),
        row_is_standard(*final(encoder)) == row_is_standard(*old(encoder)),
{
    encoder.encode_field(&value).map_err(|e| e.to_string())
}

/// `DataRowEncoder::encode_field` on a `&[u8]`: it fills the next column with the
/// bytes in binary, and with their hexadecimal writing in text.
#[verifier::external_body]
fn encode_blob(encoder: &mut DataRowEncoder, value: &[u8]) -> (r: Result<(), String>)
    requires
        row_slots(*old(encoder)).len() > 0,
        row_is_standard(*old(encoder)),
    ensures
        r is Ok,
        row_bytes(*final(encoder)) == row_bytes(*old(encoder)) + field_of(
            blob_payload(value@, row_slots(*old(encoder))[0].0, row_slots(*old(encoder))[0].1),
        ),
        row_slots(*final(encoder)) == row_slots(*old(encoder)).drop_first(),
        row_is_standard(*final(encoder)) == row_is_standard(*old(encoder)),
{
    encoder.encode_field(&value).map_err(|e| e.to_string())
}

/// `DataRowEncoder::encode_field_with_type_and_format` on nothing, in either
/// format: it fills the next column with a field without a value.
#[verifier::external_body]
fn encode_null_as_text(encoder: &mut DataRowEncoder, format_code: i16) -> (r: Result<(), String>)
    requires
        row_slots(*old(encoder)).len() > 0,
    ensures
        r is Ok,
        row_bytes(*final(encoder)) == row_bytes(*old(encoder)) + null_field(),
        row_slots(*final(encoder)) == row_slots(*old(encoder)).drop_first(),
        row_is_standard(*final(encoder)) == row_is_standard(*old(encoder)),
{
    let format = pgwire::api::results::FieldFormat::from(format_code);
    encoder
        .encode_field_with_type_and_format(&None::<i8>, &Type::TEXT, format, &FormatOptions::default())
        .map_err(|e| e.to_string())
}

/// `DataRowEncoder::encode_field_with_type_and_format` on a `&str` as a text in
/// text format: it fills the next column with the UTF-8 of the text, whatever
/// the type and the format of the column.
#[verifier::external_body]
fn encode_plain_text(encoder: &mut DataRowEncoder, value: &str) -> (r: Result<(), String>)
    requires
        row_slots(*old(encoder)).len() > 0,
    ensures
        r is Ok,
        row_bytes(*final(encoder)) == row_bytes(*old(encoder)) + field_of(encode_utf8(value@)),
        row_slots(*final(encoder)) == row_slots(*old(encoder)).drop_first(),
        row_is_standard(*final(encoder)) == row_is_standard(*old(encoder)),
{
    let format = pgwire::api::results::FieldFormat::Text;
    encoder
        .encode_field_with_type_and_format(&value, &Type::TEXT, format, &FormatOptions::default())
        .map_err(|e| e.to_string())
}

/// `DataRowEncoder::encode_field_with_type_and_format` on bytes as a byte string
/// in binary format: it fills the next column with the bytes, whatever the type
/// and the format of the column.
#[verifier::external_body]
fn encode_raw_bytes(encoder: &mut DataRowEncoder, value: &Vec<u8>) -> (r: Result<(), String>)
    requires
        row_slots(*old(encoder)).len() > 0,
    ensures
        r is Ok,
        row_bytes(*final(encoder)) == row_bytes(*old(encoder)) + field_of(value@),
        row_slots(*final(encoder)) == row_slots(*old(encoder)).drop_first(),
        row_is_standard(*final(encoder)) == row_is_standard(*old(encoder)),
{
    let format = pgwire::api::results::FieldFormat::Binary;
    encoder
        .encode_field_with_type_and_format(value, &Type::BYTEA, format, &FormatOptions::default())
        .map_err(|e| e.to_string())
}

/// What becomes of a value in a row: the bytes of its field; nothing, where it
/// is a floating point number, whose field the caller writes; or an error.
pub type FieldOutcome = Result<Option<Seq<u8>>, SessionErrorView>;

/// Whether `s` is the offset of a zone west of UTC: a minus sign, then two digits for
/// the hours, and two for the minutes and for the seconds where they are given, with
/// colons between them or, for hours and minutes, without.
pub open spec fn is_west_offset(s: Seq<char>) -> bool {
    &&& s.len() > 0 && s[0] == '-'
    &&& {
        ||| s.len() == 3 && is_digit(s[1]) && is_digit(s[2])
        ||| s.len() == 5 && is_digit(s[1]) && is_digit(s[2]) && is_digit(s[3]) && is_digit(s[4])
        ||| {
            &&& s.len() == 6 || (s.len() == 9 && s[6] == ':' && is_digit(s[7]) && is_digit(s[8]))
            &&& is_digit(s[1]) && is_digit(s[2]) && s[3] == ':' && is_digit(s[4]) && is_digit(s[5])
        }
    }
}

/// Whether `text` has the offset of a zone west of UTC at position `p`, up to its
/// end, and a time of day before it.
pub open spec fn has_west_offset_at(text: Seq<char>, p: int) -> bool {
    0 <= p <= text.len() && is_west_offset(text.skip(p)) && text.take(p).contains(':')
}

/// Whether a timestamp says which time zone it is in: by a plus sign, by the letter
/// of UTC, or by an offset with a minus sign at its end. A date alone, which may end
/// in the same way, has no time of day before that.
pub open spec fn names_zone(text: Seq<char>) -> bool {
    ||| text.contains('+')
    ||| text.contains('Z')
    ||| ends_with_text(text, "-00"@)
    ||| exists|p: int| has_west_offset_at(text, p)
}

/// The signed byte with the same bits as `b`.
pub open spec fn signed_byte(b: u8) -> i8 {
    if b < 128 {
        b as i8
    } else {
        (b - 256) as i8
    }
}

/// The bytes of a text in a column of type `ty` that the encoder knows by
/// `slot`: its UTF-8, unless the column has another type, or one of the two older
/// array types, and puts it in quotes.
pub open spec fn column_text(text: Seq<char>, ty: PgType, slot: (u32, bool)) -> Seq<u8> {
    if slot.1 || (slot.0 == ty.oid_number() && slot.0 != 22 && slot.0 != 30) {
        encode_utf8(text)
    } else {
        text_payload(slot.0, slot.1, text)
    }
}

/// The field of a text in a column of type `ty` that the encoder knows by `slot`.
pub open spec fn text_field(text: Seq<char>, ty: PgType, slot: (u32, bool)) -> FieldOutcome {
    if ty == PgType::Char {
        if encode_utf8(text).len() == 0 {
            Err(SessionErrorView::ConversionError("PostgreSQL internal char cannot be empty"@))
        } else {
            Ok(Some(field_of(char_payload(signed_byte(encode_utf8(text)[0]), slot.1))))
        }
    } else if ty == PgType::Timestamptz && !names_zone(text) {
        Ok(Some(field_of(column_text(text + "+00"@, ty, slot))))
    } else if has_array_name(ty) {
        Ok(Some(field_of(encode_utf8(text))))
    } else {
        Ok(Some(field_of(column_text(text, ty, slot))))
    }
}

/// The field of an integer in a column of type `ty`.
pub open spec fn integer_field(i: i64, ty: PgType, slot: (u32, bool)) -> FieldOutcome {
    if ty == PgType::Bool {
        Ok(Some(field_of(bool_payload(i != 0, slot.1))))
    } else if ty == PgType::Oid {
        if 0 <= i <= u32::MAX {
            Ok(Some(field_of(oid_payload(i as u32, slot.1))))
        } else {
            Err(
                SessionErrorView::ConversionError(
                    "OID value is out of range: "@ + decimal_int(i as int),
                ),
            )
        }
    } else {
        Ok(Some(field_of(integer_payload(i, slot.1))))
    }
}

/// The field of a vector, in pgvector's text or binary format.
pub open spec fn vector_field(vector: CoreVector, format: FieldFormat) -> FieldOutcome {
    if !vector.dense_f32 {
        Err(
            SessionErrorView::ConversionError(
                "PostgreSQL vector values must use dense float32 storage"@,
            ),
        )
    } else {
        match format {
            FieldFormat::Text => Ok(Some(field_of(encode_utf8(vector.text@)))),
            FieldFormat::Binary => if vector.dims <= u16::MAX {
                Ok(Some(field_of(vector_bytes(vector.dims as int, vector.elements@))))
            } else {
                Err(
                    SessionErrorView::ConversionError(
                        "vector dimensions exceed PostgreSQL binary format limits"@,
                    ),
                )
            },
        }
    }
}

/// What becomes of `value` in a column of type `ty` that the encoder knows by
/// `slot`. In a vector column `vector` is what the engine reads from the value.
pub open spec fn value_field(
    value: Value,
    vector: Option<CoreVector>,
    ty: PgType,
    format: FieldFormat,
    slot: (u32, bool),
) -> FieldOutcome {
    if value is Null {
        Ok(Some(null_field()))
    } else if ty.oid_number() == VECTOR_TYPE_OID {
        vector_field(vector->0, format)
    } else {
        match value {
            Value::Null => Ok(Some(null_field())),
            Value::Integer(i) => integer_field(i, ty, slot),
            Value::Real(_) => Ok(None),
            Value::Text(text) => text_field(text@, ty, slot),
            Value::Blob(bytes) => Ok(Some(field_of(blob_payload(bytes@, slot.0, slot.1)))),
        }
    }
}

/// Whether the engine has to read a vector from `value` before it can go out in
/// a column of type `ty`.
pub open spec fn wants_vector(value: Value, ty: PgType) -> bool {
    ty.oid_number() == VECTOR_TYPE_OID && !(value is Null)
}

/// Whether the engine has to read a vector from `value` before it can go out in
/// a column of type `pg_type`.
pub fn needs_core_vector(value: &Value, pg_type: &PgType) -> (r: bool)
    ensures
        r == wants_vector(*value, *pg_type),
{
    match value {
        Value::Null => false,
        _ => pg_type.oid() == VECTOR_TYPE_OID as u32,
    }
}

/// What [`encode_value`] did.
#[derive(Clone, Copy, Debug, PartialEq, Eq, Structural)]
pub enum Encoded {
    /// The field is in the row.
    Written,
    /// The value is the floating point number with these bits, and the next
    /// column is still to be filled with it.
    Real(u64),
}

/// Whether encoding a value ended in `r` and took the encoder from `before` to
/// `after` as `outcome` says.
pub open spec fn took_field(
    r: Result<Encoded, SessionError>,
    before: DataRowEncoder,
    after: DataRowEncoder,
    value: Value,
    outcome: FieldOutcome,
) -> bool {
    match outcome {
        Ok(Some(bytes)) => {
            &&& r == Ok::<Encoded, SessionError>(Encoded::Written)
            &&& row_bytes(after) == row_bytes(before) + bytes
            &&& row_slots(after) == row_slots(before).drop_first()
            &&& row_is_standard(after) == row_is_standard(before)
        },
        Ok(None) => {
            &&& value matches Value::Real(bits)
            &&& r == Ok::<Encoded, SessionError>(Encoded::Real(bits))
            &&& after == before
        },
        Err(e) => {
            &&& r is Err
            &&& r->Err_0@ == e
            &&& after == before
        },
    }
}

fn written(r: Result<(), String>) -> (w: Result<Encoded, SessionError>)
    ensures
        match r {
            Ok(_) => w == Ok::<Encoded, SessionError>(Encoded::Written),
            Err(e) => w is Err && w->Err_0@ == SessionErrorView::InternalError(e@),
        },
{
    match r {
        Ok(_) => Ok(Encoded::Written),
        Err(e) => Err(SessionError::InternalError(e)),
    }
}

/// Encode a vector in the text or the binary format of pgvector that the client
/// asked for.
pub fn encode_pgvector_value(
    encoder: &mut DataRowEncoder,
    value: &Value,
    vector: &Option<CoreVector>,
    format: FieldFormat,
) -> (r: Result<Encoded, SessionError>)
    requires
        row_slots(*old(encoder)).len() > 0,
        !(value is Null) ==> vector is Some,
    ensures
        took_field(
            r,
            *old(encoder),
            *final(encoder),
            *value,
            value_field(*value, *vector, PgType::Vector, format, row_slots(*old(encoder))[0]),
        ),
{
    if let Value::Null = value {
        let format_code: i16 = match format {
            FieldFormat::Text => 0,
            FieldFormat::Binary => 1,
        };
        return written(encode_null_as_text(encoder, format_code));
    }
    let vector = vector.as_ref().unwrap();
    if !vector.dense_f32 {
        return Err(
            SessionError::ConversionError(
                "PostgreSQL vector values must use dense float32 storage".to_owned(),
            ),
        );
    }
    match format {
        FieldFormat::Text => written(encode_plain_text(encoder, vector.text.as_str())),
        FieldFormat::Binary => {
            if vector.dims > 0xffff {
                return Err(
                    SessionError::ConversionError(
                        "vector dimensions exceed PostgreSQL binary format limits".to_owned(),
                    ),
                );
            }
            let bytes = encode_pgvector_binary(vector.dims as u16, &vector.elements);
            written(encode_raw_bytes(encoder, &bytes))
        },
    }
}

fn digit_at(chars: &Vec<char>, i: usize) -> (r: bool)
    requires
        i < chars@.len(),
    ensures
        r == is_digit(chars@[i as int]),
{
    '0' <= chars[i] && chars[i] <= '9'
}

fn west_offset_at(chars: &Vec<char>, p: usize) -> (r: bool)
    requires
        p < chars@.len(),
    ensures
        r == is_west_offset(chars@.skip(p as int)),
{
    let size: usize = chars.len() - p;
    if chars[p] != '-' || size < 3 || !digit_at(chars, p + 1) || !digit_at(chars, p + 2) {
        return false;
    }
    if size == 3 {
        return true;
    }
    if size == 5 {
        return digit_at(chars, p + 3) && digit_at(chars, p + 4);
    }
    if size != 6 && size != 9 {
        return false;
    }
    if chars[p + 3] != ':' || !digit_at(chars, p + 4) || !digit_at(chars, p + 5) {
        return false;
    }
    size == 6 || (chars[p + 6] == ':' && digit_at(chars, p + 7) && digit_at(chars, p + 8))
}

fn time_zone_named(chars: &Vec<char>) -> (r: bool)
    ensures
        r == names_zone(chars@),
{
    if contains_char(chars, '+') || contains_char(chars, 'Z') || ends_with(chars, "-00") {
        return true;
    }
    let mut time = false;
    let mut p: usize = 0;
    while p < chars.len()
        invariant
            p <= chars@.len(),
            time == chars@.take(p as int).contains(':'),
            forall|q: int| 0 <= q < p ==> !has_west_offset_at(chars@, q),
        decreases chars.len() - p,
    {
        if time && west_offset_at(chars, p) {
            assert(has_west_offset_at(chars@, p as int));
            return true;
        }
        proof {
            let before = chars@.take(p as int);
            let after = chars@.take(p + 1);
            assert(after =~= before.push(chars@[p as int]));
            if before.contains(':') {
                let k = choose|k: int| 0 <= k < before.len() && before[k] == ':';
                assert(after[k] == ':');
            }
            if chars@[p as int] == ':' {
                assert(after[p as int] == ':');
            }
        }
        time = time || chars[p] == ':';
        p = p + 1;
    }
    assert forall|q: int| !has_west_offset_at(chars@, q) by {
        if q == chars@.len() {
            assert(chars@.skip(q).len() == 0);
        }
    }
    false
}

fn encode_text_value(encoder: &mut DataRowEncoder, text: &str, pg_type: &PgType) -> (r: Result<
    Encoded,
    SessionError,
>)
    requires
        row_slots(*old(encoder)).len() > 0,
        row_is_standard(*old(encoder)),
    ensures
        match text_field(text@, *pg_type, row_slots(*old(encoder))[0]) {
            Ok(field) => {
                &&& r == Ok::<Encoded, SessionError>(Encoded::Written)
                &&& field is Some
                &&& row_bytes(*final(encoder)) == row_bytes(*old(encoder)) + field->0
                &&& row_slots(*final(encoder)) == row_slots(*old(encoder)).drop_first()
                &&& row_is_standard(*final(encoder)) == row_is_standard(*old(encoder))
            },
            Err(e) => r is Err && r->Err_0@ == e && *final(encoder) == *old(encoder),
        },
{
    if *pg_type == PgType::Char {
        let bytes = text.as_bytes();
        if bytes.len() == 0 {
            return Err(
                SessionError::ConversionError(
                    "PostgreSQL internal char cannot be empty".to_owned(),
                ),
            );
        }
        let first: u8 = bytes[0];
        let value: i8 = if first <= 127 {
            first as i8
        } else {
            (first as i16 - 256) as i8
        };
        return written(encode_char(encoder, value));
    }
    let chars = chars_of(text);
    let is_array = array_name(*pg_type);
    if *pg_type == PgType::Timestamptz && !time_zone_named(&chars) {
        let with_tz = joined(text, "+00");
        written(encode_text(encoder, with_tz.as_str()))
    } else if is_array {
        written(encode_plain_text(encoder, text))
    } else {
        written(encode_text(encoder, text))
    }
}

/// Encode a value into the next column of a row. Integers in a boolean column
/// go out as booleans. A timestamp with time zone gets the zone it lacks, so
/// that clients take it for UTC. Arrays are stored as PostgreSQL writes them and
/// go out as they are.
pub fn encode_value(
    encoder: &mut DataRowEncoder,
    value: &Value,
    vector: &Option<CoreVector>,
    pg_type: &PgType,
    format: FieldFormat,
) -> (r: Result<Encoded, SessionError>)
    requires
        row_slots(*old(encoder)).len() > 0,
        row_is_standard(*old(encoder)),
        wants_vector(*value, *pg_type) ==> vector is Some,
    ensures
        took_field(
            r,
            *old(encoder),
            *final(encoder),
            *value,
            value_field(*value, *vector, *pg_type, format, row_slots(*old(encoder))[0]),
        ),
{
    if pg_type.oid() == VECTOR_TYPE_OID as u32 {
        return encode_pgvector_value(encoder, value, vector, format);
    }
    match value {
        Value::Null => written(encode_null(encoder)),
        Value::Integer(i) => {
            if *pg_type == PgType::Bool {
                written(encode_bool(encoder, *i != 0))
            } else if *pg_type == PgType::Oid {
                if *i < 0 || *i > 0xffff_ffff {
                    return Err(
                        SessionError::ConversionError(
                            joined(
                                "OID value is out of range: ",
                                decimal_int_string(*i).as_str(),
                            ),
                        ),
                    );
                }
                written(encode_oid(encoder, *i as u32))
            } else {
                written(encode_integer(encoder, *i))
            }
        },
        Value::Real(bits) => Ok(Encoded::Real(*bits)),
        Value::Text(text) => encode_text_value(encoder, text.as_str(), pg_type),
        Value::Blob(bytes) => written(encode_blob(encoder, bytes.as_slice())),
    }
}

/// The type of column `i` of a result, text where there is none.
pub open spec fn type_at(columns: Seq<Column>, i: int) -> PgType {
    if i < columns.len() {
        columns[i].pg_type
    } else {
        PgType::Text
    }
}

/// The format of column `i` of a result, text where there is none.
pub open spec fn format_at(columns: Seq<Column>, i: int) -> FieldFormat {
    if i < columns.len() {
        columns[i].format
    } else {
        FieldFormat::Text
    }
}

/// Whether the value at position `i` of a row is one for the caller to see to: a
/// floating point number outside a vector column, or a value in a vector column
/// from which the engine read no vector.
pub open spec fn is_left_to_caller(
    columns: Seq<Column>,
    values: Seq<Value>,
    vectors: Seq<Option<CoreVector>>,
    i: int,
) -> bool {
    if wants_vector(values[i], type_at(columns, i)) {
        vectors[i] is None
    } else {
        values[i] is Real
    }
}

/// What becomes of the values of a row from position `from` on, in an encoder
/// with the columns `slots` left: the bytes of their fields up to the first value
/// that is left to the caller or cannot be encoded, and the position of the one or
/// the error for the other, or else the number of values.
pub open spec fn row_fields(
    columns: Seq<Column>,
    values: Seq<Value>,
    vectors: Seq<Option<CoreVector>>,
    slots: Seq<(u32, bool)>,
    from: int,
) -> (Seq<u8>, Result<int, SessionErrorView>)
    decreases values.len() - from,
{
    if from >= values.len() || is_left_to_caller(columns, values, vectors, from) {
        (Seq::empty(), Ok(from))
    } else {
        match value_field(
            values[from],
            vectors[from],
            type_at(columns, from),
            format_at(columns, from),
            slots[0],
        ) {
            Ok(Some(bytes)) => {
                let (rest, end) = row_fields(columns, values, vectors, slots.drop_first(), from + 1);
                (bytes + rest, end)
            },
            Ok(None) => (Seq::empty(), Ok(from)),
            Err(e) => (Seq::empty(), Err(e)),
        }
    }
}

/// The fields of the values of a row from position `from` on, in an encoder with the
/// columns `slots` left.
pub open spec fn fields_from(
    columns: Seq<Column>,
    values: Seq<Value>,
    vectors: Seq<Option<CoreVector>>,
    slots: Seq<(u32, bool)>,
    from: int,
) -> Seq<FieldOutcome> {
    Seq::new(
        (values.len() - from) as nat,
        |k: int|
            value_field(
                values[from + k],
                vectors[from + k],
                type_at(columns, from + k),
                format_at(columns, from + k),
                slots[k],
            ),
    )
}

/// A row of which every value can be encoded and none is left to the caller is
/// complete, and holds the fields of its values one after the other.
pub proof fn complete_row_holds_a_field_for_each_value(
    columns: Seq<Column>,
    values: Seq<Value>,
    vectors: Seq<Option<CoreVector>>,
    slots: Seq<(u32, bool)>,
    from: int,
)
    requires
        0 <= from <= values.len(),
        slots.len() >= values.len() - from,
        forall|i: int|
            from <= i < values.len() ==> !is_left_to_caller(columns, values, vectors, i),
        forall|k: int|
            0 <= k < values.len() - from ==> #[trigger] fields_from(
                columns,
                values,
                vectors,
                slots,
                from,
            )[k] is Ok,
    ensures
        ({
            let fields = fields_from(columns, values, vectors, slots, from);
            row_fields(columns, values, vectors, slots, from) == (
                Seq::new(fields.len(), |k: int| fields[k]->Ok_0->0).flatten(),
                Ok::<int, SessionErrorView>(values.len() as int),
            )
        }),
    decreases values.len() - from,
{
    let fields = fields_from(columns, values, vectors, slots, from);
    let bytes = Seq::new(fields.len(), |k: int| fields[k]->Ok_0->0);
    if from < values.len() {
        let rest = fields_from(columns, values, vectors, slots.drop_first(), from + 1);
        assert forall|k: int| 0 <= k < rest.len() implies #[trigger] rest[k] == fields[k + 1] by {
            assert(slots.drop_first()[k] == slots[k + 1]);
        }
        complete_row_holds_a_field_for_each_value(
            columns,
            values,
            vectors,
            slots.drop_first(),
            from + 1,
        );
        assert(bytes.drop_first() =~= Seq::new(rest.len(), |k: int| rest[k]->Ok_0->0));
        assert(fields[0] is Ok);
        assert(!is_left_to_caller(columns, values, vectors, from));
    }
}

/// Encode the values of a row from position `from` on, up to the next value that is
/// left to the caller, and return the position reached. The caller writes a floating
/// point number there into the row and goes on behind it.
pub fn encode_row(
    encoder: &mut DataRowEncoder,
    columns: &Vec<Column>,
    values: &Vec<Value>,
    vectors: &Vec<Option<CoreVector>>,
    from: usize,
) -> (r: Result<usize, SessionError>)
    requires
        from <= values@.len() == vectors@.len(),
        row_slots(*old(encoder)).len() >= values@.len() - from,
        row_is_standard(*old(encoder)),
    ensures
        ({
            let (bytes, end) = row_fields(
                columns@,
                values@,
                vectors@,
                row_slots(*old(encoder)),
                from as int,
            );
            &&& row_bytes(*final(encoder)) == row_bytes(*old(encoder)) + bytes
            &&& row_is_standard(*final(encoder))
            &&& match r {
                Ok(to) => {
                    &&& end == Ok::<int, SessionErrorView>(to as int)
                    &&& from <= to <= values@.len()
                    &&& to < values@.len() ==> is_left_to_caller(
                        columns@,
                        values@,
                        vectors@,
                        to as int,
                    )
                    &&& row_slots(*final(encoder)) == row_slots(*old(encoder)).skip(to - from)
                },
                Err(e) => end == Err::<int, SessionErrorView>(e@),
            }
        }),
{
    let ghost slots = row_slots(*encoder);
    let ghost begun = row_bytes(*encoder);
    let ghost whole = row_fields(columns@, values@, vectors@, slots, from as int);
    let mut i: usize = from;
    assert(slots.skip(0) =~= slots);
    assert(begun + whole.0 =~= row_bytes(*encoder) + whole.0);
    while i < values.len()
        invariant
            from <= i <= values@.len() == vectors@.len(),
            slots.len() >= values@.len() - from,
            row_slots(*encoder) == slots.skip(i - from),
            row_is_standard(*encoder),
            ({
                let (bytes, end) = row_fields(
                    columns@,
                    values@,
                    vectors@,
                    slots.skip(i - from),
                    i as int,
                );
                &&& begun + whole.0 == row_bytes(*encoder) + bytes
                &&& whole.1 == end
            }),
            whole == row_fields(columns@, values@, vectors@, slots, from as int),
            slots == row_slots(*old(encoder)),
            begun == row_bytes(*old(encoder)),
        decreases values.len() - i,
    {
        let pg_type = if i < columns.len() {
            columns[i].pg_type
        } else {
            PgType::Text
        };
        let format = if i < columns.len() {
            columns[i].format
        } else {
            FieldFormat::Text
        };
        let ghost before = row_bytes(*encoder);
        let ghost rest = row_fields(
            columns@,
            values@,
            vectors@,
            slots.skip(i - from).drop_first(),
            i + 1,
        );
        if needs_core_vector(&values[i], &pg_type) && vectors[i].is_none() {
            assert(before + Seq::<u8>::empty() =~= before);
            return Ok(i);
        }
        match encode_value(encoder, &values[i], &vectors[i], &pg_type, format) {
            Ok(Encoded::Written) => {
                proof {
                    let bytes = value_field(
                        values@[i as int],
                        vectors@[i as int],
                        pg_type,
                        format,
                        slots.skip(i - from)[0],
                    )->Ok_0->0;
                    assert(before + (bytes + rest.0) =~= (before + bytes) + rest.0);
                    assert(slots.skip(i - from).drop_first() =~= slots.skip(i + 1 - from));
                }
            },
            Ok(Encoded::Real(_)) => {
                assert(before + Seq::<u8>::empty() =~= before);
                return Ok(i);
            },
            Err(e) => {
                assert(before + Seq::<u8>::empty() =~= before);
                return Err(e);
            },
        }
        i = i + 1;
    }
    assert(row_bytes(*encoder) + Seq::<u8>::empty() =~= row_bytes(*encoder));
    Ok(i)
}

} // verus!
