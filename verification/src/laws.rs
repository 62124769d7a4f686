//! What a client reads of a value stands for that value when the client sends it back
//! as a parameter of the same type: integers, OIDs, byte strings, vectors and texts.
//! An integer in a boolean column comes back as one or zero, and a timestamp without a
//! time zone with that of UTC. Nothing is claimed of internal characters, which go out
//! as numbers, of floating point numbers, or of integers and byte strings in binary.

pub mod commands;
pub mod copies;
pub mod inference;
pub mod parameters;
pub mod rows;
pub mod schemas;
pub mod statements;
pub mod texts;
pub mod types;

use vstd::prelude::*;
use vstd::utf8::{encode_utf8, encode_utf8_decode_utf8, encode_utf8_valid_utf8};

use crate::error::SessionErrorView;
use crate::hex::{hex_encoded, hex_writing_decodes_to_its_bytes};
use crate::number::{decimal_int, written_integer_reads_back};
use crate::parameter::{parameter_meaning, Meaning};
use crate::pgtype::PgType;
use crate::pgvector::{MAX_DENSE_F32_DIMENSIONS, MIN_DENSE_F32_DIMENSIONS};
use crate::row::{
    blob_payload, bool_payload, field_of, integer_field, integer_payload, names_zone,
    needs_quotes, oid_payload, text_field, vector_field, CoreVector, FieldOutcome,
};
use crate::value::{BindValueView, FieldFormat};
use crate::vector::{
    big_endian_byte, elements_blob, is_finite_pattern, number_is_the_sum_of_its_bytes, vector_bytes,
    written_vector_reads_back,
};

verus! {

/// A value is written, as the given bytes.
pub open spec fn goes_out_as(outcome: FieldOutcome, payload: Seq<u8>) -> bool {
    outcome == Ok::<Option<Seq<u8>>, SessionErrorView>(Some(field_of(payload)))
}

/// A parameter stands for a value.
pub open spec fn stands_for(meaning: Meaning, value: BindValueView) -> bool {
    meaning == Ok::<BindValueView, Seq<char>>(value)
}

/// Whether `ty` is one of the integer types.
pub open spec fn is_integer_type(ty: PgType) -> bool {
    ty == PgType::Int2 || ty == PgType::Int4 || ty == PgType::Int8
}

/// Whether parameters of type `ty` are taken as they are written.
pub open spec fn is_taken_as_text(ty: PgType) -> bool {
    &&& !is_integer_type(ty)
    &&& ty != PgType::Oid && ty != PgType::Bool && ty != PgType::Bytea && ty != PgType::Unknown
    &&& ty != PgType::Float4 && ty != PgType::Float8 && ty != PgType::Numeric
}

/// An integer that goes out as text comes back as the same integer, through a
/// parameter of an integer type or of no type at all.
pub proof fn integer_comes_back(i: i64, ty: PgType)
    requires
        is_integer_type(ty),
    ensures
        goes_out_as(integer_field(i, ty, (ty.oid_number(), false)), integer_payload(i, false)),
        stands_for(
            parameter_meaning(integer_payload(i, false), ty, FieldFormat::Text),
            BindValueView::Integer(i as int),
        ),
        stands_for(
            parameter_meaning(integer_payload(i, false), PgType::Unknown, FieldFormat::Text),
            BindValueView::Integer(i as int),
        ),
{
    let text = decimal_int(i as int);
    encode_utf8_valid_utf8(text);
    encode_utf8_decode_utf8(text);
    written_integer_reads_back(i as int);
}

/// An OID that goes out, as text or in binary, comes back in the same format as the
/// same OID.
pub proof fn oid_comes_back(oid: u32, format: FieldFormat)
    ensures
        ({
            let binary = format == FieldFormat::Binary;
            &&& goes_out_as(
                integer_field(oid as i64, PgType::Oid, (PgType::Oid.oid_number(), binary)),
                oid_payload(oid, binary),
            )
            &&& stands_for(
                parameter_meaning(oid_payload(oid, binary), PgType::Oid, format),
                BindValueView::Integer(oid as int),
            )
        }),
{
    match format {
        FieldFormat::Text => {
            let text = decimal_int(oid as int);
            encode_utf8_valid_utf8(text);
            encode_utf8_decode_utf8(text);
            written_integer_reads_back(oid as int);
        },
        FieldFormat::Binary => {
            number_is_the_sum_of_its_bytes(oid);
            let bytes = oid_payload(oid, true);
            assert(bytes[0] == big_endian_byte(oid, 0));
            assert(bytes[1] == big_endian_byte(oid, 1));
            assert(bytes[2] == big_endian_byte(oid, 2));
            assert(bytes[3] == big_endian_byte(oid, 3));
        },
    }
}

/// An integer that goes out in a boolean column as text comes back as one if it was
/// not zero, and as zero if it was.
pub proof fn boolean_comes_back(i: i64)
    ensures
        goes_out_as(
            integer_field(i, PgType::Bool, (PgType::Bool.oid_number(), false)),
            bool_payload(i != 0, false),
        ),
        stands_for(
            parameter_meaning(bool_payload(i != 0, false), PgType::Bool, FieldFormat::Text),
            BindValueView::Integer(if i != 0 {
                1
            } else {
                0
            }),
        ),
{
    reveal_strlit("t");
    reveal_strlit("f");
    let text = if i != 0 {
        seq!['t']
    } else {
        seq!['f']
    };
    encode_utf8_valid_utf8(text);
    encode_utf8_decode_utf8(text);
    assert(seq!['t'] =~= "t"@);
    assert(seq!['f'] =~= "f"@);
    reveal_strlit("true");
    reveal_strlit("TRUE");
    reveal_strlit("1");
    reveal_strlit("yes");
    reveal_strlit("on");
    if i == 0 {
        assert(text[0] == 'f');
        assert("t"@[0] == 't');
        assert("1"@[0] == '1');
    }
}

/// A byte string that goes out as text comes back as the same byte string.
pub proof fn byte_string_comes_back(data: Seq<u8>)
    ensures
        stands_for(
            parameter_meaning(
                blob_payload(data, PgType::Bytea.oid_number(), false),
                PgType::Bytea,
                FieldFormat::Text,
            ),
            BindValueView::Blob(data),
        ),
{
    let digits = hex_encoded(data);
    let text = "\\x"@ + digits;
    encode_utf8_valid_utf8(text);
    encode_utf8_decode_utf8(text);
    assert(text.skip("\\x"@.len() as int) =~= digits);
    assert("\\x"@ =~= text.subrange(0, "\\x"@.len() as int));
    hex_writing_decodes_to_its_bytes(data);
}

/// A text that goes out as text comes back as the same text, through a parameter of
/// the type of its column, where parameters of that type are taken as they are
/// written. Internal characters go out as numbers, timestamps may be given a time zone,
/// and the values of two older array types quotes.
pub proof fn text_comes_back(text: Seq<char>, ty: PgType)
    requires
        is_taken_as_text(ty),
        ty != PgType::Char,
        ty != PgType::Timestamptz || names_zone(text),
        ty.oid_number() == 22 || ty.oid_number() == 30 ==> !needs_quotes(text),
    ensures
        goes_out_as(text_field(text, ty, (ty.oid_number(), false)), encode_utf8(text)),
        stands_for(
            parameter_meaning(encode_utf8(text), ty, FieldFormat::Text),
            BindValueView::Text(text),
        ),
{
    encode_utf8_valid_utf8(text);
    encode_utf8_decode_utf8(text);
}

/// A timestamp with time zone always goes out with a time zone: its own, or that of
/// UTC.
pub proof fn timestamp_goes_out_with_its_zone(text: Seq<char>)
    ensures
        ({
            let ty = PgType::Timestamptz;
            let sent = if names_zone(text) {
                text
            } else {
                text + "+00"@
            };
            &&& goes_out_as(text_field(text, ty, (ty.oid_number(), false)), encode_utf8(sent))
            &&& names_zone(sent)
            &&& stands_for(
                parameter_meaning(encode_utf8(sent), ty, FieldFormat::Text),
                BindValueView::Text(sent),
            )
        }),
{
    reveal_strlit("+00");
    let sent = if names_zone(text) {
        text
    } else {
        text + "+00"@
    };
    if !names_zone(text) {
        assert(sent[text.len() as int] == '+');
    }
    text_comes_back(sent, PgType::Timestamptz);
}

/// A vector that goes out as text comes back as the text that stands for it, and one
/// of finite elements that goes out in binary comes back as its elements.
pub proof fn vector_comes_back(vector: CoreVector)
    requires
        vector.dense_f32,
        vector.dims == vector.elements@.len(),
        MIN_DENSE_F32_DIMENSIONS <= vector.dims <= MAX_DENSE_F32_DIMENSIONS,
        forall|k: int|
            0 <= k < vector.elements@.len() ==> is_finite_pattern(#[trigger] vector.elements@[k]),
    ensures
        goes_out_as(vector_field(vector, FieldFormat::Text), encode_utf8(vector.text@)),
        stands_for(
            parameter_meaning(encode_utf8(vector.text@), PgType::Vector, FieldFormat::Text),
            BindValueView::Text(vector.text@),
        ),
        goes_out_as(
            vector_field(vector, FieldFormat::Binary),
            vector_bytes(vector.dims as int, vector.elements@),
        ),
        stands_for(
            parameter_meaning(
                vector_bytes(vector.dims as int, vector.elements@),
                PgType::Vector,
                FieldFormat::Binary,
            ),
            BindValueView::Blob(elements_blob(vector.elements@)),
        ),
{
    encode_utf8_valid_utf8(vector.text@);
    encode_utf8_decode_utf8(vector.text@);
    written_vector_reads_back(vector.elements@);
}

} // verus!
