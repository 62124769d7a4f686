//! What the parameters of a statement stand for, type by type, and which types they
//! have.

use vstd::prelude::*;
use vstd::utf8::{
    decode_utf8, encode_utf8, encode_utf8_decode_utf8, encode_utf8_valid_utf8, valid_utf8,
};

use crate::error::ErrorInfo;
use crate::hex::hex_meaning;
use crate::metadata::PgParameterMetadata;
use crate::number::{
    i64_error_text, is_exponent, is_float_text, is_mantissa, is_number,
    lemma_mantissa_has_no_letter, signed_text, u32_error_text, unsigned_text,
};
use crate::parameter::{
    bound_type, conveys, described_type, parameter_meaning, parameter_type, statement_parameters,
    takes_vector, Meaning,
};
use crate::pgtype::{listed_type, listed_type_name, PgType};
use crate::text::{ascii_lower, ascii_lower_char, utf8_error_text};
use crate::value::{BindValue, BindValueView, FieldFormat};
use crate::vector::vector_meaning;

verus! {

proof fn lemma_text_of_bytes(t: Seq<char>)
    ensures
        valid_utf8(encode_utf8(t)),
        decode_utf8(encode_utf8(t)) == t,
{
    encode_utf8_valid_utf8(t);
    encode_utf8_decode_utf8(t);
}

proof fn lemma_lower_words()
    ensures
        ascii_lower("true"@) == "true"@,
        ascii_lower("t"@) == "t"@,
        ascii_lower("false"@) == "false"@,
        ascii_lower("f"@) == "f"@,
{
    reveal_strlit("true");
    reveal_strlit("t");
    reveal_strlit("false");
    reveal_strlit("f");
    assert(ascii_lower("true"@) =~= "true"@);
    assert(ascii_lower("t"@) =~= "t"@);
    assert(ascii_lower("false"@) =~= "false"@);
    assert(ascii_lower("f"@) =~= "f"@);
}

/// A text that comes without a type, and looks neither like a number nor like a
/// boolean, is that text, character for character.
pub proof fn untyped_text_is_kept(t: Seq<char>, format: FieldFormat)
    requires
        !(signed_text(t) matches Some(v) && i64::MIN <= v <= i64::MAX),
        !is_float_text(t),
        ascii_lower(t) != "true"@,
        ascii_lower(t) != "t"@,
        ascii_lower(t) != "false"@,
        ascii_lower(t) != "f"@,
    ensures
        parameter_meaning(encode_utf8(t), PgType::Unknown, format) == Ok::<
            BindValueView,
            Seq<char>,
        >(BindValueView::Text(t)),
{
    lemma_text_of_bytes(t);
    lemma_lower_words();
}

/// A number that comes without a type is that number: an integer where an `i64` holds
/// it, and otherwise the floating point number that the text writes.
pub proof fn untyped_number_is_the_number(t: Seq<char>, format: FieldFormat)
    ensures
        signed_text(t) matches Some(v) && i64::MIN <= v <= i64::MAX ==> parameter_meaning(
            encode_utf8(t),
            PgType::Unknown,
            format,
        ) == Ok::<BindValueView, Seq<char>>(BindValueView::Integer(signed_text(t)->0)),
        !(signed_text(t) matches Some(v) && i64::MIN <= v <= i64::MAX) && is_float_text(t)
            ==> parameter_meaning(encode_utf8(t), PgType::Unknown, format) == Ok::<
            BindValueView,
            Seq<char>,
        >(BindValueView::Real(t)),
{
    lemma_text_of_bytes(t);
}

proof fn lemma_word_is_no_number(t: Seq<char>)
    requires
        t.len() > 0,
        t[0] == 't' || t[0] == 'T' || t[0] == 'f' || t[0] == 'F',
    ensures
        signed_text(t) is None,
        !is_float_text(t),
{
    reveal_strlit("inf");
    reveal_strlit("infinity");
    reveal_strlit("nan");
    assert(!crate::number::is_digit(t[0]));
    assert(ascii_lower(t)[0] == ascii_lower_char(t[0]));
    if is_number(t) {
        let k = choose|k: int|
            0 <= k <= t.len() && #[trigger] is_mantissa(t.take(k)) && is_exponent(t.skip(k));
        lemma_mantissa_has_no_letter(t.take(k), 0);
        assert(t.take(k)[0] == t[0]);
    }
}

/// A word for a truth value that comes without a type is one or zero, in any case.
pub proof fn untyped_truth_is_one_or_zero(t: Seq<char>, format: FieldFormat)
    ensures
        ascii_lower(t) == "true"@ || ascii_lower(t) == "t"@ ==> parameter_meaning(
            encode_utf8(t),
            PgType::Unknown,
            format,
        ) == Ok::<BindValueView, Seq<char>>(BindValueView::Integer(1)),
        ascii_lower(t) == "false"@ || ascii_lower(t) == "f"@ ==> parameter_meaning(
            encode_utf8(t),
            PgType::Unknown,
            format,
        ) == Ok::<BindValueView, Seq<char>>(BindValueView::Integer(0)),
{
    lemma_text_of_bytes(t);
    lemma_lower_words();
    let lower = ascii_lower(t);
    if lower == "true"@ || lower == "t"@ || lower == "false"@ || lower == "f"@ {
        reveal_strlit("true");
        reveal_strlit("t");
        reveal_strlit("false");
        reveal_strlit("f");
        assert(lower.len() == t.len());
        assert(lower[0] == ascii_lower_char(t[0]));
        assert(lower[0] == 't' || lower[0] == 'f');
        lemma_word_is_no_number(t);
        assert("true"@.len() != "false"@.len() && "true"@.len() != "f"@.len());
        assert("t"@.len() != "false"@.len() && "t"@[0] != "f"@[0]);
    }
}

/// A parameter of an integer type is the integer that its text writes; a text that
/// writes none, or one that an `i64` does not hold, is refused.
pub proof fn integer_parameter_is_the_integer(t: Seq<char>, ty: PgType, format: FieldFormat)
    requires
        ty == PgType::Int2 || ty == PgType::Int4 || ty == PgType::Int8,
    ensures
        ({
            let meaning = parameter_meaning(encode_utf8(t), ty, format);
            match signed_text(t) {
                Some(v) => if i64::MIN <= v <= i64::MAX {
                    meaning == Ok::<BindValueView, Seq<char>>(BindValueView::Integer(v))
                } else {
                    meaning == Err::<BindValueView, Seq<char>>(
                        "invalid integer parameter: "@ + i64_error_text(t),
                    )
                },
                None => meaning == Err::<BindValueView, Seq<char>>(
                    "invalid integer parameter: "@ + i64_error_text(t),
                ),
            }
        }),
{
    lemma_text_of_bytes(t);
}

/// An OID in text is the number that it writes; a text that writes none, or one that a
/// `u32` does not hold, is refused.
pub proof fn oid_parameter_is_the_number(t: Seq<char>)
    ensures
        ({
            let meaning = parameter_meaning(encode_utf8(t), PgType::Oid, FieldFormat::Text);
            match unsigned_text(t) {
                Some(v) => if v <= u32::MAX {
                    meaning == Ok::<BindValueView, Seq<char>>(BindValueView::Integer(v))
                } else {
                    meaning == Err::<BindValueView, Seq<char>>(
                        "invalid OID parameter: "@ + u32_error_text(t),
                    )
                },
                None => meaning == Err::<BindValueView, Seq<char>>(
                    "invalid OID parameter: "@ + u32_error_text(t),
                ),
            }
        }),
{
    lemma_text_of_bytes(t);
}

/// An OID in binary is its four bytes, the first for the highest places; any other
/// number of bytes is refused.
pub proof fn binary_oid_is_its_bytes(bytes: Seq<u8>)
    ensures
        bytes.len() == 4 ==> parameter_meaning(bytes, PgType::Oid, FieldFormat::Binary) == Ok::<
            BindValueView,
            Seq<char>,
        >(
            BindValueView::Integer(
                ((bytes[0] as int * 256 + bytes[1]) * 256 + bytes[2]) * 256 + bytes[3],
            ),
        ),
        bytes.len() != 4 ==> parameter_meaning(bytes, PgType::Oid, FieldFormat::Binary) == Err::<
            BindValueView,
            Seq<char>,
        >("invalid binary OID parameter: expected 4 bytes"@),
{
}

/// A parameter of a type of floating point or decimal numbers is the number that its
/// text writes, and refused where it writes none.
pub proof fn float_parameter_is_the_number(t: Seq<char>, ty: PgType, format: FieldFormat)
    requires
        ty == PgType::Float4 || ty == PgType::Float8 || ty == PgType::Numeric,
    ensures
        is_float_text(t) ==> parameter_meaning(encode_utf8(t), ty, format) == Ok::<
            BindValueView,
            Seq<char>,
        >(BindValueView::Real(t)),
        !is_float_text(t) && t.len() == 0 ==> parameter_meaning(encode_utf8(t), ty, format)
            == Err::<BindValueView, Seq<char>>(
            "invalid float parameter: "@ + "cannot parse float from empty string"@,
        ),
        !is_float_text(t) && t.len() > 0 ==> parameter_meaning(encode_utf8(t), ty, format) == Err::<
            BindValueView,
            Seq<char>,
        >("invalid float parameter: "@ + "invalid float literal"@),
{
    lemma_text_of_bytes(t);
}

/// A boolean parameter is one for six words, zero for six others, and refused for
/// everything else.
pub proof fn boolean_parameter_is_one_of_twelve_words(t: Seq<char>, format: FieldFormat)
    ensures
        ({
            let meaning = parameter_meaning(encode_utf8(t), PgType::Bool, format);
            let yes = t == "t"@ || t == "true"@ || t == "TRUE"@ || t == "1"@ || t == "yes"@ || t
                == "on"@;
            let no = t == "f"@ || t == "false"@ || t == "FALSE"@ || t == "0"@ || t == "no"@ || t
                == "off"@;
            &&& yes ==> meaning == Ok::<BindValueView, Seq<char>>(BindValueView::Integer(1))
            &&& no ==> meaning == Ok::<BindValueView, Seq<char>>(BindValueView::Integer(0))
            &&& !yes && !no ==> meaning == Err::<BindValueView, Seq<char>>(
                "invalid boolean parameter: "@ + t,
            )
        }),
{
    lemma_text_of_bytes(t);
    reveal_strlit("t");
    reveal_strlit("true");
    reveal_strlit("TRUE");
    reveal_strlit("1");
    reveal_strlit("yes");
    reveal_strlit("on");
    reveal_strlit("f");
    reveal_strlit("false");
    reveal_strlit("FALSE");
    reveal_strlit("0");
    reveal_strlit("no");
    reveal_strlit("off");
    assert("t"@[0] == 't' && "f"@[0] == 'f' && "1"@[0] == '1' && "0"@[0] == '0');
    assert("true"@[0] == 't' && "TRUE"@[0] == 'T' && "yes"@[0] == 'y' && "on"@[0] == 'o');
    assert("false"@[0] == 'f' && "FALSE"@[0] == 'F' && "no"@[0] == 'n' && "off"@[0] == 'o');
    assert("on"@[1] == 'n' && "off"@[1] == 'f');
}

/// A byte string is, after a backslash and an `x`, the bytes that the digits write, and
/// refused where they write none; any other text is its own bytes.
pub proof fn byte_string_parameter_is_its_bytes(t: Seq<char>, digits: Seq<char>, format: FieldFormat)
    ensures
        !"\\x"@.is_prefix_of(t) ==> parameter_meaning(encode_utf8(t), PgType::Bytea, format)
            == Ok::<BindValueView, Seq<char>>(BindValueView::Blob(encode_utf8(t))),
        hex_meaning(digits) matches Ok(data) ==> parameter_meaning(
            encode_utf8("\\x"@ + digits),
            PgType::Bytea,
            format,
        ) == Ok::<BindValueView, Seq<char>>(BindValueView::Blob(hex_meaning(digits)->Ok_0)),
        hex_meaning(digits) matches Err(e) ==> parameter_meaning(
            encode_utf8("\\x"@ + digits),
            PgType::Bytea,
            format,
        ) == Err::<BindValueView, Seq<char>>(
            "invalid bytea hex parameter: "@ + hex_meaning(digits)->Err_0,
        ),
{
    lemma_text_of_bytes(t);
    let whole = "\\x"@ + digits;
    lemma_text_of_bytes(whole);
    assert("\\x"@ =~= whole.subrange(0, "\\x"@.len() as int));
    assert(whole.skip("\\x"@.len() as int) =~= digits);
}

/// A parameter of any type for which numbers, truth values and byte strings are not
/// read is its text, character for character, in either format.
pub proof fn text_parameter_is_kept(t: Seq<char>, ty: PgType, format: FieldFormat)
    requires
        ty != PgType::Int2 && ty != PgType::Int4 && ty != PgType::Int8 && ty != PgType::Oid,
        ty != PgType::Float4 && ty != PgType::Float8 && ty != PgType::Numeric,
        ty != PgType::Bool && ty != PgType::Bytea && ty != PgType::Unknown,
        ty.oid_number() == 40001 ==> format == FieldFormat::Text,
    ensures
        parameter_meaning(encode_utf8(t), ty, format) == Ok::<BindValueView, Seq<char>>(
            BindValueView::Text(t),
        ),
{
    lemma_text_of_bytes(t);
}

/// A vector in binary is the blob of its elements, or refused as its bytes are.
pub proof fn binary_vector_parameter_is_its_blob(bytes: Seq<u8>, ty: PgType)
    requires
        ty.oid_number() == 40001,
    ensures
        match vector_meaning(bytes) {
            Ok(blob) => parameter_meaning(bytes, ty, FieldFormat::Binary) == Ok::<
                BindValueView,
                Seq<char>,
            >(BindValueView::Blob(blob)),
            Err(e) => parameter_meaning(bytes, ty, FieldFormat::Binary) == Err::<
                BindValueView,
                Seq<char>,
            >(e),
        },
{
}

/// Bytes that are no text are refused, but for OIDs and vectors in binary.
pub proof fn bytes_that_are_no_text_are_refused(bytes: Seq<u8>, ty: PgType, format: FieldFormat)
    requires
        !valid_utf8(bytes),
        format == FieldFormat::Binary ==> ty != PgType::Oid && ty.oid_number() != 40001,
    ensures
        ty.oid_number() != 40001 ==> parameter_meaning(bytes, ty, format) == Err::<
            BindValueView,
            Seq<char>,
        >("invalid UTF-8 in parameter: "@ + utf8_error_text(bytes)),
        ty.oid_number() == 40001 ==> parameter_meaning(bytes, ty, format) == Err::<
            BindValueView,
            Seq<char>,
        >("invalid UTF-8 in vector parameter: "@ + utf8_error_text(bytes)),
{
}

/// A parameter is answered with the value that it stands for, and with an error that has
/// the message exactly where it stands for none.
pub proof fn answers_say_what_parameters_mean(r: Result<BindValue, ErrorInfo>, meaning: Meaning)
    requires
        conveys(r, meaning),
    ensures
        r is Ok <==> meaning is Ok,
        r matches Ok(value) ==> value@ == meaning->Ok_0,
        r matches Err(e) ==> e.message@ == meaning->Err_0 && e.severity@ == "ERROR"@ && e.code@
            == "XX000"@,
{
}

/// A type that the client declares counts, whatever the query shows: it is the type
/// with that OID, if there is one.
pub proof fn declared_types_count_first(
    type_oids: Seq<u32>,
    metadata: PgParameterMetadata,
    i: int,
)
    requires
        0 <= i < type_oids.len(),
        type_oids[i] != 0,
    ensures
        type_oids[i] == 40001 ==> parameter_type(type_oids, metadata, i) == Some(PgType::Vector),
        type_oids[i] != 40001 ==> (parameter_type(type_oids, metadata, i) is Some
            <==> listed_type_name(type_oids[i]) is Some),
        parameter_type(type_oids, metadata, i) matches Some(t) ==> t.oid_number() == type_oids[i],
{
}

/// Where the client declares none, a parameter is a vector or an OID if the query shows
/// it, a vector first, and of no known type otherwise. Parameters are counted from one.
pub proof fn undeclared_types_are_those_the_query_shows(
    type_oids: Seq<u32>,
    metadata: PgParameterMetadata,
    i: int,
)
    requires
        0 <= i < usize::MAX,
        i < type_oids.len() ==> type_oids[i] == 0,
    ensures
        metadata.vector_parameters@.contains((i + 1) as usize) ==> parameter_type(
            type_oids,
            metadata,
            i,
        ) == Some(PgType::Vector),
        !metadata.vector_parameters@.contains((i + 1) as usize) && metadata.oid_parameters@.contains(
            (i + 1) as usize,
        ) ==> parameter_type(type_oids, metadata, i) == Some(PgType::Oid),
        !metadata.vector_parameters@.contains((i + 1) as usize)
            && !metadata.oid_parameters@.contains((i + 1) as usize) ==> parameter_type(
            type_oids,
            metadata,
            i,
        ) is None,
{
}

/// A statement has as many parameters as the query uses, and no fewer than the client
/// declares.
pub proof fn no_parameter_is_left_out(type_oids: Seq<u32>, metadata: PgParameterMetadata)
    ensures
        statement_parameters(type_oids, metadata) >= type_oids.len(),
        statement_parameters(type_oids, metadata) >= metadata.parameter_count,
        statement_parameters(type_oids, metadata) == type_oids.len() || statement_parameters(
            type_oids,
            metadata,
        ) == metadata.parameter_count,
{
}

/// A statement takes a vector exactly where the client declares one or the query shows
/// one.
pub proof fn vectors_are_declared_or_shown(type_oids: Seq<u32>, metadata: PgParameterMetadata)
    ensures
        takes_vector(type_oids, metadata) <==> (exists|i: int|
            0 <= i < type_oids.len() && #[trigger] type_oids[i] == 40001u32) || exists|i: int|
            0 <= i < metadata.vector_parameters@.len() && #[trigger] metadata.vector_parameters@[i]
                >= 0,
{
    if metadata.vector_parameters@.len() > 0 {
        assert(metadata.vector_parameters@[0] >= 0);
    }
    if exists|i: int| 0 <= i < type_oids.len() && #[trigger] type_oids[i] == 40001u32 {
        assert(type_oids.contains(40001u32));
    }
}

/// A parameter is described and read by its type where that is known; otherwise it is
/// described as text and read by what it looks like.
pub proof fn known_types_are_used(types: Seq<Option<PgType>>, t: PgType, i: int)
    requires
        0 <= i,
    ensures
        described_type(Some(t)) == t,
        described_type(None) == PgType::Text,
        i < types.len() && types[i] == Some(t) ==> bound_type(types, i) == t,
        i >= types.len() || types[i] is None ==> bound_type(types, i) == PgType::Unknown,
{
}

/// A type is listed under an OID exactly where the crate of types names one, and has
/// that OID.
pub proof fn listed_types_have_their_oid(oid: u32)
    ensures
        listed_type(oid) is Some <==> listed_type_name(oid) is Some,
        listed_type(oid) matches Some(t) ==> t.oid_number() == oid,
        PgType::with_oid(oid).oid_number() == oid,
{
}

} // verus!
