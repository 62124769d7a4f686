//! Parameters: what the bytes that a client binds to a parameter stand for, and
//! which types the parameters of a statement have.

use vstd::prelude::*;
use vstd::utf8::{decode_utf8, valid_utf8};

use crate::error::{error_info, server_error, ErrorInfo};
use crate::hex::{decode_hex, hex_meaning};
use crate::metadata::{contains, PgParameterMetadata};
use crate::number::{
    decimal, decimal_string, float_text, i64_error_text, is_float_text, parse_i64, parse_u32,
    signed_text, u32_error_text, unsigned_text,
};
use crate::pgtype::{built_in_type, listed_type, PgType};
use crate::pgvector::VECTOR_TYPE_OID;
use crate::text::{
    after_prefix, ascii_lower, joined, same, same_ignoring_ascii_case, strip_prefix,
    utf8_error_text, utf8_text,
};
use crate::value::{BindValue, BindValueView, FieldFormat, Format};
use crate::vector::{decode_pgvector_binary, vector_meaning};

verus! {

/// What a parameter stands for, or the message with which it is refused.
pub type Meaning = Result<BindValueView, Seq<char>>;

/// The integer that `text` stands for, if an `i64` holds it.
pub open spec fn integer_meaning(text: Seq<char>) -> Option<int> {
    match signed_text(text) {
        Some(v) => if i64::MIN <= v <= i64::MAX {
            Some(v)
        } else {
            None
        },
        None => None,
    }
}

/// The OID that `text` stands for.
pub open spec fn oid_meaning(text: Seq<char>) -> Option<int> {
    match unsigned_text(text) {
        Some(v) => if v <= u32::MAX {
            Some(v)
        } else {
            None
        },
        None => None,
    }
}

/// The integer, one or zero, that `text` stands for as a boolean.
pub open spec fn boolean_meaning(text: Seq<char>) -> Option<int> {
    if text == "t"@ || text == "true"@ || text == "TRUE"@ || text == "1"@ || text == "yes"@ || text
        == "on"@ {
        Some(1)
    } else if text == "f"@ || text == "false"@ || text == "FALSE"@ || text == "0"@ || text == "no"@
        || text == "off"@ {
        Some(0)
    } else {
        None
    }
}

/// Why `text` is refused as a floating point number.
pub open spec fn float_refusal(text: Seq<char>) -> Seq<char> {
    if text.len() == 0 {
        "cannot parse float from empty string"@
    } else {
        "invalid float literal"@
    }
}

/// The value that `text` is taken for where the client names no type: a number
/// where it looks like one, then a boolean, and a text otherwise.
pub open spec fn inferred_meaning(text: Seq<char>) -> BindValueView {
    let lower = ascii_lower(text);
    if integer_meaning(text) is Some {
        BindValueView::Integer(integer_meaning(text)->0)
    } else if is_float_text(text) {
        BindValueView::Real(text)
    } else if lower == ascii_lower("true"@) || lower == ascii_lower("t"@) {
        BindValueView::Integer(1)
    } else if lower == ascii_lower("false"@) || lower == ascii_lower("f"@) {
        BindValueView::Integer(0)
    } else {
        BindValueView::Text(text)
    }
}

/// What a parameter of type `ty` stands for whose bytes are the text `text`.
pub open spec fn text_meaning(text: Seq<char>, bytes: Seq<u8>, ty: PgType) -> Meaning {
    match ty {
        PgType::Int2 | PgType::Int4 | PgType::Int8 => match integer_meaning(text) {
            Some(v) => Ok(BindValueView::Integer(v)),
            None => Err("invalid integer parameter: "@ + i64_error_text(text)),
        },
        PgType::Oid => match oid_meaning(text) {
            Some(v) => Ok(BindValueView::Integer(v)),
            None => Err("invalid OID parameter: "@ + u32_error_text(text)),
        },
        PgType::Float4 | PgType::Float8 | PgType::Numeric => if is_float_text(text) {
            Ok(BindValueView::Real(text))
        } else {
            Err("invalid float parameter: "@ + float_refusal(text))
        },
        PgType::Bool => match boolean_meaning(text) {
            Some(v) => Ok(BindValueView::Integer(v)),
            None => Err("invalid boolean parameter: "@ + text),
        },
        PgType::Bytea => match after_prefix(text, "\\x"@) {
            Some(digits) => match hex_meaning(digits) {
                Ok(data) => Ok(BindValueView::Blob(data)),
                Err(e) => Err("invalid bytea hex parameter: "@ + e),
            },
            None => Ok(BindValueView::Blob(bytes)),
        },
        PgType::Unknown => Ok(inferred_meaning(text)),
        _ => Ok(BindValueView::Text(text)),
    }
}

/// What the bytes of a parameter of type `ty` stand for.
pub open spec fn parameter_meaning(bytes: Seq<u8>, ty: PgType, format: FieldFormat) -> Meaning {
    if ty.oid_number() == VECTOR_TYPE_OID {
        match format {
            FieldFormat::Text => if valid_utf8(bytes) {
                Ok(BindValueView::Text(decode_utf8(bytes)))
            } else {
                Err("invalid UTF-8 in vector parameter: "@ + utf8_error_text(bytes))
            },
            FieldFormat::Binary => match vector_meaning(bytes) {
                Ok(blob) => Ok(BindValueView::Blob(blob)),
                Err(e) => Err(e),
            },
        }
    } else if format == FieldFormat::Binary && ty == PgType::Oid {
        if bytes.len() == 4 {
            Ok(
                BindValueView::Integer(
                    bytes[0] * 0x100_0000 + bytes[1] * 0x1_0000 + bytes[2] * 0x100 + bytes[3],
                ),
            )
        } else {
            Err("invalid binary OID parameter: expected 4 bytes"@)
        }
    } else if !valid_utf8(bytes) {
        Err("invalid UTF-8 in parameter: "@ + utf8_error_text(bytes))
    } else {
        text_meaning(decode_utf8(bytes), bytes, ty)
    }
}

/// Whether `r` is the outcome `meaning`.
pub open spec fn conveys(r: Result<BindValue, ErrorInfo>, meaning: Meaning) -> bool {
    match r {
        Ok(value) => meaning == Ok::<BindValueView, Seq<char>>(value@),
        Err(e) => meaning is Err && e@ == server_error(meaning->Err_0),
    }
}

fn refusal(what: &str, why: &str) -> (r: ErrorInfo)
    ensures
        r@ == server_error(what@ + why@),
{
    error_info(joined(what, why).as_str())
}

fn infer_value(text: &str) -> (r: BindValue)
    ensures
        r@ == inferred_meaning(text@),
{
    if let Ok(i) = parse_i64(text) {
        BindValue::Integer(i)
    } else if float_text(text) {
        BindValue::Real(text.to_owned())
    } else if same_ignoring_ascii_case(text, "true") || same_ignoring_ascii_case(text, "t") {
        BindValue::Integer(1)
    } else if same_ignoring_ascii_case(text, "false") || same_ignoring_ascii_case(text, "f") {
        BindValue::Integer(0)
    } else {
        BindValue::Text(text.to_owned())
    }
}

fn boolean_value(text: &str) -> (r: Option<i64>)
    ensures
        match r {
            Some(v) => boolean_meaning(text@) == Some(v as int),
            None => boolean_meaning(text@) is None,
        },
{
    if same(text, "t") || same(text, "true") || same(text, "TRUE") || same(text, "1") || same(
        text,
        "yes",
    ) || same(text, "on") {
        Some(1)
    } else if same(text, "f") || same(text, "false") || same(text, "FALSE") || same(text, "0")
        || same(text, "no") || same(text, "off") {
        Some(0)
    } else {
        None
    }
}

fn bytea_value(text: &str, bytes: &[u8]) -> (r: Result<BindValue, ErrorInfo>)
    ensures
        conveys(r, text_meaning(text@, bytes@, PgType::Bytea)),
{
    match strip_prefix(text, "\\x") {
        Some(digits) => match decode_hex(digits.as_str()) {
            Ok(data) => Ok(BindValue::Blob(data)),
            Err(e) => Err(refusal("invalid bytea hex parameter: ", e.as_str())),
        },
        None => Ok(BindValue::Blob(vstd::slice::slice_to_vec(bytes))),
    }
}

fn text_value(text: &str, bytes: &[u8], pg_type: &PgType) -> (r: Result<BindValue, ErrorInfo>)
    ensures
        conveys(r, text_meaning(text@, bytes@, *pg_type)),
{
    match *pg_type {
        PgType::Int2 | PgType::Int4 | PgType::Int8 => match parse_i64(text) {
            Ok(i) => Ok(BindValue::Integer(i)),
            Err(e) => Err(refusal("invalid integer parameter: ", e.as_str())),
        },
        PgType::Oid => match parse_u32(text) {
            Ok(oid) => Ok(BindValue::Integer(oid as i64)),
            Err(e) => Err(refusal("invalid OID parameter: ", e.as_str())),
        },
        PgType::Float4 | PgType::Float8 | PgType::Numeric => {
            if float_text(text) {
                Ok(BindValue::Real(text.to_owned()))
            } else if text.is_empty() {
                Err(refusal("invalid float parameter: ", "cannot parse float from empty string"))
            } else {
                Err(refusal("invalid float parameter: ", "invalid float literal"))
            }
        },
        PgType::Bool => match boolean_value(text) {
            Some(v) => Ok(BindValue::Integer(v)),
            None => Err(refusal("invalid boolean parameter: ", text)),
        },
        PgType::Bytea => bytea_value(text, bytes),
        PgType::Unknown => Ok(infer_value(text)),
        _ => Ok(BindValue::Text(text.to_owned())),
    }
}

/// Convert text parameters and the supported binary formats to values. A
/// floating point number stays the text that stands for it.
pub fn pg_bytes_to_value(bytes: &[u8], pg_type: &PgType, format: FieldFormat) -> (r: Result<
    BindValue,
    ErrorInfo,
>)
    ensures
        conveys(r, parameter_meaning(bytes@, *pg_type, format)),
        match r {
            Ok(value) => parameter_meaning(bytes@, *pg_type, format) == Ok::<
                BindValueView,
                Seq<char>,
            >(value@),
            Err(e) => {
                &&& e.severity@ == "ERROR"@ && e.code@ == "XX000"@
                &&& parameter_meaning(bytes@, *pg_type, format) == Err::<BindValueView, Seq<char>>(
                    e.message@,
                )
            },
        },
{
    if pg_type.oid() == VECTOR_TYPE_OID as u32 {
        return match format {
            FieldFormat::Text => match utf8_text(bytes) {
                Ok(text) => Ok(BindValue::Text(text.to_owned())),
                Err(e) => Err(refusal("invalid UTF-8 in vector parameter: ", e.as_str())),
            },
            FieldFormat::Binary => match decode_pgvector_binary(bytes) {
                Ok(blob) => Ok(BindValue::Blob(blob)),
                Err(e) => Err(e),
            },
        };
    }
    if format == FieldFormat::Binary && *pg_type == PgType::Oid {
        if bytes.len() != 4 {
            return Err(error_info("invalid binary OID parameter: expected 4 bytes"));
        }
        let oid: i64 = bytes[0] as i64 * 0x100_0000 + bytes[1] as i64 * 0x1_0000 + bytes[2] as i64
            * 0x100 + bytes[3] as i64;
        return Ok(BindValue::Integer(oid));
    }
    match utf8_text(bytes) {
        Ok(text) => text_value(text, bytes, pg_type),
        Err(e) => Err(refusal("invalid UTF-8 in parameter: ", e.as_str())),
    }
}

/// The OID that a client declares for parameter `index`, zero where it declares
/// none.
pub open spec fn declared_oid(type_oids: Seq<u32>, index: int) -> u32 {
    if index < type_oids.len() {
        type_oids[index]
    } else {
        0
    }
}

/// The type of parameter `index`, counted from zero, if it is known.
pub open spec fn parameter_type(
    type_oids: Seq<u32>,
    metadata: PgParameterMetadata,
    index: int,
) -> Option<PgType> {
    let oid = declared_oid(type_oids, index);
    let number = (index + 1) as usize;
    if oid == VECTOR_TYPE_OID {
        Some(PgType::Vector)
    } else if oid != 0 {
        listed_type(oid)
    } else if metadata.vector_parameters@.contains(number) {
        Some(PgType::Vector)
    } else if metadata.oid_parameters@.contains(number) {
        Some(PgType::Oid)
    } else {
        None
    }
}

/// How many parameters a statement has: as many as the query uses, or as the
/// client declares, if those are more.
pub open spec fn statement_parameters(type_oids: Seq<u32>, metadata: PgParameterMetadata) -> nat {
    if type_oids.len() < metadata.parameter_count {
        metadata.parameter_count as nat
    } else {
        type_oids.len()
    }
}

/// Whether a statement has a vector among its parameters, by what the client
/// declares or by what the query shows.
pub open spec fn takes_vector(type_oids: Seq<u32>, metadata: PgParameterMetadata) -> bool {
    type_oids.contains(VECTOR_TYPE_OID as u32) || metadata.vector_parameters@.len() > 0
}

fn declares(type_oids: &Vec<u32>, wanted: u32) -> (r: bool)
    ensures
        r == type_oids@.contains(wanted),
{
    let mut i: usize = 0;
    while i < type_oids.len()
        invariant
            i <= type_oids@.len(),
            forall|j: int| 0 <= j < i ==> type_oids@[j] != wanted,
        decreases type_oids.len() - i,
    {
        if type_oids[i] == wanted {
            return true;
        }
        i = i + 1;
    }
    false
}

/// Settle the types of the parameters of a statement that a client wants parsed:
/// those it declares first, then those that the query shows. A statement with a
/// vector among its parameters is refused while pgvector is not installed.
pub fn resolve_parameter_types(
    type_oids: &Vec<u32>,
    metadata: &PgParameterMetadata,
    vector_installed: bool,
) -> (r: Result<Vec<Option<PgType>>, ErrorInfo>)
    ensures
        match r {
            Ok(types) => {
                &&& takes_vector(type_oids@, *metadata) ==> vector_installed
                &&& types@ == Seq::new(
                    statement_parameters(type_oids@, *metadata),
                    |i: int| parameter_type(type_oids@, *metadata, i),
                )
            },
            Err(e) => {
                &&& takes_vector(type_oids@, *metadata) && !vector_installed
                &&& e@ == server_error(
                    "type \"vector\" does not exist; run CREATE EXTENSION vector first"@,
                )
            },
        },
{
    let declares_vector_parameter = declares(type_oids, VECTOR_TYPE_OID as u32);
    if (declares_vector_parameter || metadata.vector_parameters.len() > 0) && !vector_installed {
        return Err(
            error_info("type \"vector\" does not exist; run CREATE EXTENSION vector first"),
        );
    }
    let parameter_count: usize = if type_oids.len() < metadata.parameter_count {
        metadata.parameter_count
    } else {
        type_oids.len()
    };
    let mut parameter_types: Vec<Option<PgType>> = Vec::new();
    let mut index: usize = 0;
    while index < parameter_count
        invariant
            index <= parameter_count == statement_parameters(type_oids@, *metadata),
            parameter_types@.len() == index,
            forall|i: int|
                0 <= i < index ==> parameter_types@[i] == parameter_type(type_oids@, *metadata, i),
        decreases parameter_count - index,
    {
        let oid: u32 = if index < type_oids.len() {
            type_oids[index]
        } else {
            0
        };
        let parameter_number: usize = index + 1;
        let data_type = if oid == VECTOR_TYPE_OID as u32 || (oid == 0 && contains(
            &metadata.vector_parameters,
            parameter_number,
        )) {
            Some(PgType::Vector)
        } else if oid == 0 && contains(&metadata.oid_parameters, parameter_number) {
            Some(PgType::Oid)
        } else if oid == 0 {
            None
        } else {
            built_in_type(oid)
        };
        parameter_types.push(data_type);
        index = index + 1;
    }
    assert(parameter_types@ =~= Seq::new(
        statement_parameters(type_oids@, *metadata),
        |i: int| parameter_type(type_oids@, *metadata, i),
    ));
    Ok(parameter_types)
}

/// The type under which a parameter is described to a client, text where it is
/// not known.
pub open spec fn described_type(parameter: Option<PgType>) -> PgType {
    match parameter {
        Some(t) => t,
        None => PgType::Text,
    }
}

/// The types under which the parameters of a statement are described to a
/// client.
pub fn described_parameter_types(parameter_types: &Vec<Option<PgType>>) -> (r: Vec<PgType>)
    ensures
        r@ == Seq::new(parameter_types@.len(), |i: int| described_type(parameter_types@[i])),
{
    let mut out: Vec<PgType> = Vec::new();
    let mut i: usize = 0;
    while i < parameter_types.len()
        invariant
            i <= parameter_types@.len(),
            out@.len() == i,
            forall|j: int| 0 <= j < i ==> out@[j] == described_type(parameter_types@[j]),
        decreases parameter_types.len() - i,
    {
        match parameter_types[i] {
            Some(t) => out.push(t),
            None => out.push(PgType::Text),
        }
        i = i + 1;
    }
    assert(out@ =~= Seq::new(parameter_types@.len(), |i: int| described_type(parameter_types@[i])));
    out
}

/// A value and the parameter it is to be bound to: the one that the compiled
/// statement knows by `name`, or the one at `position` where it knows none.
#[derive(Debug, PartialEq, Eq)]
pub struct PortalBinding {
    pub name: String,
    pub position: usize,
    pub value: BindValue,
}

/// The type by which the bytes of parameter `index` are read.
pub open spec fn bound_type(parameter_types: Seq<Option<PgType>>, index: int) -> PgType {
    if index < parameter_types.len() && parameter_types[index] is Some {
        parameter_types[index]->0
    } else {
        PgType::Unknown
    }
}

/// Extract parameter `index` of a portal. PostgreSQL parameter `$N` is the portal
/// parameter `N - 1`. The compiled statement may number its parameters in another
/// order, so that the parameter is to be looked up by its name first.
pub fn bind_portal_parameter(
    parameters: &Vec<Option<Vec<u8>>>,
    parameter_types: &Vec<Option<PgType>>,
    parameter_format: &Format,
    index: usize,
) -> (r: Result<PortalBinding, ErrorInfo>)
    requires
        index < parameters@.len(),
        parameters@[index as int] is Some ==> parameter_format.covers(index as int),
    ensures
        match parameters@[index as int] {
            None => r is Ok && r->Ok_0.value == BindValue::Null,
            Some(bytes) => {
                let meaning = parameter_meaning(
                    bytes@,
                    bound_type(parameter_types@, index as int),
                    parameter_format.format_of(index as int),
                );
                match r {
                    Ok(binding) => meaning == Ok::<BindValueView, Seq<char>>(binding.value@),
                    Err(e) => meaning is Err && e@ == server_error(meaning->Err_0),
                }
            },
        },
        r matches Ok(binding) ==> {
            &&& binding.name@ == "$"@ + decimal((index + 1) as nat)
            &&& binding.position == index + 1
        },
{
    let value = match &parameters[index] {
        None => BindValue::Null,
        Some(bytes) => {
            let pg_type = if index < parameter_types.len() {
                match parameter_types[index] {
                    Some(t) => t,
                    None => PgType::Unknown,
                }
            } else {
                PgType::Unknown
            };
            let format = parameter_format.format_for(index);
            match pg_bytes_to_value(bytes.as_slice(), &pg_type, format) {
                Ok(value) => value,
                Err(e) => {
                    return Err(e);
                },
            }
        },
    };
    assert(index < parameters.len());
    let position: usize = index + 1;
    Ok(
        PortalBinding {
            name: joined("$", decimal_string(position as u64).as_str()),
            position,
            value,
        },
    )
}

} // verus!
