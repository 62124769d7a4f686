//! The PostgreSQL types that go over the wire, and the types under which the
//! columns of a table are announced.

use postgres_types::Type;
use vstd::prelude::*;
use vstd::utf8::is_ascii_chars;

use crate::pgvector::VECTOR_TYPE_OID;
use crate::text::{ascii_upper, begins_with, chars_of, is_text, to_uppercase, uppercase};

verus! {

/// A PostgreSQL type: one of those that this server tells apart, the type of
/// pgvector, or another built-in type, known by its OID.
#[derive(Clone, Copy, Debug, PartialEq, Eq, Structural)]
pub enum PgType {
    Bool,
    Bytea,
    Char,
    Int8,
    Int2,
    Int4,
    Text,
    Oid,
    Json,
    Cidr,
    Float4,
    Float8,
    Unknown,
    Macaddr8,
    Macaddr,
    Inet,
    Varchar,
    Date,
    Time,
    Timestamp,
    Timestamptz,
    Numeric,
    Uuid,
    Jsonb,
    BoolArray,
    ByteaArray,
    Int8Array,
    Int4Array,
    TextArray,
    JsonArray,
    CidrArray,
    Float4Array,
    Float8Array,
    Macaddr8Array,
    MacaddrArray,
    InetArray,
    DateArray,
    TimeArray,
    TimestampArray,
    TimestamptzArray,
    NumericArray,
    UuidArray,
    JsonbArray,
    Vector,
    Other(u32),
}

impl PgType {
    /// The OID under which clients know the type.
    pub open spec fn oid_number(self) -> u32 {
        match self {
            PgType::Bool => 16,
            PgType::Bytea => 17,
            PgType::Char => 18,
            PgType::Int8 => 20,
            PgType::Int2 => 21,
            PgType::Int4 => 23,
            PgType::Text => 25,
            PgType::Oid => 26,
            PgType::Json => 114,
            PgType::Cidr => 650,
            PgType::Float4 => 700,
            PgType::Float8 => 701,
            PgType::Unknown => 705,
            PgType::Macaddr8 => 774,
            PgType::Macaddr => 829,
            PgType::Inet => 869,
            PgType::Varchar => 1043,
            PgType::Date => 1082,
            PgType::Time => 1083,
            PgType::Timestamp => 1114,
            PgType::Timestamptz => 1184,
            PgType::Numeric => 1700,
            PgType::Uuid => 2950,
            PgType::Jsonb => 3802,
            PgType::BoolArray => 1000,
            PgType::ByteaArray => 1001,
            PgType::Int8Array => 1016,
            PgType::Int4Array => 1007,
            PgType::TextArray => 1009,
            PgType::JsonArray => 199,
            PgType::CidrArray => 651,
            PgType::Float4Array => 1021,
            PgType::Float8Array => 1022,
            PgType::Macaddr8Array => 775,
            PgType::MacaddrArray => 1040,
            PgType::InetArray => 1041,
            PgType::DateArray => 1182,
            PgType::TimeArray => 1183,
            PgType::TimestampArray => 1115,
            PgType::TimestamptzArray => 1185,
            PgType::NumericArray => 1231,
            PgType::UuidArray => 2951,
            PgType::JsonbArray => 3807,
            PgType::Vector => VECTOR_TYPE_OID as u32,
            PgType::Other(oid) => oid,
        }
    }

    /// The type with a given OID.
    pub open spec fn with_oid(oid: u32) -> PgType {
        if oid == 16 {
            PgType::Bool
    } else if oid == 17 {
            PgType::Bytea
    } else if oid == 18 {
            PgType::Char
    } else if oid == 20 {
            PgType::Int8
    } else if oid == 21 {
            PgType::Int2
    } else if oid == 23 {
            PgType::Int4
    } else if oid == 25 {
            PgType::Text
    } else if oid == 26 {
            PgType::Oid
    } else if oid == 114 {
            PgType::Json
    } else if oid == 650 {
            PgType::Cidr
    } else if oid == 700 {
            PgType::Float4
    } else if oid == 701 {
            PgType::Float8
    } else if oid == 705 {
            PgType::Unknown
    } else if oid == 774 {
            PgType::Macaddr8
    } else if oid == 829 {
            PgType::Macaddr
    } else if oid == 869 {
            PgType::Inet
    } else if oid == 1043 {
            PgType::Varchar
    } else if oid == 1082 {
            PgType::Date
    } else if oid == 1083 {
            PgType::Time
    } else if oid == 1114 {
            PgType::Timestamp
    } else if oid == 1184 {
            PgType::Timestamptz
    } else if oid == 1700 {
            PgType::Numeric
    } else if oid == 2950 {
            PgType::Uuid
    } else if oid == 3802 {
            PgType::Jsonb
    } else if oid == 1000 {
            PgType::BoolArray
    } else if oid == 1001 {
            PgType::ByteaArray
    } else if oid == 1016 {
            PgType::Int8Array
    } else if oid == 1007 {
            PgType::Int4Array
    } else if oid == 1009 {
            PgType::TextArray
    } else if oid == 199 {
            PgType::JsonArray
    } else if oid == 651 {
            PgType::CidrArray
    } else if oid == 1021 {
            PgType::Float4Array
    } else if oid == 1022 {
            PgType::Float8Array
    } else if oid == 775 {
            PgType::Macaddr8Array
    } else if oid == 1040 {
            PgType::MacaddrArray
    } else if oid == 1041 {
            PgType::InetArray
    } else if oid == 1182 {
            PgType::DateArray
    } else if oid == 1183 {
            PgType::TimeArray
    } else if oid == 1115 {
            PgType::TimestampArray
    } else if oid == 1185 {
            PgType::TimestamptzArray
    } else if oid == 1231 {
            PgType::NumericArray
    } else if oid == 2951 {
            PgType::UuidArray
    } else if oid == 3807 {
            PgType::JsonbArray
    } else if oid == VECTOR_TYPE_OID as u32 {
            PgType::Vector
        } else {
            PgType::Other(oid)
        }
    }

    /// `Other` stands only for the types that have no name of their own here.
    pub open spec fn well_formed(self) -> bool {
        self matches PgType::Other(oid) ==> PgType::with_oid(oid) == self
    }

    /// Whether the type is one of the array types that have a name here.
    pub open spec fn is_named_array(self) -> bool {
        match self {
            PgType::BoolArray | PgType::ByteaArray | PgType::Int8Array | PgType::Int4Array | PgType::TextArray | PgType::JsonArray | PgType::CidrArray | PgType::Float4Array | PgType::Float8Array | PgType::Macaddr8Array | PgType::MacaddrArray | PgType::InetArray | PgType::DateArray | PgType::TimeArray | PgType::TimestampArray | PgType::TimestamptzArray | PgType::NumericArray | PgType::UuidArray | PgType::JsonbArray => true,
            _ => false,
        }
    }

    /// Whether the type is built in and has a name here, and is no array.
    pub open spec fn is_named_scalar(self) -> bool {
        !self.is_named_array() && self != PgType::Vector && !(self is Other)
    }

    /// The OID under which clients know the type.
    pub fn oid(&self) -> (r: u32)
        ensures
            r == self.oid_number(),
    {
        match *self {
            PgType::Bool => 16,
            PgType::Bytea => 17,
            PgType::Char => 18,
            PgType::Int8 => 20,
            PgType::Int2 => 21,
            PgType::Int4 => 23,
            PgType::Text => 25,
            PgType::Oid => 26,
            PgType::Json => 114,
            PgType::Cidr => 650,
            PgType::Float4 => 700,
            PgType::Float8 => 701,
            PgType::Unknown => 705,
            PgType::Macaddr8 => 774,
            PgType::Macaddr => 829,
            PgType::Inet => 869,
            PgType::Varchar => 1043,
            PgType::Date => 1082,
            PgType::Time => 1083,
            PgType::Timestamp => 1114,
            PgType::Timestamptz => 1184,
            PgType::Numeric => 1700,
            PgType::Uuid => 2950,
            PgType::Jsonb => 3802,
            PgType::BoolArray => 1000,
            PgType::ByteaArray => 1001,
            PgType::Int8Array => 1016,
            PgType::Int4Array => 1007,
            PgType::TextArray => 1009,
            PgType::JsonArray => 199,
            PgType::CidrArray => 651,
            PgType::Float4Array => 1021,
            PgType::Float8Array => 1022,
            PgType::Macaddr8Array => 775,
            PgType::MacaddrArray => 1040,
            PgType::InetArray => 1041,
            PgType::DateArray => 1182,
            PgType::TimeArray => 1183,
            PgType::TimestampArray => 1115,
            PgType::TimestamptzArray => 1185,
            PgType::NumericArray => 1231,
            PgType::UuidArray => 2951,
            PgType::JsonbArray => 3807,
            PgType::Vector => VECTOR_TYPE_OID as u32,
            PgType::Other(oid) => oid,
        }
    }

    /// The type with a given OID.
    pub fn from_oid(oid: u32) -> (r: PgType)
        ensures
            r == PgType::with_oid(oid),
            r.well_formed(),
            r.oid_number() == oid,
    {
        if oid == 16 {
            PgType::Bool
    } else if oid == 17 {
            PgType::Bytea
    } else if oid == 18 {
            PgType::Char
    } else if oid == 20 {
            PgType::Int8
    } else if oid == 21 {
            PgType::Int2
    } else if oid == 23 {
            PgType::Int4
    } else if oid == 25 {
            PgType::Text
    } else if oid == 26 {
            PgType::Oid
    } else if oid == 114 {
            PgType::Json
    } else if oid == 650 {
            PgType::Cidr
    } else if oid == 700 {
            PgType::Float4
    } else if oid == 701 {
            PgType::Float8
    } else if oid == 705 {
            PgType::Unknown
    } else if oid == 774 {
            PgType::Macaddr8
    } else if oid == 829 {
            PgType::Macaddr
    } else if oid == 869 {
            PgType::Inet
    } else if oid == 1043 {
            PgType::Varchar
    } else if oid == 1082 {
            PgType::Date
    } else if oid == 1083 {
            PgType::Time
    } else if oid == 1114 {
            PgType::Timestamp
    } else if oid == 1184 {
            PgType::Timestamptz
    } else if oid == 1700 {
            PgType::Numeric
    } else if oid == 2950 {
            PgType::Uuid
    } else if oid == 3802 {
            PgType::Jsonb
    } else if oid == 1000 {
            PgType::BoolArray
    } else if oid == 1001 {
            PgType::ByteaArray
    } else if oid == 1016 {
            PgType::Int8Array
    } else if oid == 1007 {
            PgType::Int4Array
    } else if oid == 1009 {
            PgType::TextArray
    } else if oid == 199 {
            PgType::JsonArray
    } else if oid == 651 {
            PgType::CidrArray
    } else if oid == 1021 {
            PgType::Float4Array
    } else if oid == 1022 {
            PgType::Float8Array
    } else if oid == 775 {
            PgType::Macaddr8Array
    } else if oid == 1040 {
            PgType::MacaddrArray
    } else if oid == 1041 {
            PgType::InetArray
    } else if oid == 1182 {
            PgType::DateArray
    } else if oid == 1183 {
            PgType::TimeArray
    } else if oid == 1115 {
            PgType::TimestampArray
    } else if oid == 1185 {
            PgType::TimestamptzArray
    } else if oid == 1231 {
            PgType::NumericArray
    } else if oid == 2951 {
            PgType::UuidArray
    } else if oid == 3807 {
            PgType::JsonbArray
    } else if oid == VECTOR_TYPE_OID as u32 {
            PgType::Vector
        } else {
            PgType::Other(oid)
        }
    }
}

/// The type of pgvector's vectors.
pub fn vector_pg_type() -> (r: PgType)
    ensures
        r == PgType::Vector,
        r.oid_number() == VECTOR_TYPE_OID,
{
    PgType::Vector
}

/// A type is found again by its OID.
pub proof fn type_is_found_by_its_oid(t: PgType)
    requires
        t.well_formed(),
    ensures
        PgType::with_oid(t.oid_number()) == t,
{
}

/// The name under which `postgres_types` lists the built-in type with an OID.
pub uninterp spec fn listed_type_name(oid: u32) -> Option<Seq<char>>;

/// `postgres_types::Type::from_oid` and `Type::name`: the name of the built-in
/// type with an OID, if the crate lists one. The types that have a name here
/// are listed, arrays under a name that begins with an underscore and the
/// others under one that does not; the OID of pgvector is not listed.
#[verifier::external_body]
pub(crate) fn built_in_name(oid: u32) -> (r: Option<String>)
    ensures
        match r {
            Some(name) => listed_type_name(oid) == Some(name@),
            None => listed_type_name(oid) is None,
        },
        PgType::with_oid(oid).is_named_array() ==> r is Some && r->0@.len() > 0 && r->0@[0] == '_',
        PgType::with_oid(oid).is_named_scalar() ==> r is Some && r->0@.len() > 0 && r->0@[0]
            != '_',
        PgType::with_oid(oid) == PgType::Vector ==> r is None,
{
    Type::from_oid(oid).map(|t| t.name().to_owned())
}

/// Whether the name of `t` begins with an underscore, as PostgreSQL names the
/// types of arrays.
pub open spec fn has_array_name(t: PgType) -> bool {
    listed_type_name(t.oid_number()) matches Some(name) && name.len() > 0 && name[0] == '_'
}

/// Whether the name of `t` begins with an underscore.
pub fn array_name(t: PgType) -> (r: bool)
    ensures
        r == has_array_name(t),
        t.is_named_array() ==> r,
        t.is_named_scalar() || t == PgType::Vector ==> !r,
{
    match built_in_name(t.oid()) {
        Some(name) => {
            let chars = chars_of(name.as_str());
            chars.len() > 0 && chars[0] == '_'
        },
        None => false,
    }
}

/// The built-in type with an OID, if there is one.
pub open spec fn listed_type(oid: u32) -> Option<PgType> {
    if listed_type_name(oid) is Some {
        Some(PgType::with_oid(oid))
    } else {
        None
    }
}

/// The built-in type with an OID, if there is one.
pub fn built_in_type(oid: u32) -> (r: Option<PgType>)
    ensures
        r == listed_type(oid),
        PgType::with_oid(oid).is_named_array() || PgType::with_oid(oid).is_named_scalar() ==> r
            == Some(PgType::with_oid(oid)),
{
    match built_in_name(oid) {
        Some(_) => Some(PgType::from_oid(oid)),
        None => None,
    }
}

/// The array type whose elements are of a scalar type.
pub open spec fn array_of(scalar: PgType) -> PgType {
    match scalar {
        PgType::Int4 => PgType::Int4Array,
        PgType::Int8 => PgType::Int8Array,
        PgType::Float8 => PgType::Float8Array,
        PgType::Bool => PgType::BoolArray,
        PgType::Uuid => PgType::UuidArray,
        PgType::Json => PgType::JsonArray,
        PgType::Jsonb => PgType::JsonbArray,
        PgType::Date => PgType::DateArray,
        PgType::Time => PgType::TimeArray,
        PgType::Timestamp => PgType::TimestampArray,
        PgType::Timestamptz => PgType::TimestamptzArray,
        PgType::Inet => PgType::InetArray,
        PgType::Cidr => PgType::CidrArray,
        PgType::Macaddr => PgType::MacaddrArray,
        PgType::Macaddr8 => PgType::Macaddr8Array,
        PgType::Numeric => PgType::NumericArray,
        PgType::Bytea => PgType::ByteaArray,
        PgType::Float4 => PgType::Float4Array,
        _ => PgType::TextArray,
    }
}

/// Map a scalar type to its array counterpart; a type that has none of its own
/// is sent as an array of texts.
pub fn scalar_pg_type_to_array_type(scalar: &PgType) -> (r: PgType)
    ensures
        r == array_of(*scalar),
        r.is_named_array(),
{
    match *scalar {
        PgType::Int4 => PgType::Int4Array,
        PgType::Int8 => PgType::Int8Array,
        PgType::Float8 => PgType::Float8Array,
        PgType::Bool => PgType::BoolArray,
        PgType::Uuid => PgType::UuidArray,
        PgType::Json => PgType::JsonArray,
        PgType::Jsonb => PgType::JsonbArray,
        PgType::Date => PgType::DateArray,
        PgType::Time => PgType::TimeArray,
        PgType::Timestamp => PgType::TimestampArray,
        PgType::Timestamptz => PgType::TimestamptzArray,
        PgType::Inet => PgType::InetArray,
        PgType::Cidr => PgType::CidrArray,
        PgType::Macaddr => PgType::MacaddrArray,
        PgType::Macaddr8 => PgType::Macaddr8Array,
        PgType::Numeric => PgType::NumericArray,
        PgType::Bytea => PgType::ByteaArray,
        PgType::Float4 => PgType::Float4Array,
        _ => PgType::TextArray,
    }
}

/// Whatever its elements, an array goes out under the type of an array.
pub proof fn array_types_are_arrays(scalar: PgType)
    ensures
        array_of(scalar).is_named_array(),
{
}

/// The type under which a column is announced whose declared type has the
/// capitalised name `name`.
pub open spec fn declared_type(name: Seq<char>) -> PgType {
    if name == "INTEGER"@ || name == "INT"@ || name == "INT4"@ || name == "SMALLINT"@
        || name == "INT2"@ || name == "SERIAL"@ || name == "SMALLSERIAL"@ {
        PgType::Int4
    } else if name == "BIGINT"@ || name == "INT8"@ || name == "BIGSERIAL"@ {
        PgType::Int8
    } else if name == "REAL"@ || name == "FLOAT"@ || name == "FLOAT4"@ || name == "FLOAT8"@
        || name == "DOUBLE"@ || name == "DOUBLE PRECISION"@ || name == "NUMERIC"@
        || name == "DECIMAL"@ {
        PgType::Float8
    } else if name == "TEXT"@ || name == "VARCHAR"@ || name == "CHAR"@
        || name == "CHARACTER VARYING"@ || name == "CHARACTER"@ || name == "NAME"@ {
        PgType::Text
    } else if name == "BLOB"@ || name == "BYTEA"@ {
        PgType::Bytea
    } else if name == "BOOLEAN"@ || name == "BOOL"@ {
        PgType::Bool
    } else if name == "UUID"@ {
        PgType::Uuid
    } else if name == "JSON"@ {
        PgType::Json
    } else if name == "JSONB"@ {
        PgType::Jsonb
    } else if name == "DATE"@ {
        PgType::Date
    } else if name == "TIME"@ || name == "TIMETZ"@ {
        PgType::Time
    } else if name == "TIMESTAMP"@ {
        PgType::Timestamp
    } else if name == "TIMESTAMPTZ"@ {
        PgType::Timestamptz
    } else if name == "INET"@ {
        PgType::Inet
    } else if name == "CIDR"@ {
        PgType::Cidr
    } else if name == "MACADDR"@ {
        PgType::Macaddr
    } else if name == "MACADDR8"@ {
        PgType::Macaddr8
    } else if name == "OID"@ {
        PgType::Oid
    } else if name == "VECTOR"@ {
        PgType::Vector
    } else if name == "INTERNAL_CHAR"@ {
        PgType::Char
    } else if "VARCHAR"@.is_prefix_of(name) || "CHAR"@.is_prefix_of(name) {
        PgType::Varchar
    } else if "NUMERIC"@.is_prefix_of(name) || "DECIMAL"@.is_prefix_of(name) {
        PgType::Numeric
    } else {
        PgType::Text
    }
}

/// The type under which a column is announced, from the capitalised name of its
/// declared type.
pub fn capitalised_type_to_pg_type(name: &str) -> (r: PgType)
    ensures
        r == declared_type(name@),
{
    let chars = chars_of(name);
    if is_text(&chars, "INTEGER") || is_text(&chars, "INT") || is_text(&chars, "INT4")
        || is_text(&chars, "SMALLINT") || is_text(&chars, "INT2") || is_text(&chars, "SERIAL")
        || is_text(&chars, "SMALLSERIAL") {
        PgType::Int4
    } else if is_text(&chars, "BIGINT") || is_text(&chars, "INT8")
        || is_text(&chars, "BIGSERIAL") {
        PgType::Int8
    } else if is_text(&chars, "REAL") || is_text(&chars, "FLOAT") || is_text(&chars, "FLOAT4")
        || is_text(&chars, "FLOAT8") || is_text(&chars, "DOUBLE")
        || is_text(&chars, "DOUBLE PRECISION") || is_text(&chars, "NUMERIC")
        || is_text(&chars, "DECIMAL") {
        PgType::Float8
    } else if is_text(&chars, "TEXT") || is_text(&chars, "VARCHAR") || is_text(&chars, "CHAR")
        || is_text(&chars, "CHARACTER VARYING") || is_text(&chars, "CHARACTER")
        || is_text(&chars, "NAME") {
        PgType::Text
    } else if is_text(&chars, "BLOB") || is_text(&chars, "BYTEA") {
        PgType::Bytea
    } else if is_text(&chars, "BOOLEAN") || is_text(&chars, "BOOL") {
        PgType::Bool
    } else if is_text(&chars, "UUID") {
        PgType::Uuid
    } else if is_text(&chars, "JSON") {
        PgType::Json
    } else if is_text(&chars, "JSONB") {
        PgType::Jsonb
    } else if is_text(&chars, "DATE") {
        PgType::Date
    } else if is_text(&chars, "TIME") || is_text(&chars, "TIMETZ") {
        PgType::Time
    } else if is_text(&chars, "TIMESTAMP") {
        PgType::Timestamp
    } else if is_text(&chars, "TIMESTAMPTZ") {
        PgType::Timestamptz
    } else if is_text(&chars, "INET") {
        PgType::Inet
    } else if is_text(&chars, "CIDR") {
        PgType::Cidr
    } else if is_text(&chars, "MACADDR") {
        PgType::Macaddr
    } else if is_text(&chars, "MACADDR8") {
        PgType::Macaddr8
    } else if is_text(&chars, "OID") {
        PgType::Oid
    } else if is_text(&chars, "VECTOR") {
        PgType::Vector
    } else if is_text(&chars, "INTERNAL_CHAR") {
        PgType::Char
    } else if begins_with(&chars, "VARCHAR") || begins_with(&chars, "CHAR") {
        PgType::Varchar
    } else if begins_with(&chars, "NUMERIC") || begins_with(&chars, "DECIMAL") {
        PgType::Numeric
    } else {
        PgType::Text
    }
}

/// The type under which a column is announced, from the name of its declared
/// type in any case. Parameters in the name, as in `varchar(50)`, are allowed
/// for; an unknown type is sent as text.
pub fn sqlite_type_to_pg_type(type_str: &str) -> (r: PgType)
    ensures
        r == declared_type(uppercase(type_str@)),
        is_ascii_chars(type_str@) ==> r == declared_type(ascii_upper(type_str@)),
{
    let upper = to_uppercase(type_str);
    capitalised_type_to_pg_type(upper.as_str())
}

/// What sort of type a column was declared with.
#[derive(Clone, Copy, Debug, PartialEq, Eq, Structural)]
pub enum ColumnTypeKind {
    Struct,
    Union,
    Plain,
}

/// What the engine knows of the type of a result column.
pub struct ColumnTypeInfo {
    pub kind: ColumnTypeKind,
    pub declared_name: String,
    pub base_type: Option<String>,
    pub array_dimensions: u32,
}

/// The type of a result column, from the types that its declared name and its
/// resolved base stand for.
pub open spec fn column_type(
    kind: ColumnTypeKind,
    declared: PgType,
    base: Option<PgType>,
    array_dimensions: int,
) -> PgType {
    let element = match kind {
        ColumnTypeKind::Struct | ColumnTypeKind::Union => PgType::Jsonb,
        ColumnTypeKind::Plain => if declared != PgType::Text {
            declared
        } else {
            match base {
                Some(t) => t,
                None => PgType::Text,
            }
        },
    };
    if array_dimensions > 0 {
        array_of(element)
    } else {
        element
    }
}

/// Decide the type of a result column from the types that its declared name and
/// its resolved base stand for. Structs and unions go out as JSONB, so that
/// clients see structured data. Otherwise the declared name counts first, and
/// the base where the declared name says nothing.
pub fn column_pg_type(
    kind: ColumnTypeKind,
    declared: PgType,
    base: Option<PgType>,
    array_dimensions: u32,
) -> (r: PgType)
    ensures
        r == column_type(kind, declared, base, array_dimensions as int),
{
    let element = match kind {
        ColumnTypeKind::Struct => PgType::Jsonb,
        ColumnTypeKind::Union => PgType::Jsonb,
        ColumnTypeKind::Plain => {
            if declared == PgType::Text {
                match base {
                    Some(t) => t,
                    None => PgType::Text,
                }
            } else {
                declared
            }
        },
    };
    if array_dimensions > 0 {
        scalar_pg_type_to_array_type(&element)
    } else {
        element
    }
}

/// The type of a result column about which the engine says `info`.
pub open spec fn resolved_type(info: Option<ColumnTypeInfo>) -> PgType {
    match info {
        None => PgType::Text,
        Some(info) => column_type(
            info.kind,
            declared_type(uppercase(info.declared_name@)),
            match info.base_type {
                Some(base) => Some(declared_type(uppercase(base@))),
                None => None,
            },
            info.array_dimensions as int,
        ),
    }
}

/// Whether the names of the types in `info` are in ASCII.
pub open spec fn has_ascii_names(info: Option<ColumnTypeInfo>) -> bool {
    info matches Some(info) ==> {
        &&& is_ascii_chars(info.declared_name@)
        &&& info.base_type matches Some(base) ==> is_ascii_chars(base@)
    }
}

/// The type of a result column about which the engine says `info`, where the names
/// in it are in ASCII.
pub open spec fn ascii_resolved_type(info: Option<ColumnTypeInfo>) -> PgType {
    match info {
        None => PgType::Text,
        Some(info) => column_type(
            info.kind,
            declared_type(ascii_upper(info.declared_name@)),
            match info.base_type {
                Some(base) => Some(declared_type(ascii_upper(base@))),
                None => None,
            },
            info.array_dimensions as int,
        ),
    }
}

/// Decide the type of a result column. A column of which the engine knows no
/// type is sent as text.
pub fn resolve_pg_type_for_column(info: &Option<ColumnTypeInfo>) -> (r: PgType)
    ensures
        r == resolved_type(*info),
        has_ascii_names(*info) ==> r == ascii_resolved_type(*info),
{
    match info {
        None => PgType::Text,
        Some(info) => {
            let declared = sqlite_type_to_pg_type(info.declared_name.as_str());
            let base = match &info.base_type {
                Some(base) => Some(sqlite_type_to_pg_type(base.as_str())),
                None => None,
            };
            column_pg_type(info.kind, declared, base, info.array_dimensions)
        },
    }
}

} // verus!
