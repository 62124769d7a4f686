//! Which types the columns of a table have for clients, name by name.

use vstd::prelude::*;

use crate::pgtype::{
    array_of, ascii_resolved_type, declared_type, resolved_type, ColumnTypeInfo,
    ColumnTypeKind, PgType,
};
use crate::text::{ascii_upper, uppercase};

verus! {

proof fn lemma_names_differ()
    ensures
        "INTEGER"@.len() == 7 && "INTEGER"@[0] == 'I' && "INTEGER"@[1] == 'N'
            && "INTEGER"@[2] == 'T' && "INTEGER"@[3] == 'E',
        "INT"@.len() == 3 && "INT"@[0] == 'I' && "INT"@[1] == 'N' && "INT"@[2] == 'T',
        "INT4"@.len() == 4 && "INT4"@[0] == 'I' && "INT4"@[1] == 'N' && "INT4"@[2] == 'T'
            && "INT4"@[3] == '4',
        "SMALLINT"@.len() == 8 && "SMALLINT"@[0] == 'S' && "SMALLINT"@[1] == 'M'
            && "SMALLINT"@[2] == 'A' && "SMALLINT"@[3] == 'L',
        "INT2"@.len() == 4 && "INT2"@[0] == 'I' && "INT2"@[1] == 'N' && "INT2"@[2] == 'T'
            && "INT2"@[3] == '2',
        "SERIAL"@.len() == 6 && "SERIAL"@[0] == 'S' && "SERIAL"@[1] == 'E' && "SERIAL"@[2] == 'R'
            && "SERIAL"@[3] == 'I',
        "SMALLSERIAL"@.len() == 11 && "SMALLSERIAL"@[0] == 'S' && "SMALLSERIAL"@[1] == 'M'
            && "SMALLSERIAL"@[2] == 'A' && "SMALLSERIAL"@[3] == 'L',
        "BIGINT"@.len() == 6 && "BIGINT"@[0] == 'B' && "BIGINT"@[1] == 'I' && "BIGINT"@[2] == 'G'
            && "BIGINT"@[3] == 'I',
        "INT8"@.len() == 4 && "INT8"@[0] == 'I' && "INT8"@[1] == 'N' && "INT8"@[2] == 'T'
            && "INT8"@[3] == '8',
        "BIGSERIAL"@.len() == 9 && "BIGSERIAL"@[0] == 'B' && "BIGSERIAL"@[1] == 'I'
            && "BIGSERIAL"@[2] == 'G' && "BIGSERIAL"@[3] == 'S',
        "REAL"@.len() == 4 && "REAL"@[0] == 'R' && "REAL"@[1] == 'E' && "REAL"@[2] == 'A'
            && "REAL"@[3] == 'L',
        "FLOAT"@.len() == 5 && "FLOAT"@[0] == 'F' && "FLOAT"@[1] == 'L' && "FLOAT"@[2] == 'O'
            && "FLOAT"@[3] == 'A',
        "FLOAT4"@.len() == 6 && "FLOAT4"@[0] == 'F' && "FLOAT4"@[1] == 'L' && "FLOAT4"@[2] == 'O'
            && "FLOAT4"@[3] == 'A',
        "FLOAT8"@.len() == 6 && "FLOAT8"@[0] == 'F' && "FLOAT8"@[1] == 'L' && "FLOAT8"@[2] == 'O'
            && "FLOAT8"@[3] == 'A',
        "DOUBLE"@.len() == 6 && "DOUBLE"@[0] == 'D' && "DOUBLE"@[1] == 'O' && "DOUBLE"@[2] == 'U'
            && "DOUBLE"@[3] == 'B',
        "DOUBLE PRECISION"@.len() == 16 && "DOUBLE PRECISION"@[0] == 'D'
            && "DOUBLE PRECISION"@[1] == 'O' && "DOUBLE PRECISION"@[2] == 'U'
            && "DOUBLE PRECISION"@[3] == 'B',
        "NUMERIC"@.len() == 7 && "NUMERIC"@[0] == 'N' && "NUMERIC"@[1] == 'U'
            && "NUMERIC"@[2] == 'M' && "NUMERIC"@[3] == 'E',
        "DECIMAL"@.len() == 7 && "DECIMAL"@[0] == 'D' && "DECIMAL"@[1] == 'E'
            && "DECIMAL"@[2] == 'C' && "DECIMAL"@[3] == 'I',
        "BLOB"@.len() == 4 && "BLOB"@[0] == 'B' && "BLOB"@[1] == 'L' && "BLOB"@[2] == 'O'
            && "BLOB"@[3] == 'B',
        "BYTEA"@.len() == 5 && "BYTEA"@[0] == 'B' && "BYTEA"@[1] == 'Y' && "BYTEA"@[2] == 'T'
            && "BYTEA"@[3] == 'E',
        "BOOLEAN"@.len() == 7 && "BOOLEAN"@[0] == 'B' && "BOOLEAN"@[1] == 'O'
            && "BOOLEAN"@[2] == 'O' && "BOOLEAN"@[3] == 'L',
        "BOOL"@.len() == 4 && "BOOL"@[0] == 'B' && "BOOL"@[1] == 'O' && "BOOL"@[2] == 'O'
            && "BOOL"@[3] == 'L',
        "UUID"@.len() == 4 && "UUID"@[0] == 'U' && "UUID"@[1] == 'U' && "UUID"@[2] == 'I'
            && "UUID"@[3] == 'D',
        "JSON"@.len() == 4 && "JSON"@[0] == 'J' && "JSON"@[1] == 'S' && "JSON"@[2] == 'O'
            && "JSON"@[3] == 'N',
        "JSONB"@.len() == 5 && "JSONB"@[0] == 'J' && "JSONB"@[1] == 'S' && "JSONB"@[2] == 'O'
            && "JSONB"@[3] == 'N',
        "DATE"@.len() == 4 && "DATE"@[0] == 'D' && "DATE"@[1] == 'A' && "DATE"@[2] == 'T'
            && "DATE"@[3] == 'E',
        "TIME"@.len() == 4 && "TIME"@[0] == 'T' && "TIME"@[1] == 'I' && "TIME"@[2] == 'M'
            && "TIME"@[3] == 'E',
        "TIMETZ"@.len() == 6 && "TIMETZ"@[0] == 'T' && "TIMETZ"@[1] == 'I' && "TIMETZ"@[2] == 'M'
            && "TIMETZ"@[3] == 'E',
        "TIMESTAMP"@.len() == 9 && "TIMESTAMP"@[0] == 'T' && "TIMESTAMP"@[1] == 'I'
            && "TIMESTAMP"@[2] == 'M' && "TIMESTAMP"@[3] == 'E',
        "TIMESTAMPTZ"@.len() == 11 && "TIMESTAMPTZ"@[0] == 'T' && "TIMESTAMPTZ"@[1] == 'I'
            && "TIMESTAMPTZ"@[2] == 'M' && "TIMESTAMPTZ"@[3] == 'E',
        "INET"@.len() == 4 && "INET"@[0] == 'I' && "INET"@[1] == 'N' && "INET"@[2] == 'E'
            && "INET"@[3] == 'T',
        "CIDR"@.len() == 4 && "CIDR"@[0] == 'C' && "CIDR"@[1] == 'I' && "CIDR"@[2] == 'D'
            && "CIDR"@[3] == 'R',
        "MACADDR"@.len() == 7 && "MACADDR"@[0] == 'M' && "MACADDR"@[1] == 'A'
            && "MACADDR"@[2] == 'C' && "MACADDR"@[3] == 'A',
        "MACADDR8"@.len() == 8 && "MACADDR8"@[0] == 'M' && "MACADDR8"@[1] == 'A'
            && "MACADDR8"@[2] == 'C' && "MACADDR8"@[3] == 'A',
        "OID"@.len() == 3 && "OID"@[0] == 'O' && "OID"@[1] == 'I' && "OID"@[2] == 'D',
        "VECTOR"@.len() == 6 && "VECTOR"@[0] == 'V' && "VECTOR"@[1] == 'E' && "VECTOR"@[2] == 'C'
            && "VECTOR"@[3] == 'T',
        "INTERNAL_CHAR"@.len() == 13 && "INTERNAL_CHAR"@[0] == 'I' && "INTERNAL_CHAR"@[1] == 'N'
            && "INTERNAL_CHAR"@[2] == 'T' && "INTERNAL_CHAR"@[3] == 'E',
        "TEXT"@.len() == 4 && "TEXT"@[0] == 'T' && "TEXT"@[1] == 'E' && "TEXT"@[2] == 'X'
            && "TEXT"@[3] == 'T',
        "VARCHAR"@.len() == 7 && "VARCHAR"@[0] == 'V' && "VARCHAR"@[1] == 'A'
            && "VARCHAR"@[2] == 'R' && "VARCHAR"@[3] == 'C',
        "CHAR"@.len() == 4 && "CHAR"@[0] == 'C' && "CHAR"@[1] == 'H' && "CHAR"@[2] == 'A'
            && "CHAR"@[3] == 'R',
        "CHARACTER VARYING"@.len() == 17 && "CHARACTER VARYING"@[0] == 'C'
            && "CHARACTER VARYING"@[1] == 'H' && "CHARACTER VARYING"@[2] == 'A'
            && "CHARACTER VARYING"@[3] == 'R',
        "CHARACTER"@.len() == 9 && "CHARACTER"@[0] == 'C' && "CHARACTER"@[1] == 'H'
            && "CHARACTER"@[2] == 'A' && "CHARACTER"@[3] == 'R',
        "NAME"@.len() == 4 && "NAME"@[0] == 'N' && "NAME"@[1] == 'A' && "NAME"@[2] == 'M'
            && "NAME"@[3] == 'E',
{
    reveal_strlit("INTEGER");
    reveal_strlit("INT");
    reveal_strlit("INT4");
    reveal_strlit("SMALLINT");
    reveal_strlit("INT2");
    reveal_strlit("SERIAL");
    reveal_strlit("SMALLSERIAL");
    reveal_strlit("BIGINT");
    reveal_strlit("INT8");
    reveal_strlit("BIGSERIAL");
    reveal_strlit("REAL");
    reveal_strlit("FLOAT");
    reveal_strlit("FLOAT4");
    reveal_strlit("FLOAT8");
    reveal_strlit("DOUBLE");
    reveal_strlit("DOUBLE PRECISION");
    reveal_strlit("NUMERIC");
    reveal_strlit("DECIMAL");
    reveal_strlit("BLOB");
    reveal_strlit("BYTEA");
    reveal_strlit("BOOLEAN");
    reveal_strlit("BOOL");
    reveal_strlit("UUID");
    reveal_strlit("JSON");
    reveal_strlit("JSONB");
    reveal_strlit("DATE");
    reveal_strlit("TIME");
    reveal_strlit("TIMETZ");
    reveal_strlit("TIMESTAMP");
    reveal_strlit("TIMESTAMPTZ");
    reveal_strlit("INET");
    reveal_strlit("CIDR");
    reveal_strlit("MACADDR");
    reveal_strlit("MACADDR8");
    reveal_strlit("OID");
    reveal_strlit("VECTOR");
    reveal_strlit("INTERNAL_CHAR");
    reveal_strlit("TEXT");
    reveal_strlit("VARCHAR");
    reveal_strlit("CHAR");
    reveal_strlit("CHARACTER VARYING");
    reveal_strlit("CHARACTER");
    reveal_strlit("NAME");
}

/// Each type that has a name here goes by its own OID in PostgreSQL, or by that of pgvector.
pub proof fn oids_are_those_of_postgresql(t: PgType, oid: u32)
    ensures
        PgType::with_oid(oid) == PgType::Bool <==> oid == 16,
        PgType::with_oid(oid) == PgType::Bytea <==> oid == 17,
        PgType::with_oid(oid) == PgType::Char <==> oid == 18,
        PgType::with_oid(oid) == PgType::Int8 <==> oid == 20,
        PgType::with_oid(oid) == PgType::Int2 <==> oid == 21,
        PgType::with_oid(oid) == PgType::Int4 <==> oid == 23,
        PgType::with_oid(oid) == PgType::Text <==> oid == 25,
        PgType::with_oid(oid) == PgType::Oid <==> oid == 26,
        PgType::with_oid(oid) == PgType::Json <==> oid == 114,
        PgType::with_oid(oid) == PgType::Cidr <==> oid == 650,
        PgType::with_oid(oid) == PgType::Float4 <==> oid == 700,
        PgType::with_oid(oid) == PgType::Float8 <==> oid == 701,
        PgType::with_oid(oid) == PgType::Unknown <==> oid == 705,
        PgType::with_oid(oid) == PgType::Macaddr8 <==> oid == 774,
        PgType::with_oid(oid) == PgType::Macaddr <==> oid == 829,
        PgType::with_oid(oid) == PgType::Inet <==> oid == 869,
        PgType::with_oid(oid) == PgType::Varchar <==> oid == 1043,
        PgType::with_oid(oid) == PgType::Date <==> oid == 1082,
        PgType::with_oid(oid) == PgType::Time <==> oid == 1083,
        PgType::with_oid(oid) == PgType::Timestamp <==> oid == 1114,
        PgType::with_oid(oid) == PgType::Timestamptz <==> oid == 1184,
        PgType::with_oid(oid) == PgType::Numeric <==> oid == 1700,
        PgType::with_oid(oid) == PgType::Uuid <==> oid == 2950,
        PgType::with_oid(oid) == PgType::Jsonb <==> oid == 3802,
        PgType::with_oid(oid) == PgType::BoolArray <==> oid == 1000,
        PgType::with_oid(oid) == PgType::ByteaArray <==> oid == 1001,
        PgType::with_oid(oid) == PgType::Int8Array <==> oid == 1016,
        PgType::with_oid(oid) == PgType::Int4Array <==> oid == 1007,
        PgType::with_oid(oid) == PgType::TextArray <==> oid == 1009,
        PgType::with_oid(oid) == PgType::JsonArray <==> oid == 199,
        PgType::with_oid(oid) == PgType::CidrArray <==> oid == 651,
        PgType::with_oid(oid) == PgType::Float4Array <==> oid == 1021,
        PgType::with_oid(oid) == PgType::Float8Array <==> oid == 1022,
        PgType::with_oid(oid) == PgType::Macaddr8Array <==> oid == 775,
        PgType::with_oid(oid) == PgType::MacaddrArray <==> oid == 1040,
        PgType::with_oid(oid) == PgType::InetArray <==> oid == 1041,
        PgType::with_oid(oid) == PgType::DateArray <==> oid == 1182,
        PgType::with_oid(oid) == PgType::TimeArray <==> oid == 1183,
        PgType::with_oid(oid) == PgType::TimestampArray <==> oid == 1115,
        PgType::with_oid(oid) == PgType::TimestamptzArray <==> oid == 1185,
        PgType::with_oid(oid) == PgType::NumericArray <==> oid == 1231,
        PgType::with_oid(oid) == PgType::UuidArray <==> oid == 2951,
        PgType::with_oid(oid) == PgType::JsonbArray <==> oid == 3807,
        PgType::with_oid(oid) == PgType::Vector <==> oid == 40001,
        t == PgType::Bool ==> t.oid_number() == 16,
        t == PgType::Bytea ==> t.oid_number() == 17,
        t == PgType::Char ==> t.oid_number() == 18,
        t == PgType::Int8 ==> t.oid_number() == 20,
        t == PgType::Int2 ==> t.oid_number() == 21,
        t == PgType::Int4 ==> t.oid_number() == 23,
        t == PgType::Text ==> t.oid_number() == 25,
        t == PgType::Oid ==> t.oid_number() == 26,
        t == PgType::Json ==> t.oid_number() == 114,
        t == PgType::Cidr ==> t.oid_number() == 650,
        t == PgType::Float4 ==> t.oid_number() == 700,
        t == PgType::Float8 ==> t.oid_number() == 701,
        t == PgType::Unknown ==> t.oid_number() == 705,
        t == PgType::Macaddr8 ==> t.oid_number() == 774,
        t == PgType::Macaddr ==> t.oid_number() == 829,
        t == PgType::Inet ==> t.oid_number() == 869,
        t == PgType::Varchar ==> t.oid_number() == 1043,
        t == PgType::Date ==> t.oid_number() == 1082,
        t == PgType::Time ==> t.oid_number() == 1083,
        t == PgType::Timestamp ==> t.oid_number() == 1114,
        t == PgType::Timestamptz ==> t.oid_number() == 1184,
        t == PgType::Numeric ==> t.oid_number() == 1700,
        t == PgType::Uuid ==> t.oid_number() == 2950,
        t == PgType::Jsonb ==> t.oid_number() == 3802,
        t == PgType::BoolArray ==> t.oid_number() == 1000,
        t == PgType::ByteaArray ==> t.oid_number() == 1001,
        t == PgType::Int8Array ==> t.oid_number() == 1016,
        t == PgType::Int4Array ==> t.oid_number() == 1007,
        t == PgType::TextArray ==> t.oid_number() == 1009,
        t == PgType::JsonArray ==> t.oid_number() == 199,
        t == PgType::CidrArray ==> t.oid_number() == 651,
        t == PgType::Float4Array ==> t.oid_number() == 1021,
        t == PgType::Float8Array ==> t.oid_number() == 1022,
        t == PgType::Macaddr8Array ==> t.oid_number() == 775,
        t == PgType::MacaddrArray ==> t.oid_number() == 1040,
        t == PgType::InetArray ==> t.oid_number() == 1041,
        t == PgType::DateArray ==> t.oid_number() == 1182,
        t == PgType::TimeArray ==> t.oid_number() == 1183,
        t == PgType::TimestampArray ==> t.oid_number() == 1115,
        t == PgType::TimestamptzArray ==> t.oid_number() == 1185,
        t == PgType::NumericArray ==> t.oid_number() == 1231,
        t == PgType::UuidArray ==> t.oid_number() == 2951,
        t == PgType::JsonbArray ==> t.oid_number() == 3807,
        t == PgType::Vector ==> t.oid_number() == 40001,
        t matches PgType::Other(other) ==> t.oid_number() == other,
{
}

/// The array types that have a name here are those of which a column can be.
pub proof fn named_arrays_are_those_of_columns(t: PgType)
    ensures
        t.is_named_array() <==> exists|scalar: PgType| t == #[trigger] array_of(scalar),
{
    assert(array_of(PgType::Int4) == PgType::Int4Array);
    assert(array_of(PgType::Int8) == PgType::Int8Array);
    assert(array_of(PgType::Float8) == PgType::Float8Array);
    assert(array_of(PgType::Float4) == PgType::Float4Array);
    assert(array_of(PgType::Bool) == PgType::BoolArray);
    assert(array_of(PgType::Uuid) == PgType::UuidArray);
    assert(array_of(PgType::Json) == PgType::JsonArray);
    assert(array_of(PgType::Jsonb) == PgType::JsonbArray);
    assert(array_of(PgType::Date) == PgType::DateArray);
    assert(array_of(PgType::Time) == PgType::TimeArray);
    assert(array_of(PgType::Timestamp) == PgType::TimestampArray);
    assert(array_of(PgType::Timestamptz) == PgType::TimestamptzArray);
    assert(array_of(PgType::Inet) == PgType::InetArray);
    assert(array_of(PgType::Cidr) == PgType::CidrArray);
    assert(array_of(PgType::Macaddr) == PgType::MacaddrArray);
    assert(array_of(PgType::Macaddr8) == PgType::Macaddr8Array);
    assert(array_of(PgType::Numeric) == PgType::NumericArray);
    assert(array_of(PgType::Bytea) == PgType::ByteaArray);
    assert(array_of(PgType::Text) == PgType::TextArray);
}

/// Each of these types is announced for the capitalised names that are listed for it, and
/// for no other name.
pub proof fn these_types_have_these_names(name: Seq<char>)
    ensures
        declared_type(name) == PgType::Int4 <==> (name == "INTEGER"@ || name == "INT"@
            || name == "INT4"@ || name == "SMALLINT"@ || name == "INT2"@ || name == "SERIAL"@
            || name == "SMALLSERIAL"@),
        declared_type(name) == PgType::Int8 <==> (name == "BIGINT"@ || name == "INT8"@
            || name == "BIGSERIAL"@),
        declared_type(name) == PgType::Float8 <==> (name == "REAL"@ || name == "FLOAT"@
            || name == "FLOAT4"@ || name == "FLOAT8"@ || name == "DOUBLE"@
            || name == "DOUBLE PRECISION"@ || name == "NUMERIC"@ || name == "DECIMAL"@),
        declared_type(name) == PgType::Bytea <==> (name == "BLOB"@ || name == "BYTEA"@),
        declared_type(name) == PgType::Bool <==> (name == "BOOLEAN"@ || name == "BOOL"@),
        declared_type(name) == PgType::Uuid <==> (name == "UUID"@),
        declared_type(name) == PgType::Json <==> (name == "JSON"@),
        declared_type(name) == PgType::Jsonb <==> (name == "JSONB"@),
        declared_type(name) == PgType::Date <==> (name == "DATE"@),
        declared_type(name) == PgType::Time <==> (name == "TIME"@ || name == "TIMETZ"@),
        declared_type(name) == PgType::Timestamp <==> (name == "TIMESTAMP"@),
        declared_type(name) == PgType::Timestamptz <==> (name == "TIMESTAMPTZ"@),
        declared_type(name) == PgType::Inet <==> (name == "INET"@),
        declared_type(name) == PgType::Cidr <==> (name == "CIDR"@),
        declared_type(name) == PgType::Macaddr <==> (name == "MACADDR"@),
        declared_type(name) == PgType::Macaddr8 <==> (name == "MACADDR8"@),
        declared_type(name) == PgType::Oid <==> (name == "OID"@),
        declared_type(name) == PgType::Vector <==> (name == "VECTOR"@),
        declared_type(name) == PgType::Char <==> (name == "INTERNAL_CHAR"@),
{
    lemma_names_differ();
}

/// Of the other names, those that begin like a type of characters or of decimal numbers
/// are announced as such, and all the rest as text.
pub proof fn other_types_have_other_names(name: Seq<char>)
    ensures
        declared_type(name) == PgType::Varchar <==> {
            &&& "VARCHAR"@.is_prefix_of(name) || "CHAR"@.is_prefix_of(name)
            &&& name != "VARCHAR"@ && name != "CHAR"@ && name != "CHARACTER"@ && name
                != "CHARACTER VARYING"@
        },
        declared_type(name) == PgType::Numeric <==> {
            &&& "NUMERIC"@.is_prefix_of(name) || "DECIMAL"@.is_prefix_of(name)
            &&& name != "NUMERIC"@ && name != "DECIMAL"@
        },
        match declared_type(name) {
            PgType::Int4 | PgType::Int8 | PgType::Float8 | PgType::Text | PgType::Bytea
                | PgType::Bool | PgType::Uuid | PgType::Json | PgType::Jsonb | PgType::Date
                | PgType::Time | PgType::Timestamp | PgType::Timestamptz | PgType::Inet
                | PgType::Cidr | PgType::Macaddr | PgType::Macaddr8 | PgType::Oid | PgType::Vector
                | PgType::Char | PgType::Varchar | PgType::Numeric => true,
            _ => false,
        },
{
    lemma_names_differ();
    if "VARCHAR"@.is_prefix_of(name) {
        assert(name.subrange(0, 7)[0] == name[0] && name.subrange(0, 7)[1] == name[1]);
    }
    if "CHAR"@.is_prefix_of(name) {
        assert(name.subrange(0, 4)[0] == name[0] && name.subrange(0, 4)[1] == name[1]);
    }
    if "NUMERIC"@.is_prefix_of(name) {
        assert(name.subrange(0, 7)[0] == name[0] && name.subrange(0, 7)[1] == name[1]);
    }
    if "DECIMAL"@.is_prefix_of(name) {
        assert(name.subrange(0, 7)[0] == name[0] && name.subrange(0, 7)[1] == name[1]);
    }
}

/// An array has the type of arrays of its elements for each of these, where texts of
/// limited length count as texts, and is one of texts for every other.
pub proof fn arrays_are_of_their_elements(scalar: PgType)
    ensures
        scalar == PgType::Int4 <==> array_of(scalar) == PgType::Int4Array,
        scalar == PgType::Int8 <==> array_of(scalar) == PgType::Int8Array,
        scalar == PgType::Float8 <==> array_of(scalar) == PgType::Float8Array,
        scalar == PgType::Float4 <==> array_of(scalar) == PgType::Float4Array,
        scalar == PgType::Bool <==> array_of(scalar) == PgType::BoolArray,
        scalar == PgType::Uuid <==> array_of(scalar) == PgType::UuidArray,
        scalar == PgType::Json <==> array_of(scalar) == PgType::JsonArray,
        scalar == PgType::Jsonb <==> array_of(scalar) == PgType::JsonbArray,
        scalar == PgType::Date <==> array_of(scalar) == PgType::DateArray,
        scalar == PgType::Time <==> array_of(scalar) == PgType::TimeArray,
        scalar == PgType::Timestamp <==> array_of(scalar) == PgType::TimestampArray,
        scalar == PgType::Timestamptz <==> array_of(scalar) == PgType::TimestamptzArray,
        scalar == PgType::Inet <==> array_of(scalar) == PgType::InetArray,
        scalar == PgType::Cidr <==> array_of(scalar) == PgType::CidrArray,
        scalar == PgType::Macaddr <==> array_of(scalar) == PgType::MacaddrArray,
        scalar == PgType::Macaddr8 <==> array_of(scalar) == PgType::Macaddr8Array,
        scalar == PgType::Numeric <==> array_of(scalar) == PgType::NumericArray,
        scalar == PgType::Bytea <==> array_of(scalar) == PgType::ByteaArray,
        scalar == PgType::Text || scalar == PgType::Varchar ==> array_of(scalar)
            == PgType::TextArray,
        array_of(scalar).is_named_array(),
{
}

/// A column of which nothing is known is text, one of structs or unions is JSONB, and any
/// other goes by the capitals of its declared name, or, where those say no more than
/// text, of its base.
pub proof fn known_columns_go_by_their_names(info: ColumnTypeInfo)
    ensures
        resolved_type(None) == PgType::Text,
        ascii_resolved_type(None) == PgType::Text,
        info.kind != ColumnTypeKind::Plain && info.array_dimensions == 0 ==> {
            &&& resolved_type(Some(info)) == PgType::Jsonb
            &&& ascii_resolved_type(Some(info)) == PgType::Jsonb
        },
        info.kind != ColumnTypeKind::Plain && info.array_dimensions > 0 ==> {
            &&& resolved_type(Some(info)) == PgType::JsonbArray
            &&& ascii_resolved_type(Some(info)) == PgType::JsonbArray
        },
        info.kind == ColumnTypeKind::Plain ==> {
            let full = declared_type(uppercase(info.declared_name@));
            let ascii = declared_type(ascii_upper(info.declared_name@));
            &&& full != PgType::Text && info.array_dimensions == 0 ==> resolved_type(Some(info))
                == full
            &&& full != PgType::Text && info.array_dimensions > 0 ==> resolved_type(Some(info))
                == array_of(full)
            &&& ascii != PgType::Text && info.array_dimensions == 0 ==> ascii_resolved_type(
                Some(info),
            ) == ascii
            &&& ascii != PgType::Text && info.array_dimensions > 0 ==> ascii_resolved_type(
                Some(info),
            ) == array_of(ascii)
        },
        info.kind == ColumnTypeKind::Plain && info.array_dimensions == 0 ==> match info.base_type {
            Some(base) => {
                &&& declared_type(uppercase(info.declared_name@)) == PgType::Text ==> resolved_type(
                    Some(info),
                ) == declared_type(uppercase(base@))
                &&& declared_type(ascii_upper(info.declared_name@)) == PgType::Text
                    ==> ascii_resolved_type(Some(info)) == declared_type(ascii_upper(base@))
            },
            None => {
                &&& declared_type(uppercase(info.declared_name@)) == PgType::Text ==> resolved_type(
                    Some(info),
                ) == PgType::Text
                &&& declared_type(ascii_upper(info.declared_name@)) == PgType::Text
                    ==> ascii_resolved_type(Some(info)) == PgType::Text
            },
        },
        info.kind == ColumnTypeKind::Plain && info.array_dimensions > 0 ==> match info.base_type {
            Some(base) => {
                &&& declared_type(uppercase(info.declared_name@)) == PgType::Text ==> resolved_type(
                    Some(info),
                ) == array_of(declared_type(uppercase(base@)))
                &&& declared_type(ascii_upper(info.declared_name@)) == PgType::Text
                    ==> ascii_resolved_type(Some(info)) == array_of(
                    declared_type(ascii_upper(base@)),
                )
            },
            None => {
                &&& declared_type(uppercase(info.declared_name@)) == PgType::Text ==> resolved_type(
                    Some(info),
                ) == PgType::TextArray
                &&& declared_type(ascii_upper(info.declared_name@)) == PgType::Text
                    ==> ascii_resolved_type(Some(info)) == PgType::TextArray
            },
        },
{
}

} // verus!
