use postgres_types::{Kind, Type};
use turso_postgres::pgtype::{
    array_name, built_in_type, resolve_pg_type_for_column, scalar_pg_type_to_array_type,
    sqlite_type_to_pg_type, vector_pg_type, ColumnTypeInfo, ColumnTypeKind, PgType,
};

const SCALARS: [(PgType, Type); 24] = [
    (PgType::Bool, Type::BOOL),
    (PgType::Bytea, Type::BYTEA),
    (PgType::Char, Type::CHAR),
    (PgType::Int8, Type::INT8),
    (PgType::Int2, Type::INT2),
    (PgType::Int4, Type::INT4),
    (PgType::Text, Type::TEXT),
    (PgType::Oid, Type::OID),
    (PgType::Json, Type::JSON),
    (PgType::Cidr, Type::CIDR),
    (PgType::Float4, Type::FLOAT4),
    (PgType::Float8, Type::FLOAT8),
    (PgType::Unknown, Type::UNKNOWN),
    (PgType::Macaddr8, Type::MACADDR8),
    (PgType::Macaddr, Type::MACADDR),
    (PgType::Inet, Type::INET),
    (PgType::Varchar, Type::VARCHAR),
    (PgType::Date, Type::DATE),
    (PgType::Time, Type::TIME),
    (PgType::Timestamp, Type::TIMESTAMP),
    (PgType::Timestamptz, Type::TIMESTAMPTZ),
    (PgType::Numeric, Type::NUMERIC),
    (PgType::Uuid, Type::UUID),
    (PgType::Jsonb, Type::JSONB),
];

const ARRAYS: [(PgType, Type); 19] = [
    (PgType::BoolArray, Type::BOOL_ARRAY),
    (PgType::ByteaArray, Type::BYTEA_ARRAY),
    (PgType::Int8Array, Type::INT8_ARRAY),
    (PgType::Int4Array, Type::INT4_ARRAY),
    (PgType::TextArray, Type::TEXT_ARRAY),
    (PgType::JsonArray, Type::JSON_ARRAY),
    (PgType::CidrArray, Type::CIDR_ARRAY),
    (PgType::Float4Array, Type::FLOAT4_ARRAY),
    (PgType::Float8Array, Type::FLOAT8_ARRAY),
    (PgType::Macaddr8Array, Type::MACADDR8_ARRAY),
    (PgType::MacaddrArray, Type::MACADDR_ARRAY),
    (PgType::InetArray, Type::INET_ARRAY),
    (PgType::DateArray, Type::DATE_ARRAY),
    (PgType::TimeArray, Type::TIME_ARRAY),
    (PgType::TimestampArray, Type::TIMESTAMP_ARRAY),
    (PgType::TimestamptzArray, Type::TIMESTAMPTZ_ARRAY),
    (PgType::NumericArray, Type::NUMERIC_ARRAY),
    (PgType::UuidArray, Type::UUID_ARRAY),
    (PgType::JsonbArray, Type::JSONB_ARRAY),
];

#[test]
fn test_sqlite_type_to_pg_type() {
    assert_eq!(sqlite_type_to_pg_type("INTEGER"), PgType::Int4);
    assert_eq!(sqlite_type_to_pg_type("INT"), PgType::Int4);
    assert_eq!(sqlite_type_to_pg_type("INT4"), PgType::Int4);
    assert_eq!(sqlite_type_to_pg_type("SMALLINT"), PgType::Int4);
    assert_eq!(sqlite_type_to_pg_type("BIGINT"), PgType::Int8);
    assert_eq!(sqlite_type_to_pg_type("INT8"), PgType::Int8);
    assert_eq!(sqlite_type_to_pg_type("REAL"), PgType::Float8);
    assert_eq!(sqlite_type_to_pg_type("TEXT"), PgType::Text);
    assert_eq!(sqlite_type_to_pg_type("BLOB"), PgType::Bytea);
    assert_eq!(sqlite_type_to_pg_type("BOOLEAN"), PgType::Bool);
    assert_eq!(sqlite_type_to_pg_type("TIMESTAMP"), PgType::Timestamp);
    assert_eq!(sqlite_type_to_pg_type("TIMESTAMPTZ"), PgType::Timestamptz);
    assert_eq!(sqlite_type_to_pg_type("DATE"), PgType::Date);
    assert_eq!(sqlite_type_to_pg_type("JSON"), PgType::Json);
    assert_eq!(sqlite_type_to_pg_type("JSONB"), PgType::Jsonb);
    assert_eq!(sqlite_type_to_pg_type("UUID"), PgType::Uuid);
    assert_eq!(sqlite_type_to_pg_type("UNKNOWN"), PgType::Text);
}

#[test]
fn declared_types_are_found_in_any_case_and_with_parameters() {
    assert_eq!(sqlite_type_to_pg_type("bigint"), PgType::Int8);
    assert_eq!(sqlite_type_to_pg_type("Double Precision"), PgType::Float8);
    assert_eq!(sqlite_type_to_pg_type("numeric"), PgType::Float8);
    assert_eq!(sqlite_type_to_pg_type("numeric(10,2)"), PgType::Numeric);
    assert_eq!(sqlite_type_to_pg_type("decimal(4)"), PgType::Numeric);
    assert_eq!(sqlite_type_to_pg_type("varchar"), PgType::Text);
    assert_eq!(sqlite_type_to_pg_type("varchar(50)"), PgType::Varchar);
    assert_eq!(sqlite_type_to_pg_type("character(3)"), PgType::Varchar);
    assert_eq!(sqlite_type_to_pg_type("timetz"), PgType::Time);
    assert_eq!(sqlite_type_to_pg_type("bytea"), PgType::Bytea);
    assert_eq!(sqlite_type_to_pg_type("oid"), PgType::Oid);
    assert_eq!(sqlite_type_to_pg_type("vector"), PgType::Vector);
    assert_eq!(sqlite_type_to_pg_type("internal_char"), PgType::Char);
    assert_eq!(sqlite_type_to_pg_type("inet"), PgType::Inet);
    assert_eq!(sqlite_type_to_pg_type("cidr"), PgType::Cidr);
    assert_eq!(sqlite_type_to_pg_type("macaddr"), PgType::Macaddr);
    assert_eq!(sqlite_type_to_pg_type("macaddr8"), PgType::Macaddr8);
    assert_eq!(sqlite_type_to_pg_type(""), PgType::Text);
    assert_eq!(sqlite_type_to_pg_type(" int"), PgType::Text);
    // The small letter dotless i is capitalised to I.
    assert_eq!(sqlite_type_to_pg_type("ınt"), PgType::Int4);
}

#[test]
fn types_have_the_oids_of_postgresql() {
    for (ours, theirs) in SCALARS.iter().chain(ARRAYS.iter()) {
        assert_eq!(ours.oid(), theirs.oid());
        assert_eq!(PgType::from_oid(theirs.oid()), *ours);
        assert_eq!(built_in_type(theirs.oid()), Some(*ours));
    }
    assert_eq!(vector_pg_type().oid(), 40_001);
    assert_eq!(PgType::from_oid(40_001), PgType::Vector);
    assert_eq!(built_in_type(40_001), None);
    assert_eq!(built_in_type(0), None);
    assert_eq!(built_in_type(Type::POINT.oid()), Some(PgType::Other(Type::POINT.oid())));
}

#[test]
fn only_arrays_have_array_names() {
    for (ours, _) in SCALARS.iter() {
        assert!(!array_name(*ours));
    }
    for (ours, _) in ARRAYS.iter() {
        assert!(array_name(*ours));
    }
    assert!(!array_name(PgType::Vector));
    assert!(!array_name(PgType::Other(3)));
}

#[test]
fn types_that_quote_their_texts_are_named_or_known() {
    for oid in 0..70_000u32 {
        if let Some(listed) = Type::from_oid(oid) {
            assert_eq!(listed.oid(), oid);
            let quotes = matches!(listed.kind(), Kind::Array(_));
            let named = listed.name().starts_with('_') || oid == 22 || oid == 30;
            assert!(!quotes || named, "{oid}");
        }
    }
}

#[test]
fn every_array_is_made_of_its_elements() {
    let array = |t: PgType| scalar_pg_type_to_array_type(&t);
    assert_eq!(array(PgType::Int4), PgType::Int4Array);
    assert_eq!(array(PgType::Int8), PgType::Int8Array);
    assert_eq!(array(PgType::Float8), PgType::Float8Array);
    assert_eq!(array(PgType::Bool), PgType::BoolArray);
    assert_eq!(array(PgType::Text), PgType::TextArray);
    assert_eq!(array(PgType::Varchar), PgType::TextArray);
    assert_eq!(array(PgType::Uuid), PgType::UuidArray);
    assert_eq!(array(PgType::Json), PgType::JsonArray);
    assert_eq!(array(PgType::Jsonb), PgType::JsonbArray);
    assert_eq!(array(PgType::Date), PgType::DateArray);
    assert_eq!(array(PgType::Time), PgType::TimeArray);
    assert_eq!(array(PgType::Timestamp), PgType::TimestampArray);
    assert_eq!(array(PgType::Timestamptz), PgType::TimestamptzArray);
    assert_eq!(array(PgType::Inet), PgType::InetArray);
    assert_eq!(array(PgType::Cidr), PgType::CidrArray);
    assert_eq!(array(PgType::Macaddr), PgType::MacaddrArray);
    assert_eq!(array(PgType::Macaddr8), PgType::Macaddr8Array);
    assert_eq!(array(PgType::Numeric), PgType::NumericArray);
    assert_eq!(array(PgType::Bytea), PgType::ByteaArray);
    assert_eq!(array(PgType::Float4), PgType::Float4Array);
    assert_eq!(array(PgType::Oid), PgType::TextArray);
    assert_eq!(array(PgType::Vector), PgType::TextArray);
}

fn info(kind: ColumnTypeKind, declared: &str, base: Option<&str>, dimensions: u32) -> PgType {
    resolve_pg_type_for_column(&Some(ColumnTypeInfo {
        kind,
        declared_name: declared.to_owned(),
        base_type: base.map(|b| b.to_owned()),
        array_dimensions: dimensions,
    }))
}

#[test]
fn columns_get_their_declared_type_then_their_base() {
    assert_eq!(resolve_pg_type_for_column(&None), PgType::Text);
    assert_eq!(info(ColumnTypeKind::Struct, "point", Some("blob"), 0), PgType::Jsonb);
    assert_eq!(info(ColumnTypeKind::Union, "shape", Some("blob"), 1), PgType::JsonbArray);
    assert_eq!(info(ColumnTypeKind::Plain, "bigint", Some("text"), 0), PgType::Int8);
    assert_eq!(info(ColumnTypeKind::Plain, "email", Some("text"), 0), PgType::Text);
    assert_eq!(info(ColumnTypeKind::Plain, "cents", Some("integer"), 0), PgType::Int4);
    assert_eq!(info(ColumnTypeKind::Plain, "cents", None, 0), PgType::Text);
    assert_eq!(info(ColumnTypeKind::Plain, "integer", None, 2), PgType::Int4Array);
}
