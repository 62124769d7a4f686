use std::sync::Arc;

use pgwire::api::results::{DataRowEncoder, FieldInfo};
use pgwire::types::format::FormatOptions;
use postgres_types::{Kind, Type};
use turso_postgres::error::SessionError;
use turso_postgres::parameter::pg_bytes_to_value;
use turso_postgres::pgtype::{vector_pg_type, ColumnTypeInfo, ColumnTypeKind, PgType};
use turso_postgres::row::{
    build_field_info, encode_pgvector_value, encode_row, encode_value, needs_core_vector,
    row_encoder, wire_column, Column, CoreVector, Encoded, ResultColumn,
};
use turso_postgres::value::{BindValue, FieldFormat, Format, Value};
use turso_postgres::vector::encode_pgvector_binary;

fn column(pg_type: PgType, format: FieldFormat) -> Column {
    Column { name: "c".to_owned(), pg_type, format }
}

fn vector_of(elements: &[f32]) -> CoreVector {
    CoreVector {
        dense_f32: true,
        dims: elements.len(),
        elements: elements.iter().map(|e| e.to_bits()).collect(),
        text: format!("{elements:?}").replace(' ', ""),
    }
}

fn encoded(value: Value, pg_type: PgType, format: FieldFormat) -> Result<Vec<u8>, SessionError> {
    let mut encoder = row_encoder(&vec![column(pg_type, format)]);
    match encode_value(&mut encoder, &value, &None, &pg_type, format) {
        Ok(Encoded::Written) => Ok(encoder.finish().unwrap().data.to_vec()),
        Ok(Encoded::Real(_)) => panic!("a floating point number is written by the caller"),
        Err(e) => Err(e),
    }
}

/// The bytes of the only field of a row.
fn payload(value: Value, pg_type: PgType, format: FieldFormat) -> Vec<u8> {
    let row = encoded(value, pg_type, format).unwrap();
    assert_eq!(row[..4], ((row.len() - 4) as i32).to_be_bytes());
    row[4..].to_vec()
}

fn text(s: &str) -> Value {
    Value::Text(s.to_owned())
}

#[test]
fn pgvector_binary_result_uses_pgvector_layout() {
    let vector_type = Type::new("vector".to_string(), 40_001, Kind::Simple, "public".to_string());
    let fields = Arc::new(vec![FieldInfo::new(
        "embedding".to_string(),
        None,
        None,
        vector_type,
        pgwire::api::results::FieldFormat::Binary,
    )]);
    let mut encoder = DataRowEncoder::new(fields);
    let mut blob = Vec::new();
    blob.extend_from_slice(&1.5f32.to_le_bytes());
    blob.extend_from_slice(&(-2.0f32).to_le_bytes());
    encode_value(
        &mut encoder,
        &Value::Blob(blob),
        &Some(vector_of(&[1.5, -2.0])),
        &vector_pg_type(),
        FieldFormat::Binary,
    )
    .unwrap();

    let row = encoder.finish().unwrap();
    assert_eq!(&row.data[..4], &12i32.to_be_bytes());
    assert_eq!(&row.data[4..8], &[0, 2, 0, 0]);
    assert_eq!(&row.data[8..12], &1.5f32.to_be_bytes());
    assert_eq!(&row.data[12..16], &(-2.0f32).to_be_bytes());
}

#[test]
fn vectors_go_out_as_text_too() {
    let columns = vec![column(PgType::Vector, FieldFormat::Text)];
    let mut encoder = row_encoder(&columns);
    let vector = Some(vector_of(&[1.5, -2.0]));
    let r = encode_pgvector_value(&mut encoder, &text("[1.5,-2]"), &vector, FieldFormat::Text);
    assert_eq!(r, Ok(Encoded::Written));
    assert_eq!(&encoder.finish().unwrap().data[4..], b"[1.5,-2.0]");

    for format in [FieldFormat::Text, FieldFormat::Binary] {
        let mut encoder = row_encoder(&vec![column(PgType::Vector, format)]);
        encode_pgvector_value(&mut encoder, &Value::Null, &None, format).unwrap();
        assert_eq!(&encoder.finish().unwrap().data[..], &[0xff; 4]);
    }
}

#[test]
fn other_vectors_are_refused() {
    let sparse = CoreVector { dense_f32: false, ..vector_of(&[1.0]) };
    let mut encoder = row_encoder(&vec![column(PgType::Vector, FieldFormat::Text)]);
    let r = encode_pgvector_value(&mut encoder, &text("[1]"), &Some(sparse), FieldFormat::Text);
    assert_eq!(
        r,
        Err(SessionError::ConversionError(
            "PostgreSQL vector values must use dense float32 storage".to_owned()
        ))
    );
    let long = CoreVector { dims: 65_536, ..vector_of(&[1.0]) };
    let r = encode_pgvector_value(&mut encoder, &text("[1]"), &Some(long), FieldFormat::Binary);
    assert_eq!(
        r,
        Err(SessionError::ConversionError(
            "vector dimensions exceed PostgreSQL binary format limits".to_owned()
        ))
    );
}

#[test]
fn binary_vectors_come_back_byte_for_byte() {
    let elements = [0.0f32, -1.25, f32::MAX, 3.0e-40];
    let bits: Vec<u32> = elements.iter().map(|e| e.to_bits()).collect();
    let sent = encode_pgvector_binary(4, &bits);
    let read = pg_bytes_to_value(&sent, &PgType::Vector, FieldFormat::Binary).unwrap();
    let blob: Vec<u8> = elements.iter().flat_map(|e| e.to_le_bytes()).collect();
    assert_eq!(read, BindValue::Blob(blob));
}

#[test]
fn null_has_no_bytes() {
    for ty in [PgType::Text, PgType::Int4, PgType::Bool, PgType::Vector, PgType::Int4Array] {
        for format in [FieldFormat::Text, FieldFormat::Binary] {
            assert_eq!(encoded(Value::Null, ty, format), Ok(vec![0xff; 4]));
        }
    }
}

#[test]
fn integers_go_out_by_column_type() {
    assert_eq!(payload(Value::Integer(-42), PgType::Int8, FieldFormat::Text), b"-42");
    assert_eq!(
        payload(Value::Integer(-2), PgType::Int8, FieldFormat::Binary),
        (-2i64).to_be_bytes()
    );
    assert_eq!(
        payload(Value::Integer(i64::MIN), PgType::Int8, FieldFormat::Text),
        b"-9223372036854775808"
    );
    assert_eq!(payload(Value::Integer(5), PgType::Text, FieldFormat::Text), b"5");
    assert_eq!(payload(Value::Integer(5), PgType::Bool, FieldFormat::Text), b"t");
    assert_eq!(payload(Value::Integer(0), PgType::Bool, FieldFormat::Text), b"f");
    assert_eq!(payload(Value::Integer(-1), PgType::Bool, FieldFormat::Binary), [1]);
    assert_eq!(payload(Value::Integer(0), PgType::Bool, FieldFormat::Binary), [0]);
    assert_eq!(payload(Value::Integer(0xffff_ffff), PgType::Oid, FieldFormat::Text), b"4294967295");
    assert_eq!(payload(Value::Integer(258), PgType::Oid, FieldFormat::Binary), [0, 0, 1, 2]);
    for out in [-1, 0x1_0000_0000] {
        assert_eq!(
            encoded(Value::Integer(out), PgType::Oid, FieldFormat::Text),
            Err(SessionError::ConversionError(format!("OID value is out of range: {out}")))
        );
    }
}

#[test]
fn floating_point_numbers_are_left_to_the_caller() {
    let columns = vec![column(PgType::Float8, FieldFormat::Text)];
    let mut encoder = row_encoder(&columns);
    let bits = 2.5f64.to_bits();
    let r = encode_value(
        &mut encoder,
        &Value::Real(bits),
        &None,
        &PgType::Float8,
        FieldFormat::Text,
    );
    assert_eq!(r, Ok(Encoded::Real(bits)));
    encoder.encode_field(&f64::from_bits(bits)).unwrap();
    assert_eq!(&encoder.finish().unwrap().data[4..], b"2.5");
}

#[test]
fn internal_characters_go_out_as_numbers() {
    assert_eq!(payload(text("r"), PgType::Char, FieldFormat::Text), b"114");
    assert_eq!(payload(text("rx"), PgType::Char, FieldFormat::Binary), b"r");
    assert_eq!(payload(text("é"), PgType::Char, FieldFormat::Binary), [0xc3]);
    assert_eq!(payload(text("é"), PgType::Char, FieldFormat::Text), b"-61");
    assert_eq!(
        encoded(text(""), PgType::Char, FieldFormat::Text),
        Err(SessionError::ConversionError("PostgreSQL internal char cannot be empty".to_owned()))
    );
}

#[test]
fn timestamps_get_a_zone() {
    let zoned = |s: &str| {
        String::from_utf8(payload(text(s), PgType::Timestamptz, FieldFormat::Text)).unwrap()
    };
    assert_eq!(zoned("2024-01-02 03:04:05"), "2024-01-02 03:04:05+00");
    assert_eq!(zoned("2024-01-02 03:04:05+02"), "2024-01-02 03:04:05+02");
    assert_eq!(zoned("2024-01-02T03:04:05Z"), "2024-01-02T03:04:05Z");
    assert_eq!(zoned("2024-01-02 03:04:05-00"), "2024-01-02 03:04:05-00");
    for west in ["-05", "-0330", "-03:30", "-04:56:02"] {
        let text = format!("2024-01-01 12:00:00{west}");
        assert_eq!(zoned(&text), text);
    }
    assert_eq!(zoned("2024-01-02"), "2024-01-02+00");
    assert_eq!(zoned("2024-01-02 03:04:05.678"), "2024-01-02 03:04:05.678+00");
    assert_eq!(zoned("2024-01-02 03:04-5"), "2024-01-02 03:04-5+00");
    assert_eq!(zoned("2024-01-02 03:04-05x"), "2024-01-02 03:04-05x+00");
    assert_eq!(zoned(""), "+00");
    assert_eq!(
        payload(text("2024-01-02 03:04:05"), PgType::Timestamp, FieldFormat::Text),
        b"2024-01-02 03:04:05"
    );
}

#[test]
fn texts_go_out_as_they_are() {
    for ty in [PgType::Text, PgType::Varchar, PgType::Int4, PgType::Jsonb, PgType::Unknown] {
        for format in [FieldFormat::Text, FieldFormat::Binary] {
            for s in ["", "plain", "{1,2}", "a\"b\\c", "naïve €"] {
                assert_eq!(payload(text(s), ty, format), s.as_bytes(), "{ty:?} {s}");
            }
        }
    }
}

#[test]
fn array_literals_are_not_quoted() {
    for s in ["{1,2,3}", "{\"a b\",c}", "{}", ""] {
        assert_eq!(payload(text(s), PgType::Int4Array, FieldFormat::Text), s.as_bytes());
        assert_eq!(payload(text(s), PgType::TextArray, FieldFormat::Binary), s.as_bytes());
    }
    // The column says array, the value is encoded as text: the encoder quotes.
    let mut encoder = row_encoder(&vec![column(PgType::TextArray, FieldFormat::Text)]);
    encode_value(&mut encoder, &text("{1,2}"), &None, &PgType::Text, FieldFormat::Text).unwrap();
    assert_eq!(&encoder.finish().unwrap().data[4..], b"\"{1,2}\"");
}

/// A text as an element of an array that the encoder quotes.
fn quoted_element(s: &str, column_type: PgType) -> String {
    let mut encoder = row_encoder(&vec![column(column_type, FieldFormat::Text)]);
    encode_value(&mut encoder, &text(s), &None, &PgType::Text, FieldFormat::Text).unwrap();
    String::from_utf8(encoder.finish().unwrap().data[4..].to_vec()).unwrap()
}

#[test]
fn elements_of_arrays_are_quoted_where_they_need_it() {
    let arrays = [PgType::TextArray, PgType::Int4Array, PgType::Other(22), PgType::Other(30)];
    for array in arrays {
        for plain in ["a", "1", "nulls", "n", "a'b", "[x]", "é"] {
            assert_eq!(quoted_element(plain, array), plain);
        }
        for (s, quoted) in [
            ("", "\"\""),
            ("null", "\"null\""),
            ("NuLL", "\"NuLL\""),
            ("a b", "\"a b\""),
            ("a\"b\\c", "\"a\\\"b\\\\c\""),
            ("{x", "\"{x\""),
        ] {
            assert_eq!(quoted_element(s, array), quoted);
        }
    }
    // Anonymous records have the name of an array, but are none.
    assert_eq!(quoted_element("a b", PgType::Other(2287)), "a b");
    assert_eq!(quoted_element("a b", PgType::Text), "a b");
    for c in '\u{0}'..='\u{ffff}' {
        let quotes = matches!(c, '"' | '\\' | '{' | '}' | ',' | ' ' | '\u{9}'..='\u{d}');
        let shown = quoted_element(&format!("x{c}"), PgType::TextArray);
        assert_eq!(shown.starts_with('"'), quotes, "{c:?}");
    }
    let mut encoder = row_encoder(&vec![column(PgType::TextArray, FieldFormat::Binary)]);
    encode_value(&mut encoder, &text("a b"), &None, &PgType::Text, FieldFormat::Binary).unwrap();
    assert_eq!(&encoder.finish().unwrap().data[4..], b"a b");
}

#[test]
fn byte_strings_go_out_in_hexadecimal() {
    let data = vec![0x00, 0xde, 0xad, 0x0f];
    assert_eq!(payload(Value::Blob(data.clone()), PgType::Bytea, FieldFormat::Text), b"\\x00dead0f");
    assert_eq!(payload(Value::Blob(data.clone()), PgType::Bytea, FieldFormat::Binary), data);
    assert_eq!(payload(Value::Blob(vec![]), PgType::Bytea, FieldFormat::Text), b"\\x");
    assert_eq!(
        payload(Value::Blob(data), PgType::ByteaArray, FieldFormat::Text),
        b"\"\\\\x00dead0f\""
    );
}

#[test]
fn what_goes_out_comes_back() {
    for i in [0, 7, -7, i64::MAX, i64::MIN] {
        let sent = payload(Value::Integer(i), PgType::Int8, FieldFormat::Text);
        for ty in [PgType::Int8, PgType::Unknown] {
            let read = pg_bytes_to_value(&sent, &ty, FieldFormat::Text);
            assert_eq!(read, Ok(BindValue::Integer(i)));
        }
    }
    for oid in [0u32, 26, u32::MAX] {
        for format in [FieldFormat::Text, FieldFormat::Binary] {
            let sent = payload(Value::Integer(i64::from(oid)), PgType::Oid, format);
            let read = pg_bytes_to_value(&sent, &PgType::Oid, format);
            assert_eq!(read, Ok(BindValue::Integer(i64::from(oid))));
        }
    }
    for i in [0, 1, 9] {
        let sent = payload(Value::Integer(i), PgType::Bool, FieldFormat::Text);
        let read = pg_bytes_to_value(&sent, &PgType::Bool, FieldFormat::Text);
        assert_eq!(read, Ok(BindValue::Integer(i64::from(i != 0))));
    }
    let data: Vec<u8> = (0..=255).collect();
    let sent = payload(Value::Blob(data.clone()), PgType::Bytea, FieldFormat::Text);
    let read = pg_bytes_to_value(&sent, &PgType::Bytea, FieldFormat::Text);
    assert_eq!(read, Ok(BindValue::Blob(data)));
    for ty in [PgType::Text, PgType::Uuid, PgType::Date, PgType::Int4Array] {
        let sent = payload(text("{ä,\"b\"}"), ty, FieldFormat::Text);
        let read = pg_bytes_to_value(&sent, &ty, FieldFormat::Text);
        assert_eq!(read, Ok(BindValue::Text("{ä,\"b\"}".to_owned())));
    }
}

#[test]
fn only_vector_columns_need_a_vector() {
    assert!(needs_core_vector(&text("[1]"), &PgType::Vector));
    assert!(!needs_core_vector(&Value::Null, &PgType::Vector));
    assert!(!needs_core_vector(&text("[1]"), &PgType::Text));
}

#[test]
fn rows_stop_at_floating_point_numbers() {
    let columns = vec![
        column(PgType::Int4, FieldFormat::Text),
        column(PgType::Float8, FieldFormat::Binary),
        column(PgType::Bool, FieldFormat::Text),
    ];
    let values = vec![Value::Integer(1), Value::Real(2.5f64.to_bits()), Value::Integer(0)];
    let vectors = vec![None, None, None];
    let mut encoder = row_encoder(&columns);
    assert_eq!(encode_row(&mut encoder, &columns, &values, &vectors, 0), Ok(1));
    encoder.encode_field(&2.5f64).unwrap();
    assert_eq!(encode_row(&mut encoder, &columns, &values, &vectors, 2), Ok(3));
    let mut expected = vec![0, 0, 0, 1, b'1', 0, 0, 0, 8];
    expected.extend_from_slice(&2.5f64.to_be_bytes());
    expected.extend_from_slice(&[0, 0, 0, 1, b'f']);
    assert_eq!(&encoder.finish().unwrap().data[..], &expected[..]);
}

#[test]
fn rows_stop_at_vectors_that_were_not_read() {
    let columns = vec![
        column(PgType::Int4, FieldFormat::Text),
        column(PgType::Vector, FieldFormat::Text),
        column(PgType::Vector, FieldFormat::Text),
    ];
    let values = vec![Value::Integer(1), Value::Null, text("not a vector")];
    let vectors = vec![None, None, None];
    let mut encoder = row_encoder(&columns);
    assert_eq!(encode_row(&mut encoder, &columns, &values, &vectors, 0), Ok(2));
    let vectors = vec![None, None, Some(vector_of(&[1.0]))];
    assert_eq!(encode_row(&mut encoder, &columns, &values, &vectors, 2), Ok(3));
    let expected = b"\x00\x00\x00\x011\xff\xff\xff\xff\x00\x00\x00\x05[1.0]";
    assert_eq!(&encoder.finish().unwrap().data[..], &expected[..]);
}

#[test]
fn rows_stop_at_errors() {
    let columns = vec![column(PgType::Oid, FieldFormat::Text)];
    let mut encoder = row_encoder(&columns);
    let r = encode_row(&mut encoder, &columns, &vec![Value::Integer(-5)], &vec![None], 0);
    assert_eq!(
        r,
        Err(SessionError::ConversionError("OID value is out of range: -5".to_owned()))
    );
}

#[test]
fn columns_are_described_with_their_formats() {
    let result = |name: &str, declared: &str| ResultColumn {
        name: name.to_owned(),
        type_info: Some(ColumnTypeInfo {
            kind: ColumnTypeKind::Plain,
            declared_name: declared.to_owned(),
            base_type: None,
            array_dimensions: 0,
        }),
    };
    let columns = vec![result("id", "bigint"), result("embedding", "vector")];
    let described = build_field_info(&columns, &Format::Individual(vec![0, 1]));
    assert_eq!(
        described,
        vec![
            Column { name: "id".to_owned(), pg_type: PgType::Int8, format: FieldFormat::Text },
            Column {
                name: "embedding".to_owned(),
                pg_type: PgType::Vector,
                format: FieldFormat::Binary,
            },
        ]
    );
    assert_eq!(build_field_info(&columns, &Format::UnifiedBinary)[0].format, FieldFormat::Binary);
    assert_eq!(build_field_info(&columns, &Format::UnifiedText)[1].format, FieldFormat::Text);
    let wire = wire_column(&described[1]);
    assert_eq!((wire.name.as_str(), wire.type_oid, wire.format_code), ("embedding", 40_001, 1));
    assert_eq!((wire.type_label.as_str(), wire.type_schema.as_str()), ("vector", "public"));
}

#[test]
fn byte_strings_are_hexadecimal_by_default() {
    let field = FieldInfo::new(
        "c".to_owned(),
        None,
        None,
        Type::BYTEA,
        pgwire::api::results::FieldFormat::Text,
    );
    let mut plain = DataRowEncoder::new(Arc::new(vec![field]));
    plain
        .encode_field_with_type_and_format(
            &&[0xabu8][..],
            &Type::BYTEA,
            pgwire::api::results::FieldFormat::Text,
            &FormatOptions::default(),
        )
        .unwrap();
    assert_eq!(&plain.finish().unwrap().data[4..], b"\\xab");
}
