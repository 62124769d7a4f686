use postgres_types::Type;
use turso_postgres::error::error_info;
use turso_postgres::hex::decode_hex;
use turso_postgres::metadata::PgParameterMetadata;
use turso_postgres::parameter::{
    bind_portal_parameter, described_parameter_types, pg_bytes_to_value, resolve_parameter_types,
};
use turso_postgres::pgtype::{vector_pg_type, PgType};
use turso_postgres::value::{BindValue, FieldFormat, Format};

fn text_of(s: &str) -> BindValue {
    BindValue::Text(s.to_owned())
}

fn refusal(bytes: &[u8], ty: PgType, format: FieldFormat) -> String {
    let error = pg_bytes_to_value(bytes, &ty, format).unwrap_err();
    assert_eq!(error.severity, "ERROR");
    assert_eq!(error.code, "XX000");
    error.message
}

#[test]
fn test_pg_bytes_to_value_integer() {
    let val = pg_bytes_to_value(b"42", &PgType::Int4, FieldFormat::Text).unwrap();
    assert_eq!(val, BindValue::Integer(42));

    let val = pg_bytes_to_value(b"-100", &PgType::Int8, FieldFormat::Text).unwrap();
    assert_eq!(val, BindValue::Integer(-100));

    let val = pg_bytes_to_value(b"0", &PgType::Int2, FieldFormat::Text).unwrap();
    assert_eq!(val, BindValue::Integer(0));
}

fn real_of(value: BindValue) -> f64 {
    match value {
        BindValue::Real(text) => text.parse::<f64>().unwrap(),
        other => panic!("expected a floating point number, got {other:?}"),
    }
}

#[test]
fn test_pg_bytes_to_value_float() {
    let val = pg_bytes_to_value(b"3.25", &PgType::Float8, FieldFormat::Text).unwrap();
    assert_eq!(real_of(val), 3.25);

    let val = pg_bytes_to_value(b"-0.5", &PgType::Float4, FieldFormat::Text).unwrap();
    assert_eq!(real_of(val), -0.5);

    let val = pg_bytes_to_value(b"1.23", &PgType::Numeric, FieldFormat::Text).unwrap();
    assert_eq!(real_of(val), 1.23);
}

#[test]
fn test_pg_bytes_to_value_bool() {
    let val = pg_bytes_to_value(b"t", &PgType::Bool, FieldFormat::Text).unwrap();
    assert_eq!(val, BindValue::Integer(1));

    let val = pg_bytes_to_value(b"f", &PgType::Bool, FieldFormat::Text).unwrap();
    assert_eq!(val, BindValue::Integer(0));

    let val = pg_bytes_to_value(b"true", &PgType::Bool, FieldFormat::Text).unwrap();
    assert_eq!(val, BindValue::Integer(1));

    let val = pg_bytes_to_value(b"false", &PgType::Bool, FieldFormat::Text).unwrap();
    assert_eq!(val, BindValue::Integer(0));
}

#[test]
fn test_pg_bytes_to_value_text() {
    let val = pg_bytes_to_value(b"hello world", &PgType::Text, FieldFormat::Text).unwrap();
    assert_eq!(val, text_of("hello world"));

    let val = pg_bytes_to_value(b"Alice", &PgType::Varchar, FieldFormat::Text).unwrap();
    assert_eq!(val, text_of("Alice"));
}

#[test]
fn test_pg_bytes_to_value_bytea() {
    let val = pg_bytes_to_value(b"\\xDEADBEEF", &PgType::Bytea, FieldFormat::Text).unwrap();
    assert_eq!(val, BindValue::Blob(vec![0xDE, 0xAD, 0xBE, 0xEF]));
}

#[test]
fn pgvector_binary_parameter_converts_to_internal_dense_f32_blob() {
    let mut bytes = vec![0, 2, 0, 0];
    bytes.extend_from_slice(&1.5f32.to_be_bytes());
    bytes.extend_from_slice(&(-2.0f32).to_be_bytes());

    let value = pg_bytes_to_value(&bytes, &vector_pg_type(), FieldFormat::Binary).unwrap();
    let BindValue::Blob(blob) = value else {
        panic!("expected vector blob");
    };
    assert_eq!(blob.as_slice(), [1.5f32.to_le_bytes(), (-2.0f32).to_le_bytes()].concat());
}

#[test]
fn pgvector_binary_parameter_rejects_malformed_payload() {
    let error = pg_bytes_to_value(
        &[0, 2, 0, 0, 0, 0, 0, 0],
        &vector_pg_type(),
        FieldFormat::Binary,
    )
    .unwrap_err();
    assert!(error.message.contains("expected 12 bytes"));
}

#[test]
fn test_pg_bytes_to_value_unknown_type_as_text() {
    let val = pg_bytes_to_value(b"some-uuid-value", &PgType::Uuid, FieldFormat::Text).unwrap();
    assert_eq!(val, text_of("some-uuid-value"));
}

#[test]
fn test_pg_bytes_to_value_integer_parse_error() {
    let result = pg_bytes_to_value(b"not_a_number", &PgType::Int4, FieldFormat::Text);
    assert!(result.is_err());
}

#[test]
fn test_pg_bytes_to_value_float_parse_error() {
    let result = pg_bytes_to_value(b"not_a_float", &PgType::Float8, FieldFormat::Text);
    assert!(result.is_err());
}

#[test]
fn test_pg_bytes_to_value_bool_invalid() {
    let result = pg_bytes_to_value(b"maybe", &PgType::Bool, FieldFormat::Text);
    assert!(result.is_err());
}

#[test]
fn test_decode_hex() {
    assert_eq!(decode_hex("DEADBEEF").unwrap(), vec![0xDE, 0xAD, 0xBE, 0xEF]);
    assert_eq!(decode_hex("00ff").unwrap(), vec![0x00, 0xFF]);
    assert_eq!(decode_hex("").unwrap(), Vec::<u8>::new());
    assert!(decode_hex("0").is_err());
    assert!(decode_hex("GG").is_err());
}

#[test]
fn test_unknown_type_inference() {
    let val = pg_bytes_to_value(b"42", &PgType::Unknown, FieldFormat::Text).unwrap();
    assert!(matches!(val, BindValue::Integer(42)));

    let val = pg_bytes_to_value(b"3.14", &PgType::Unknown, FieldFormat::Text).unwrap();
    if let BindValue::Real(text) = val {
        #[allow(clippy::approx_constant)]
        let expected = 3.14;
        assert!((text.parse::<f64>().unwrap() - expected).abs() < 0.001);
    } else {
        panic!("Expected Float");
    }

    let val = pg_bytes_to_value(b"hello", &PgType::Unknown, FieldFormat::Text).unwrap();
    assert!(matches!(val, BindValue::Text(_)));
}

#[test]
fn integers_are_read_as_std_reads_them() {
    for text in [
        "0", "+7", "-7", "007", "", "+", "-", " 7", "7 ", "0x7", "1e3", "1.0", "--7", "+-7", "７",
        "9223372036854775807", "9223372036854775808", "-9223372036854775808",
        "-9223372036854775809", "99999999999999999999999",
    ] {
        let read = pg_bytes_to_value(text.as_bytes(), &PgType::Int8, FieldFormat::Text);
        match text.parse::<i64>() {
            Ok(v) => assert_eq!(read, Ok(BindValue::Integer(v)), "{text}"),
            Err(e) => {
                assert_eq!(read, Err(error_info(&format!("invalid integer parameter: {e}"))))
            }
        }
    }
}

#[test]
fn oids_are_read_as_std_reads_them() {
    for text in ["0", "+7", "-0", "-7", "4294967295", "4294967296", "", "abc", "+"] {
        let read = pg_bytes_to_value(text.as_bytes(), &PgType::Oid, FieldFormat::Text);
        match text.parse::<u32>() {
            Ok(v) => assert_eq!(read, Ok(BindValue::Integer(i64::from(v))), "{text}"),
            Err(e) => assert_eq!(read, Err(error_info(&format!("invalid OID parameter: {e}")))),
        }
    }
}

#[test]
fn floats_are_recognised_as_std_recognises_them() {
    let pieces = ["", "+", "-", ".", "e", "E", "0", "12", "inf", "NaN", "INFINITY", "x", " "];
    for a in pieces {
        for b in pieces {
            for c in pieces {
                for d in pieces {
                    let text = format!("{a}{b}{c}{d}");
                    let read = pg_bytes_to_value(text.as_bytes(), &PgType::Float8, FieldFormat::Text);
                    match text.parse::<f64>() {
                        Ok(_) => assert_eq!(read, Ok(BindValue::Real(text.clone())), "{text}"),
                        Err(e) => assert_eq!(
                            read,
                            Err(error_info(&format!("invalid float parameter: {e}"))),
                            "{text}"
                        ),
                    }
                }
            }
        }
    }
}

#[test]
fn booleans_have_six_spellings_each() {
    for yes in ["t", "true", "TRUE", "1", "yes", "on"] {
        let read = pg_bytes_to_value(yes.as_bytes(), &PgType::Bool, FieldFormat::Text);
        assert_eq!(read, Ok(BindValue::Integer(1)));
    }
    for no in ["f", "false", "FALSE", "0", "no", "off"] {
        let read = pg_bytes_to_value(no.as_bytes(), &PgType::Bool, FieldFormat::Text);
        assert_eq!(read, Ok(BindValue::Integer(0)));
    }
    for other in ["True", "T", "", "YES", "2"] {
        assert_eq!(
            refusal(other.as_bytes(), PgType::Bool, FieldFormat::Text),
            format!("invalid boolean parameter: {other}")
        );
    }
}

#[test]
fn untyped_parameters_are_guessed_in_order() {
    let guess = |s: &str| pg_bytes_to_value(s.as_bytes(), &PgType::Unknown, FieldFormat::Text).unwrap();
    assert_eq!(guess("1"), BindValue::Integer(1));
    assert_eq!(guess("9223372036854775808"), BindValue::Real("9223372036854775808".to_owned()));
    assert_eq!(guess("1e3"), BindValue::Real("1e3".to_owned()));
    assert_eq!(guess("nan"), BindValue::Real("nan".to_owned()));
    assert_eq!(guess("TrUe"), BindValue::Integer(1));
    assert_eq!(guess("T"), BindValue::Integer(1));
    assert_eq!(guess("fAlse"), BindValue::Integer(0));
    assert_eq!(guess("F"), BindValue::Integer(0));
    assert_eq!(guess("yes"), text_of("yes"));
    assert_eq!(guess(""), text_of(""));
}

#[test]
fn bytes_that_are_not_utf8_are_refused() {
    for bytes in [&[0xffu8][..], &[b'a', 0xc3], &[0xed, 0xa0, 0x80]] {
        let reason = std::str::from_utf8(bytes).unwrap_err();
        assert_eq!(
            refusal(bytes, PgType::Text, FieldFormat::Text),
            format!("invalid UTF-8 in parameter: {reason}")
        );
        assert_eq!(
            refusal(bytes, PgType::Vector, FieldFormat::Text),
            format!("invalid UTF-8 in vector parameter: {reason}")
        );
    }
}

#[test]
fn binary_oid_takes_four_bytes() {
    let read = pg_bytes_to_value(&[0x01, 0x02, 0x03, 0xff], &PgType::Oid, FieldFormat::Binary);
    assert_eq!(read, Ok(BindValue::Integer(0x0102_03ff)));
    let read = pg_bytes_to_value(&[0xff; 4], &PgType::Oid, FieldFormat::Binary);
    assert_eq!(read, Ok(BindValue::Integer(4294967295)));
    assert_eq!(
        refusal(&[1, 2, 3], PgType::Oid, FieldFormat::Binary),
        "invalid binary OID parameter: expected 4 bytes"
    );
}

#[test]
fn byte_strings_are_raw_without_the_prefix() {
    let read = pg_bytes_to_value(b"plain", &PgType::Bytea, FieldFormat::Text);
    assert_eq!(read, Ok(BindValue::Blob(b"plain".to_vec())));
    assert_eq!(
        refusal(b"\\x123", PgType::Bytea, FieldFormat::Text),
        "invalid bytea hex parameter: odd-length hex string"
    );
    let reason = u8::from_str_radix("g0", 16).unwrap_err();
    assert_eq!(
        refusal(b"\\x00g0", PgType::Bytea, FieldFormat::Text),
        format!("invalid bytea hex parameter: invalid hex at position 2: {reason}")
    );
}

#[test]
fn hex_digits_come_in_pairs() {
    for byte in 0..=255u8 {
        assert_eq!(decode_hex(&format!("{byte:02x}")), Ok(vec![byte]));
        assert_eq!(decode_hex(&format!("{byte:02X}")), Ok(vec![byte]));
    }
    for pair in ["-1", "g1", "1g", "  ", "é", "++", "0:", "@a", "`a"] {
        let reason = u8::from_str_radix(pair, 16).unwrap_err();
        assert_eq!(
            decode_hex(pair),
            Err(format!("invalid hex at position 0: {reason}")),
            "{pair}"
        );
    }
}

#[test]
fn a_sign_is_no_hex_digit() {
    let refused = |i: usize| Err(format!("invalid hex at position {i}: invalid digit found in string"));
    assert_eq!(decode_hex("+f"), refused(0));
    assert_eq!(decode_hex("00+a"), refused(2));
    assert_eq!(
        refusal(b"\\x+f", PgType::Bytea, FieldFormat::Text),
        "invalid bytea hex parameter: invalid hex at position 0: invalid digit found in string"
    );
}

#[test]
fn hex_with_a_split_character_is_refused() {
    let refused = |i: usize| Err(format!("invalid hex at position {i}: invalid digit found in string"));
    assert_eq!(decode_hex("aéb"), refused(0));
    assert_eq!(decode_hex("0€"), refused(0));
    assert_eq!(decode_hex("00aéb"), refused(2));
    assert_eq!(decode_hex("€"), Err("odd-length hex string".to_owned()));
    assert_eq!(
        refusal("\\xaéb".as_bytes(), PgType::Bytea, FieldFormat::Text),
        "invalid bytea hex parameter: invalid hex at position 0: invalid digit found in string"
    );
}

#[test]
fn malformed_vectors_name_their_fault() {
    let fault = |bytes: &[u8]| refusal(bytes, PgType::Vector, FieldFormat::Binary);
    assert_eq!(fault(&[0, 1, 0]), "invalid vector binary parameter: expected a 4-byte header");
    assert_eq!(
        fault(&[0, 0, 0, 0]),
        "invalid vector binary parameter: dimensions must be between 1 and 16000, got 0"
    );
    assert_eq!(
        fault(&[0x3e, 0x81, 0, 0]),
        "invalid vector binary parameter: dimensions must be between 1 and 16000, got 16001"
    );
    assert_eq!(
        fault(&[0, 1, 0, 1, 0, 0, 0, 0]),
        "invalid vector binary parameter: unused header field must be zero"
    );
    assert_eq!(
        fault(&[0, 1, 0, 0, 0, 0, 0]),
        "invalid vector binary parameter: expected 8 bytes, got 7"
    );
    for bad in [f32::NAN, f32::INFINITY, f32::NEG_INFINITY] {
        let mut bytes = vec![0, 1, 0, 0];
        bytes.extend_from_slice(&bad.to_be_bytes());
        assert_eq!(fault(&bytes), "invalid vector binary parameter: elements must be finite");
    }
    let mut bytes = vec![0x3e, 0x80, 0, 0];
    bytes.extend(std::iter::repeat(0u8).take(64_000));
    let read = pg_bytes_to_value(&bytes, &PgType::Vector, FieldFormat::Binary);
    assert_eq!(read, Ok(BindValue::Blob(vec![0; 64_000])));
    for fine in [f32::MAX, f32::MIN_POSITIVE, -0.0, 1.0e-45] {
        let mut bytes = vec![0, 1, 0, 0];
        bytes.extend_from_slice(&fine.to_be_bytes());
        let read = pg_bytes_to_value(&bytes, &PgType::Vector, FieldFormat::Binary);
        assert_eq!(read, Ok(BindValue::Blob(fine.to_le_bytes().to_vec())));
    }
}

#[test]
fn vector_text_is_kept() {
    let read = pg_bytes_to_value(b"[1,2]", &PgType::Vector, FieldFormat::Text);
    assert_eq!(read, Ok(text_of("[1,2]")));
}

fn metadata(vectors: Vec<usize>, oids: Vec<usize>, count: usize) -> PgParameterMetadata {
    PgParameterMetadata { vector_parameters: vectors, oid_parameters: oids, parameter_count: count }
}

#[test]
fn declared_types_go_before_inferred_types() {
    let types = resolve_parameter_types(
        &vec![Type::INT4.oid(), 0, 0, 0, 40_001, Type::POINT.oid(), 999_999],
        &metadata(vec![1, 2], vec![2, 3], 9),
        true,
    )
    .unwrap();
    assert_eq!(
        types,
        vec![
            Some(PgType::Int4),
            Some(PgType::Vector),
            Some(PgType::Oid),
            None,
            Some(PgType::Vector),
            Some(PgType::Other(Type::POINT.oid())),
            None,
            None,
            None,
        ]
    );
    assert_eq!(
        described_parameter_types(&types)[..4],
        [PgType::Int4, PgType::Vector, PgType::Oid, PgType::Text]
    );
}

#[test]
fn vector_parameters_need_the_extension() {
    let message = "type \"vector\" does not exist; run CREATE EXTENSION vector first";
    let refused = resolve_parameter_types(&vec![40_001], &metadata(vec![], vec![], 1), false);
    assert_eq!(refused, Err(error_info(message)));
    let refused = resolve_parameter_types(&vec![], &metadata(vec![1], vec![], 1), false);
    assert_eq!(refused, Err(error_info(message)));
    let fine = resolve_parameter_types(&vec![23], &metadata(vec![], vec![], 1), false);
    assert_eq!(fine, Ok(vec![Some(PgType::Int4)]));
}

#[test]
fn portal_parameters_are_bound_by_name_then_position() {
    let parameters = vec![Some(b"7".to_vec()), None, Some(vec![0, 0, 0, 9]), Some(b"x".to_vec())];
    let types = vec![Some(PgType::Text), Some(PgType::Int4), Some(PgType::Oid)];
    let format = Format::Individual(vec![0, 0, 1, 0]);

    let first = bind_portal_parameter(&parameters, &types, &format, 0).unwrap();
    assert_eq!((first.name.as_str(), first.position), ("$1", 1));
    assert_eq!(first.value, text_of("7"));

    let second = bind_portal_parameter(&parameters, &types, &format, 1).unwrap();
    assert_eq!(second.value, BindValue::Null);

    let third = bind_portal_parameter(&parameters, &types, &format, 2).unwrap();
    assert_eq!(third.value, BindValue::Integer(9));

    let fourth = bind_portal_parameter(&parameters, &types, &format, 3).unwrap();
    assert_eq!((fourth.name.as_str(), fourth.position), ("$4", 4));
    assert_eq!(fourth.value, text_of("x"));

    let refused = bind_portal_parameter(
        &vec![Some(b"x".to_vec())],
        &vec![Some(PgType::Int4)],
        &Format::UnifiedText,
        0,
    );
    assert!(refused.unwrap_err().message.starts_with("invalid integer parameter: "));
}
