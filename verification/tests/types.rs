use pg_wire::errors::{NotSupportedOid, TypeValueDecodeError, TypeValueDecodeErrorKind};
use pg_wire::{PgFormat, PgType, Value};
use std::str;
use std::str::FromStr;

#[test]
fn not_supported_oid() {
    assert_eq!(PgType::from_oid(1_000_000), Err(NotSupportedOid(1_000_000)));
}

#[test]
fn undefined() {
    assert_eq!(PgType::from_oid(0), Ok(None));
}

#[test]
fn boolean() {
    assert_eq!(PgType::Bool.type_oid(), 16);
    assert_eq!(PgType::from_oid(PgType::Bool.type_oid()), Ok(Some(PgType::Bool)));
}

#[test]
fn types_boolean() {
    assert_eq!(PgType::Bool.type_len(), 1);
    assert_eq!(PgType::Bool.to_string(), "boolean".to_string());
}

#[test]
fn character() {
    assert_eq!(PgType::Char.type_oid(), 18);
    assert_eq!(PgType::from_oid(PgType::Char.type_oid()), Ok(Some(PgType::Char)));
}

#[test]
fn types_character() {
    assert_eq!(PgType::Char.type_len(), 1);
    assert_eq!(PgType::Char.to_string(), "character".to_string());
}

#[test]
fn big_int() {
    assert_eq!(PgType::BigInt.type_oid(), 20);
    assert_eq!(PgType::from_oid(PgType::BigInt.type_oid()), Ok(Some(PgType::BigInt)));
}

#[test]
fn types_big_int() {
    assert_eq!(PgType::BigInt.type_len(), 8);
    assert_eq!(PgType::BigInt.to_string(), "bigint".to_string());
}

#[test]
fn small_int() {
    assert_eq!(PgType::SmallInt.type_oid(), 21);
    assert_eq!(PgType::from_oid(PgType::SmallInt.type_oid()), Ok(Some(PgType::SmallInt)));
}

#[test]
fn types_small_int() {
    assert_eq!(PgType::SmallInt.type_len(), 2);
    assert_eq!(PgType::SmallInt.to_string(), "smallint".to_string());
}

#[test]
fn integer() {
    assert_eq!(PgType::Integer.type_oid(), 23);
    assert_eq!(PgType::from_oid(PgType::Integer.type_oid()), Ok(Some(PgType::Integer)));
}

#[test]
fn types_integer() {
    assert_eq!(PgType::Integer.type_len(), 4);
    assert_eq!(PgType::Integer.to_string(), "integer".to_string());
}

#[test]
fn variable_characters() {
    assert_eq!(PgType::VarChar.type_oid(), 1043);
    assert_eq!(PgType::from_oid(PgType::VarChar.type_oid()), Ok(Some(PgType::VarChar)));
}

#[test]
fn types_variable_characters() {
    assert_eq!(PgType::VarChar.type_len(), -1);
    assert_eq!(PgType::VarChar.to_string(), "variable character".to_string());
}

#[test]
fn decode_true() {
    assert_eq!(PgType::Bool.decode(&PgFormat::Binary, &[1]), Ok(Value::Bool(true)));
}

#[test]
fn types_decode_true() {
    assert_eq!(PgType::Bool.decode(&PgFormat::Text, b"true"), Ok(Value::Bool(true)));
}

#[test]
fn decode_false() {
    assert_eq!(PgType::Bool.decode(&PgFormat::Binary, &[0]), Ok(Value::Bool(false)));
}

#[test]
fn types_decode_false() {
    assert_eq!(PgType::Bool.decode(&PgFormat::Text, b"0"), Ok(Value::Bool(false)));
}

#[test]
fn error_decode_bool() {
    assert_eq!(
        PgType::Bool.decode(&PgFormat::Binary, &[]),
        Err(TypeValueDecodeError::from(TypeValueDecodeErrorKind::NotEnoughBytes {
            required_bytes: 1,
            source: &[],
            pg_type: PgType::Bool
        }))
    );
}

#[test]
fn types_error_decode_bool() {
    assert_eq!(
        PgType::Bool.decode(&PgFormat::Text, b"abc"),
        Err(TypeValueDecodeError::from(TypeValueDecodeErrorKind::CannotParseBool {
            source: "abc"
        }))
    );
}

#[test]
fn decode_char() {
    assert_eq!(
        PgType::Char.decode(&PgFormat::Binary, &[97, 98, 99]),
        Ok(Value::String("abc".into()))
    );
}

#[test]
fn types_decode_char() {
    assert_eq!(
        PgType::Char.decode(&PgFormat::Text, b"abc"),
        Ok(Value::String("abc".into()))
    );
}

#[test]
fn decode_varchar() {
    assert_eq!(
        PgType::VarChar.decode(&PgFormat::Binary, &[97, 98, 99]),
        Ok(Value::String("abc".into()))
    );
}

#[test]
fn types_decode_varchar() {
    assert_eq!(
        PgType::VarChar.decode(&PgFormat::Text, b"abc"),
        Ok(Value::String("abc".into()))
    );
}

#[test]
fn error_decode_string() {
    let non_utf_code = 0x96;
    assert_eq!(
        PgType::Char.decode(&PgFormat::Binary, &[non_utf_code]),
        Err(TypeValueDecodeError::from(
            TypeValueDecodeErrorKind::CannotDecodeString {
                cause: str::from_utf8(&[non_utf_code]).unwrap_err(),
                source: &[non_utf_code]
            }
        ))
    );
}

#[test]
fn types_error_decode_string() {
    let non_utf_code = 0x96;
    assert_eq!(
        PgType::Char.decode(&PgFormat::Text, &[non_utf_code]),
        Err(TypeValueDecodeError::from(
            TypeValueDecodeErrorKind::CannotDecodeString {
                cause: str::from_utf8(&[non_utf_code]).unwrap_err(),
                source: &[non_utf_code]
            }
        ))
    );
}

#[test]
fn decode_smallint() {
    assert_eq!(
        PgType::SmallInt.decode(&PgFormat::Binary, &[0, 0, 0, 1]),
        Ok(Value::Int16(1))
    );
}

#[test]
fn types_decode_smallint() {
    assert_eq!(PgType::SmallInt.decode(&PgFormat::Text, b"1"), Ok(Value::Int16(1)));
}

#[test]
fn error_decode_smallint() {
    assert_eq!(
        PgType::SmallInt.decode(&PgFormat::Binary, &[0, 0, 1]),
        Err(TypeValueDecodeError::from(TypeValueDecodeErrorKind::NotEnoughBytes {
            required_bytes: 4,
            source: &[0, 0, 1],
            pg_type: PgType::SmallInt
        }))
    );
}

#[test]
fn types_error_decode_smallint() {
    assert_eq!(
        PgType::SmallInt.decode(&PgFormat::Text, b"1.0"),
        Err(TypeValueDecodeError::from(TypeValueDecodeErrorKind::CannotParseInt {
            cause: i16::from_str("1.0").unwrap_err(),
            source: &"1.0",
            pg_type: PgType::SmallInt
        }))
    );
}

#[test]
fn decode_integer() {
    assert_eq!(
        PgType::Integer.decode(&PgFormat::Binary, &[0, 0, 0, 1]),
        Ok(Value::Int32(1))
    );
}

#[test]
fn types_decode_integer() {
    assert_eq!(PgType::Integer.decode(&PgFormat::Text, b"123"), Ok(Value::Int32(123)));
}

#[test]
fn error_decode_integer() {
    assert_eq!(
        PgType::Integer.decode(&PgFormat::Binary, &[0, 0, 1]),
        Err(TypeValueDecodeError::from(TypeValueDecodeErrorKind::NotEnoughBytes {
            required_bytes: 4,
            source: &[0, 0, 1],
            pg_type: PgType::Integer
        }))
    );
}

#[test]
fn types_error_decode_integer() {
    assert_eq!(
        PgType::Integer.decode(&PgFormat::Text, b"1.0"),
        Err(TypeValueDecodeError::from(TypeValueDecodeErrorKind::CannotParseInt {
            cause: i32::from_str("1.0").unwrap_err(),
            source: &"1.0",
            pg_type: PgType::Integer
        }))
    );
}

#[test]
fn decode_bigint() {
    assert_eq!(
        PgType::BigInt.decode(&PgFormat::Binary, &[0, 0, 0, 0, 0, 0, 0, 1]),
        Ok(Value::Int64(1))
    );
}

#[test]
fn types_decode_bigint() {
    assert_eq!(
        PgType::BigInt.decode(&PgFormat::Text, b"123456"),
        Ok(Value::Int64(123456))
    );
}

#[test]
fn error_decode_bigint() {
    assert_eq!(
        PgType::BigInt.decode(&PgFormat::Binary, &[0, 0, 1]),
        Err(TypeValueDecodeError::from(TypeValueDecodeErrorKind::NotEnoughBytes {
            required_bytes: 8,
            source: &[0, 0, 1],
            pg_type: PgType::BigInt
        }))
    );
}

#[test]
fn types_error_decode_bigint() {
    assert_eq!(
        PgType::BigInt.decode(&PgFormat::Text, b"1.0"),
        Err(TypeValueDecodeError::from(TypeValueDecodeErrorKind::CannotParseInt {
            cause: i64::from_str("1.0").unwrap_err(),
            source: &"1.0",
            pg_type: PgType::BigInt
        }))
    );
}

#[test]
fn every_type_is_found_by_its_oid() {
    let all = [
        PgType::Bool,
        PgType::Char,
        PgType::BigInt,
        PgType::SmallInt,
        PgType::Integer,
        PgType::VarChar,
    ];
    for pg_type in all.iter() {
        assert_eq!(PgType::from_oid(pg_type.type_oid()), Ok(Some(*pg_type)));
    }
    assert_eq!(PgType::from_oid(17), Err(NotSupportedOid(17)));
    assert_eq!(PgType::from_oid(u32::MAX), Err(NotSupportedOid(u32::MAX)));
}

#[test]
fn binary_integers_keep_their_sign() {
    assert_eq!(
        PgType::Integer.decode(&PgFormat::Binary, &[0xFF, 0xFF, 0xFF, 0xFE]),
        Ok(Value::Int32(-2))
    );
    assert_eq!(
        PgType::Integer.decode(&PgFormat::Binary, &[0x80, 0, 0, 0, 9]),
        Ok(Value::Int32(i32::MIN))
    );
    assert_eq!(
        PgType::BigInt.decode(&PgFormat::Binary, &[0x80, 0, 0, 0, 0, 0, 0, 0]),
        Ok(Value::Int64(i64::MIN))
    );
    assert_eq!(
        PgType::BigInt.decode(&PgFormat::Binary, &[0x7F, 0xFF, 0xFF, 0xFF, 0xFF, 0xFF, 0xFF, 0xFF]),
        Ok(Value::Int64(i64::MAX))
    );
    assert_eq!(
        PgType::BigInt.decode(&PgFormat::Binary, &[0xFF, 0xFF, 0xFF, 0xFF, 0xFF, 0xFF, 0xFF, 0xFD]),
        Ok(Value::Int64(-3))
    );
}

#[test]
fn binary_smallint_is_the_low_half_of_four_bytes() {
    assert_eq!(
        PgType::SmallInt.decode(&PgFormat::Binary, &[0xFF, 0xFF, 0xFF, 0xFF]),
        Ok(Value::Int16(-1))
    );
    assert_eq!(
        PgType::SmallInt.decode(&PgFormat::Binary, &[0, 1, 0x80, 0]),
        Ok(Value::Int16(i16::MIN))
    );
    assert_eq!(
        PgType::SmallInt.decode(&PgFormat::Binary, &[0x12, 0x34, 0x56, 0x78]),
        Ok(Value::Int16(0x5678))
    );
}

#[test]
fn binary_bool_is_true_for_every_byte_but_zero() {
    assert_eq!(PgType::Bool.decode(&PgFormat::Binary, &[2]), Ok(Value::Bool(true)));
    assert_eq!(PgType::Bool.decode(&PgFormat::Binary, &[255, 0]), Ok(Value::Bool(true)));
    assert_eq!(PgType::Bool.decode(&PgFormat::Binary, &[0, 1]), Ok(Value::Bool(false)));
}

#[test]
fn text_bool_knows_every_spelling() {
    for word in ["t", "tr", "tru", "true", "y", "ye", "yes", "on", "1"].iter() {
        assert_eq!(
            PgType::Bool.decode(&PgFormat::Text, word.as_bytes()),
            Ok(Value::Bool(true))
        );
    }
    for word in ["f", "fa", "fal", "fals", "false", "n", "no", "of", "off", "0"].iter() {
        assert_eq!(
            PgType::Bool.decode(&PgFormat::Text, word.as_bytes()),
            Ok(Value::Bool(false))
        );
    }
    assert!(PgType::Bool.decode(&PgFormat::Text, b"o").is_err());
    assert!(PgType::Bool.decode(&PgFormat::Text, b"").is_err());
    assert!(PgType::Bool.decode(&PgFormat::Text, b"truee").is_err());
}

#[test]
fn text_bool_is_trimmed_and_lowered() {
    assert_eq!(PgType::Bool.decode(&PgFormat::Text, b"  TRUE\n"), Ok(Value::Bool(true)));
    assert_eq!(PgType::Bool.decode(&PgFormat::Text, b"\tOfF "), Ok(Value::Bool(false)));
    assert_eq!(
        PgType::Bool.decode(&PgFormat::Text, b" t r "),
        Err(TypeValueDecodeError::from(TypeValueDecodeErrorKind::CannotParseBool {
            source: " t r "
        }))
    );
}

#[test]
fn text_integers_are_trimmed_and_signed() {
    assert_eq!(PgType::SmallInt.decode(&PgFormat::Text, b" -32768 "), Ok(Value::Int16(i16::MIN)));
    assert_eq!(PgType::SmallInt.decode(&PgFormat::Text, b"+32767"), Ok(Value::Int16(i16::MAX)));
    assert_eq!(PgType::Integer.decode(&PgFormat::Text, b"\n-2147483648"), Ok(Value::Int32(i32::MIN)));
    assert_eq!(PgType::Integer.decode(&PgFormat::Text, b"007"), Ok(Value::Int32(7)));
    assert_eq!(
        PgType::BigInt.decode(&PgFormat::Text, b"9223372036854775807"),
        Ok(Value::Int64(i64::MAX))
    );
    assert!(PgType::SmallInt.decode(&PgFormat::Text, b"32768").is_err());
    assert!(PgType::Integer.decode(&PgFormat::Text, b"2147483648").is_err());
    assert!(PgType::BigInt.decode(&PgFormat::Text, b"9223372036854775808").is_err());
    assert!(PgType::Integer.decode(&PgFormat::Text, b"").is_err());
    assert!(PgType::Integer.decode(&PgFormat::Text, b"-").is_err());
    assert!(PgType::Integer.decode(&PgFormat::Text, b"+").is_err());
    assert!(PgType::Integer.decode(&PgFormat::Text, b"1 2").is_err());
    assert!(PgType::Integer.decode(&PgFormat::Text, b"--1").is_err());
}

#[test]
fn text_strings_are_kept_as_they_are() {
    assert_eq!(
        PgType::VarChar.decode(&PgFormat::Text, "  \u{e9}t\u{e9} ".as_bytes()),
        Ok(Value::String("  \u{e9}t\u{e9} ".into()))
    );
    assert_eq!(PgType::Char.decode(&PgFormat::Binary, b""), Ok(Value::String("".into())));
}

#[test]
fn values_are_encoded_byte_for_byte() {
    assert_eq!(
        PgType::Bool.encode(&PgFormat::Binary, &Value::Bool(true)),
        Some(vec![1])
    );
    assert_eq!(
        PgType::Bool.encode(&PgFormat::Binary, &Value::Bool(false)),
        Some(vec![0])
    );
    assert_eq!(
        PgType::Bool.encode(&PgFormat::Text, &Value::Bool(true)),
        Some(b"t".to_vec())
    );
    assert_eq!(
        PgType::Bool.encode(&PgFormat::Text, &Value::Bool(false)),
        Some(b"f".to_vec())
    );
    assert_eq!(
        PgType::SmallInt.encode(&PgFormat::Binary, &Value::Int16(-2)),
        Some(vec![255, 255, 255, 254])
    );
    assert_eq!(
        PgType::Integer.encode(&PgFormat::Binary, &Value::Int32(0x0102_0304)),
        Some(vec![1, 2, 3, 4])
    );
    assert_eq!(
        PgType::BigInt.encode(&PgFormat::Binary, &Value::Int64(-2)),
        Some(vec![255, 255, 255, 255, 255, 255, 255, 254])
    );
    assert_eq!(
        PgType::BigInt.encode(&PgFormat::Binary, &Value::Int64(0x0102_0304_0506_0708)),
        Some(vec![1, 2, 3, 4, 5, 6, 7, 8])
    );
    assert_eq!(
        PgType::SmallInt.encode(&PgFormat::Text, &Value::Int16(-120)),
        Some(b"-120".to_vec())
    );
    assert_eq!(
        PgType::Integer.encode(&PgFormat::Text, &Value::Int32(0)),
        Some(b"0".to_vec())
    );
    assert_eq!(
        PgType::BigInt.encode(&PgFormat::Text, &Value::Int64(i64::MIN)),
        Some(b"-9223372036854775808".to_vec())
    );
    assert_eq!(
        PgType::VarChar.encode(&PgFormat::Text, &Value::String("\u{e9}".to_owned())),
        Some(vec![0xC3, 0xA9])
    );
    assert_eq!(
        PgType::Char.encode(&PgFormat::Binary, &Value::String("a".to_owned())),
        Some(vec![b'a'])
    );
}

#[test]
fn values_of_another_type_are_not_encoded() {
    assert_eq!(PgType::Bool.encode(&PgFormat::Binary, &Value::Int16(1)), None);
    assert_eq!(PgType::SmallInt.encode(&PgFormat::Binary, &Value::Int32(1)), None);
    assert_eq!(PgType::Integer.encode(&PgFormat::Text, &Value::Int64(1)), None);
    assert_eq!(PgType::BigInt.encode(&PgFormat::Text, &Value::Null), None);
    assert_eq!(PgType::VarChar.encode(&PgFormat::Text, &Value::Bool(true)), None);
    assert_eq!(
        PgType::Char.encode(&PgFormat::Binary, &Value::Null),
        None
    );
}

#[test]
fn what_is_encoded_is_decoded_to_the_same_value() {
    let formats = [PgFormat::Binary, PgFormat::Text];
    let cases = vec![
        (PgType::Bool, Value::Bool(true)),
        (PgType::Bool, Value::Bool(false)),
        (PgType::Char, Value::String("x".to_owned())),
        (PgType::VarChar, Value::String("".to_owned())),
        (PgType::VarChar, Value::String(" gr\u{fc}n \u{1F600}\n".to_owned())),
        (PgType::SmallInt, Value::Int16(i16::MIN)),
        (PgType::SmallInt, Value::Int16(i16::MAX)),
        (PgType::SmallInt, Value::Int16(0)),
        (PgType::Integer, Value::Int32(i32::MIN)),
        (PgType::Integer, Value::Int32(i32::MAX)),
        (PgType::Integer, Value::Int32(-1)),
        (PgType::BigInt, Value::Int64(i64::MIN)),
        (PgType::BigInt, Value::Int64(i64::MAX)),
        (PgType::BigInt, Value::Int64(1_000_000_007)),
    ];
    for format in formats.iter() {
        for (pg_type, value) in cases.iter() {
            let bytes = pg_type.encode(format, value).expect("a value of the type");
            assert_eq!(pg_type.decode(format, &bytes).as_ref(), Ok(value));
            let decoded = pg_type.decode(format, &bytes).expect("what was encoded");
            assert_eq!(pg_type.encode(format, &decoded), Some(bytes));
        }
    }
}

#[test]
fn decoding_errors_in_words() {
    assert_eq!(
        PgType::BigInt.decode(&PgFormat::Binary, &[0, 0, 1]).unwrap_err().to_string(),
        "bigint can not be decoded. Bytes required 8, buffer content [0, 0, 1]"
    );
    assert_eq!(
        PgType::Char.decode(&PgFormat::Binary, &[0x96]).unwrap_err().to_string(),
        "[150] is invalid UTF-8 string. The cause: \"invalid utf-8 sequence of 1 bytes from index 0\""
    );
    assert_eq!(
        PgType::Bool.decode(&PgFormat::Text, b"abc").unwrap_err().to_string(),
        "'abc' can not be parsed as boolean"
    );
    assert_eq!(
        PgType::SmallInt.decode(&PgFormat::Text, b"1.0").unwrap_err().to_string(),
        "'1.0' can not be parsed as smallint. The cause: \"invalid digit found in string\""
    );
}

fn has_white_space_property(c: char) -> bool {
    matches!(
        c,
        '\u{9}'..='\u{d}'
            | ' '
            | '\u{85}'
            | '\u{a0}'
            | '\u{1680}'
            | '\u{2000}'..='\u{200a}'
            | '\u{2028}'
            | '\u{2029}'
            | '\u{202f}'
            | '\u{205f}'
            | '\u{3000}'
    )
}

#[test]
fn white_space_is_trimmed_and_nothing_else() {
    for code in 0..=0x10FFFFu32 {
        let c = match char::from_u32(code) {
            Some(c) => c,
            None => continue,
        };
        if c.is_ascii_digit() || c == '+' || c == '-' {
            continue;
        }
        assert_eq!(has_white_space_property(c), c.is_whitespace());
        let text = format!("{}7{}", c, c);
        let decoded = PgType::Integer.decode(&PgFormat::Text, text.as_bytes());
        if has_white_space_property(c) {
            assert_eq!(decoded, Ok(Value::Int32(7)));
        } else {
            assert!(decoded.is_err());
        }
    }
}

#[test]
fn white_space_beyond_ascii_is_trimmed() {
    assert_eq!(
        PgType::SmallInt.decode(&PgFormat::Text, "\u{3000}\u{85}-12\u{a0}\u{2028}".as_bytes()),
        Ok(Value::Int16(-12))
    );
    assert_eq!(
        PgType::Bool.decode(&PgFormat::Text, "\u{2003}Yes\u{205f}".as_bytes()),
        Ok(Value::Bool(true))
    );
    assert!(PgType::Integer.decode(&PgFormat::Text, "\u{200b}5".as_bytes()).is_err());
    assert!(PgType::Integer.decode(&PgFormat::Text, "5\u{180e}".as_bytes()).is_err());
    assert!(PgType::Integer.decode(&PgFormat::Text, "\u{1c}5".as_bytes()).is_err());
    assert!(PgType::Bool.decode(&PgFormat::Text, "\u{feff}t".as_bytes()).is_err());
    assert_eq!(PgType::Integer.decode(&PgFormat::Text, b"  \t\n "), {
        let parsed: Result<i32, _> = "".parse::<i32>();
        Err(TypeValueDecodeError::from(TypeValueDecodeErrorKind::CannotParseInt {
            cause: parsed.unwrap_err(),
            source: "  \t\n ",
            pg_type: PgType::Integer,
        }))
    });
}

#[test]
fn booleans_are_read_in_either_case() {
    for word in ["T", "Tr", "TRUE", "tRuE", "Y", "YES", "On", "ON"].iter() {
        assert_eq!(
            PgType::Bool.decode(&PgFormat::Text, word.as_bytes()),
            Ok(Value::Bool(true))
        );
    }
    for word in ["F", "FALSE", "fAlS", "N", "No", "OF", "Off"].iter() {
        assert_eq!(
            PgType::Bool.decode(&PgFormat::Text, word.as_bytes()),
            Ok(Value::Bool(false))
        );
    }
    assert!(PgType::Bool.decode(&PgFormat::Text, "\u{212a}".as_bytes()).is_err());
}

#[test]
fn text_of_a_value_is_read_back_at_the_extremes() {
    assert_eq!(PgType::Bool.decode(&PgFormat::Text, b"t"), Ok(Value::Bool(true)));
    assert_eq!(PgType::Bool.decode(&PgFormat::Text, b"f"), Ok(Value::Bool(false)));
    assert_eq!(
        PgType::SmallInt.decode(&PgFormat::Text, i16::MIN.to_string().as_bytes()),
        Ok(Value::Int16(i16::MIN))
    );
    assert_eq!(
        PgType::Integer.decode(&PgFormat::Text, i32::MIN.to_string().as_bytes()),
        Ok(Value::Int32(i32::MIN))
    );
    assert_eq!(
        PgType::BigInt.decode(&PgFormat::Text, i64::MIN.to_string().as_bytes()),
        Ok(Value::Int64(i64::MIN))
    );
    assert_eq!(
        PgType::BigInt.decode(&PgFormat::Text, i64::MAX.to_string().as_bytes()),
        Ok(Value::Int64(i64::MAX))
    );
    assert_eq!(
        PgType::VarChar.decode(&PgFormat::Text, b""),
        Ok(Value::String("".to_owned()))
    );
    for value in [i16::MIN, -1, 0, 1, i16::MAX].iter() {
        let bytes = PgType::SmallInt.encode(&PgFormat::Text, &Value::Int16(*value)).unwrap();
        assert_eq!(bytes, value.to_string().as_bytes());
    }
}
