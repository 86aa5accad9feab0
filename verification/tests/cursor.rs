use pg_wire::cursor::Cursor;
use pg_wire::errors::{PayloadError, PayloadErrorKind};
use std::str;

#[test]
fn ok_read_byte() {
    let buffer = vec![1];
    let mut cursor = Cursor::from(buffer.as_slice());
    assert_eq!(cursor.read_byte(), Ok(1));
}

#[test]
fn error_read_byte() {
    let buffer = vec![];
    let mut cursor = Cursor::from(buffer.as_slice());
    assert_eq!(
        cursor.read_byte(),
        Err(PayloadError::from(PayloadErrorKind::EndOfBuffer))
    );
}

#[test]
fn ok_read_cstr() {
    let buffer = b"some string\0".to_vec();
    let mut cursor = Cursor::from(buffer.as_slice());
    assert_eq!(cursor.read_cstr(), Ok("some string"));
}

#[test]
fn error_read_cstr() {
    let buffer = b"some string".to_vec();
    let mut cursor = Cursor::from(buffer.as_slice());
    assert_eq!(
        cursor.read_cstr(),
        Err(PayloadError::from(PayloadErrorKind::CStringNotTerminated {
            source: buffer.to_vec()
        }))
    );
}

#[test]
fn invalid_utf_read_cstr() {
    let invalid_utf_byte = 0x96;
    let mut buffer = b"some string".to_vec();
    buffer.push(invalid_utf_byte);
    buffer.push(0);
    let mut cursor = Cursor::from(buffer.as_slice());
    assert_eq!(
        cursor.read_cstr(),
        Err(PayloadError::from(PayloadErrorKind::InvalidUtfString {
            cause: str::from_utf8(&buffer).unwrap_err(),
            source: buffer[..buffer.len() - 1].to_vec()
        }))
    );
}

#[test]
fn ok_read_i16() {
    let buffer = 123i16.to_be_bytes().to_vec();
    let mut cursor = Cursor::from(buffer.as_slice());
    assert_eq!(cursor.read_i16(), Ok(123));
}

#[test]
fn error_read_i16() {
    let buffer = 123i8.to_be_bytes().to_vec();
    let mut cursor = Cursor::from(buffer.as_slice());
    assert_eq!(
        cursor.read_i16(),
        Err(PayloadError::from(PayloadErrorKind::NotEnoughBytes {
            required: 2,
            source: buffer.to_vec()
        }))
    );
}

#[test]
fn ok_read_i32() {
    let buffer = 123i32.to_be_bytes().to_vec();
    let mut cursor = Cursor::from(buffer.as_slice());
    assert_eq!(cursor.read_i32(), Ok(123));
}

#[test]
fn error_read_i32() {
    let buffer = 123i16.to_be_bytes().to_vec();
    let mut cursor = Cursor::from(buffer.as_slice());
    assert_eq!(
        cursor.read_i32(),
        Err(PayloadError::from(PayloadErrorKind::NotEnoughBytes {
            required: 4,
            source: buffer.to_vec()
        }))
    );
}

#[test]
fn ok_read_u32() {
    let buffer = 123u32.to_be_bytes().to_vec();
    let mut cursor = Cursor::from(buffer.as_slice());
    assert_eq!(cursor.read_u32(), Ok(123));
}

#[test]
fn error_read_u32() {
    let buffer = 123i16.to_be_bytes().to_vec();
    let mut cursor = Cursor::from(buffer.as_slice());
    assert_eq!(
        cursor.read_u32(),
        Err(PayloadError::from(PayloadErrorKind::NotEnoughBytes {
            required: 4,
            source: buffer.to_vec()
        }))
    );
}

#[test]
fn cursor_moves_past_what_it_reads() {
    let buffer = [7u8, 0xFF, 0xFE, 0x80, 0, 0, 0, 0xFF, 0xFF, 0xFF, 0xFF, b'a', 0, 9];
    let mut cursor = Cursor::new(&buffer);
    assert_eq!(cursor.remaining(), 14);
    assert_eq!(cursor.read_byte(), Ok(7));
    assert_eq!(cursor.read_i16(), Ok(-2));
    assert_eq!(cursor.read_i32(), Ok(i32::MIN));
    assert_eq!(cursor.read_u32(), Ok(u32::MAX));
    assert_eq!(cursor.read_cstr(), Ok("a"));
    assert_eq!(cursor.remaining(), 1);
    assert_eq!(cursor.read_bytes(1), Ok(&[9u8][..]));
    assert_eq!(cursor.remaining(), 0);
}

#[test]
fn cursor_stays_where_a_read_fails() {
    let buffer = [1u8, 2, 3];
    let mut cursor = Cursor::new(&buffer);
    assert!(cursor.read_i32().is_err());
    assert!(cursor.read_cstr().is_err());
    assert_eq!(cursor.remaining(), 3);
    assert_eq!(
        cursor.read_bytes(4),
        Err(PayloadError::from(PayloadErrorKind::EndOfBuffer))
    );
    assert_eq!(cursor.read_bytes(0), Ok(&[][..]));
    assert_eq!(cursor.read_i16(), Ok(0x0102));
}

#[test]
fn read_cstr_stops_at_the_first_zero() {
    let buffer = b"\0rest\0".to_vec();
    let mut cursor = Cursor::new(&buffer);
    assert_eq!(cursor.read_cstr(), Ok(""));
    assert_eq!(cursor.read_cstr(), Ok("rest"));
    assert_eq!(cursor.remaining(), 0);
}

#[test]
fn read_cstr_reads_text_of_several_bytes_a_character() {
    let buffer = "gr\u{fc}\u{df}e \u{1F600}\0".as_bytes().to_vec();
    let mut cursor = Cursor::new(&buffer);
    assert_eq!(cursor.read_cstr(), Ok("gr\u{fc}\u{df}e \u{1F600}"));
}

#[test]
fn ok_read_i64() {
    let buffer = (-123_456_789_012i64).to_be_bytes().to_vec();
    let mut cursor = Cursor::new(&buffer);
    assert_eq!(cursor.read_i64(), Ok(-123_456_789_012));
    assert_eq!(cursor.remaining(), 0);
}

#[test]
fn error_read_i64() {
    let buffer = 123i32.to_be_bytes().to_vec();
    let mut cursor = Cursor::new(&buffer);
    assert_eq!(
        cursor.read_i64(),
        Err(PayloadError::from(PayloadErrorKind::NotEnoughBytes {
            required: 8,
            source: buffer.to_vec()
        }))
    );
    assert_eq!(cursor.remaining(), 4);
}
