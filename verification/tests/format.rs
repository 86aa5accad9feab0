use pg_wire::{PgFormat, UnrecognizedFormat};
use std::convert::TryFrom;

#[test]
fn unrecognized_format() {
    assert_eq!(PgFormat::try_from(2), Err(UnrecognizedFormat(2)));
}

#[test]
fn format_codes_name_their_formats() {
    assert_eq!(PgFormat::try_from(0), Ok(PgFormat::Text));
    assert_eq!(PgFormat::try_from(1), Ok(PgFormat::Binary));
    assert_eq!(PgFormat::try_from(-1), Err(UnrecognizedFormat(-1)));
    assert_eq!(PgFormat::try_from(i16::MAX), Err(UnrecognizedFormat(i16::MAX)));
}

#[test]
fn unrecognized_format_in_words() {
    assert_eq!(UnrecognizedFormat(-7).to_string(), "unknown format code: -7");
    assert_eq!(UnrecognizedFormat(i16::MIN).to_string(), "unknown format code: -32768");
}
