//! The supported data types and the values they hold on the wire.

use crate::cursor::str_from_utf8;
use crate::errors::{
    DecodeFault, NotSupportedOid, TypeValueDecodeError, TypeValueDecodeErrorKind,
};
use crate::format::PgFormat;
use crate::text::{
    decimal_value, lowercase_of, lowercased, parse_i16, parse_i32, parse_i64, text_is, trim_of,
    trimmed,
};
use crate::text::{integer_string, integer_text};
use crate::wire::{
    be_bytes4, be_bytes8, be_i32, be_i64, i16_from_be, i32_from_be, i64_from_be, low_i16, push_bytes,
    push_i32, push_i64,
};
use vstd::prelude::*;
use vstd::string::StringExecFns;
use vstd::utf8::{decode_utf8, encode_utf8, valid_utf8};

verus! {

/// A PostgreSQL object identifier.
pub type Oid = u32;

/// A PostgreSQL data type that can be sent over the wire.
#[derive(Debug, PartialEq, Eq, Structural, Clone, Copy)]
pub enum PgType {
    /// `smallint` (or `int2`).
    SmallInt,
    /// `integer` (or `int` or `int4`).
    Integer,
    /// `bigint` (or `int8`).
    BigInt,
    /// `character(n)` (or `char(n)`).
    Char,
    /// `character varying(n)` (or `varchar(n)`).
    VarChar,
    /// `boolean`.
    Bool,
}

/// The model of a [`Value`]: a string is the sequence of its characters.
pub enum ValueModel {
    Null,
    Bool(bool),
    Int16(i16),
    Int32(i32),
    Int64(i64),
    String(Seq<char>),
}

/// A value sent or received over the wire.
#[derive(Debug, PartialEq)]
pub enum Value {
    Null,
    Bool(bool),
    Int16(i16),
    Int32(i32),
    Int64(i64),
    /// Always UTF-8.
    String(String),
}

impl View for Value {
    type V = ValueModel;

    open spec fn view(&self) -> ValueModel {
        match self {
            Value::Null => ValueModel::Null,
            Value::Bool(value) => ValueModel::Bool(*value),
            Value::Int16(value) => ValueModel::Int16(*value),
            Value::Int32(value) => ValueModel::Int32(*value),
            Value::Int64(value) => ValueModel::Int64(*value),
            Value::String(value) => ValueModel::String(value@),
        }
    }
}

/// Whether `text` is one of the spellings of `true`.
pub open spec fn is_truthy(text: Seq<char>) -> bool {
    text == "t"@ || text == "tr"@ || text == "tru"@ || text == "true"@ || text == "y"@ || text
        == "ye"@ || text == "yes"@ || text == "on"@ || text == "1"@
}

/// Whether `text` is one of the spellings of `false`.
pub open spec fn is_falsy(text: Seq<char>) -> bool {
    text == "f"@ || text == "fa"@ || text == "fal"@ || text == "fals"@ || text == "false"@ || text
        == "n"@ || text == "no"@ || text == "of"@ || text == "off"@ || text == "0"@
}

/// The boolean that `word` spells, if it spells one.
pub open spec fn bool_of_word(word: Seq<char>) -> Option<bool> {
    if is_truthy(word) {
        Some(true)
    } else if is_falsy(word) {
        Some(false)
    } else {
        None
    }
}

/// The value that `raw` holds in the binary format.
pub open spec fn decode_binary_spec(pg_type: PgType, raw: Seq<u8>) -> Result<
    ValueModel,
    DecodeFault,
> {
    match pg_type {
        PgType::Bool => if raw.len() == 0 {
            Err(DecodeFault::NotEnoughBytes { required_bytes: 1, source: raw, pg_type })
        } else {
            Ok(ValueModel::Bool(raw[0] != 0))
        },
        PgType::Char | PgType::VarChar => if valid_utf8(raw) {
            Ok(ValueModel::String(decode_utf8(raw)))
        } else {
            Err(DecodeFault::CannotDecodeString { source: raw })
        },
        PgType::SmallInt => if raw.len() < 4 {
            Err(DecodeFault::NotEnoughBytes { required_bytes: 4, source: raw, pg_type })
        } else {
            Ok(ValueModel::Int16(low_i16(be_i32(raw)) as i16))
        },
        PgType::Integer => if raw.len() < 4 {
            Err(DecodeFault::NotEnoughBytes { required_bytes: 4, source: raw, pg_type })
        } else {
            Ok(ValueModel::Int32(be_i32(raw) as i32))
        },
        PgType::BigInt => if raw.len() < 8 {
            Err(DecodeFault::NotEnoughBytes { required_bytes: 8, source: raw, pg_type })
        } else {
            Ok(ValueModel::Int64(be_i64(raw) as i64))
        },
    }
}

/// The value that the text `source` writes. A boolean is one of the
/// spellings of `true` or `false` between white space: a word that is
/// spelled in lower case is read as it stands, any other is put in lower
/// case first. An integer is its decimal text between white space.
pub open spec fn decode_text_of(pg_type: PgType, source: Seq<char>) -> Result<
    ValueModel,
    DecodeFault,
> {
    match pg_type {
        PgType::Bool => match bool_of_word(trim_of(source)) {
            Some(value) => Ok(ValueModel::Bool(value)),
            None => match bool_of_word(lowercase_of(trim_of(source))) {
                Some(value) => Ok(ValueModel::Bool(value)),
                None => Err(DecodeFault::CannotParseBool { source }),
            },
        },
        PgType::Char | PgType::VarChar => Ok(ValueModel::String(source)),
        PgType::SmallInt => match decimal_value(
            trim_of(source),
            i16::MIN as int,
            i16::MAX as int,
        ) {
            Some(value) => Ok(ValueModel::Int16(value as i16)),
            None => Err(DecodeFault::CannotParseInt { source, pg_type }),
        },
        PgType::Integer => match decimal_value(
            trim_of(source),
            i32::MIN as int,
            i32::MAX as int,
        ) {
            Some(value) => Ok(ValueModel::Int32(value as i32)),
            None => Err(DecodeFault::CannotParseInt { source, pg_type }),
        },
        PgType::BigInt => match decimal_value(
            trim_of(source),
            i64::MIN as int,
            i64::MAX as int,
        ) {
            Some(value) => Ok(ValueModel::Int64(value as i64)),
            None => Err(DecodeFault::CannotParseInt { source, pg_type }),
        },
    }
}

/// The value that `raw` holds in the text format: the bytes are UTF-8, and
/// the text they hold writes the value.
pub open spec fn decode_text_spec(pg_type: PgType, raw: Seq<u8>) -> Result<
    ValueModel,
    DecodeFault,
> {
    if valid_utf8(raw) {
        decode_text_of(pg_type, decode_utf8(raw))
    } else {
        Err(DecodeFault::CannotDecodeString { source: raw })
    }
}

/// The value of type `pg_type` that `raw` holds in `format`.
pub open spec fn decode_spec(pg_type: PgType, format: PgFormat, raw: Seq<u8>) -> Result<
    ValueModel,
    DecodeFault,
> {
    match format {
        PgFormat::Binary => decode_binary_spec(pg_type, raw),
        PgFormat::Text => decode_text_spec(pg_type, raw),
    }
}

/// Every type is found again by its object identifier, and has the length
/// that the protocol gives it.
pub proof fn lemma_oid_names_its_type(pg_type: PgType)
    ensures
        PgType::of_oid(pg_type.oid_spec()) == Ok::<Option<PgType>, NotSupportedOid>(Some(pg_type)),
        pg_type.oid_spec() != 0,
        pg_type.len_spec() == match pg_type {
            PgType::Bool => 1i16,
            PgType::Char => 1i16,
            PgType::BigInt => 8i16,
            PgType::SmallInt => 2i16,
            PgType::Integer => 4i16,
            PgType::VarChar => -1i16,
        },
{
}

/// The bytes that hold `value` as a `pg_type` in `format`, where the value
/// is of the type. In binary a boolean is one byte, a string is its UTF-8
/// and an integer is big-endian, a `smallint` widened to four bytes; in text
/// a boolean is `t` or `f` and an integer is written in decimal.
pub open spec fn encode_spec(pg_type: PgType, format: PgFormat, value: ValueModel) -> Option<
    Seq<u8>,
> {
    match (pg_type, value) {
        (PgType::Bool, ValueModel::Bool(value)) => Some(
            match format {
                PgFormat::Binary => seq![
                    if value {
                        1u8
                    } else {
                        0u8
                    },
                ],
                PgFormat::Text => encode_utf8(
                    if value {
                        "t"@
                    } else {
                        "f"@
                    },
                ),
            },
        ),
        (PgType::Char, ValueModel::String(value)) => Some(encode_utf8(value)),
        (PgType::VarChar, ValueModel::String(value)) => Some(encode_utf8(value)),
        (PgType::SmallInt, ValueModel::Int16(value)) => Some(
            match format {
                PgFormat::Binary => be_bytes4(value as int),
                PgFormat::Text => encode_utf8(integer_text(value as int)),
            },
        ),
        (PgType::Integer, ValueModel::Int32(value)) => Some(
            match format {
                PgFormat::Binary => be_bytes4(value as int),
                PgFormat::Text => encode_utf8(integer_text(value as int)),
            },
        ),
        (PgType::BigInt, ValueModel::Int64(value)) => Some(
            match format {
                PgFormat::Binary => be_bytes8(value as int),
                PgFormat::Text => encode_utf8(integer_text(value as int)),
            },
        ),
        _ => None,
    }
}

/// What is encoded in binary is decoded to the value it was: for every
/// type and every value of the type.
pub proof fn lemma_binary_round_trip(pg_type: PgType, value: ValueModel)
    requires
        encode_spec(pg_type, PgFormat::Binary, value) is Some,
    ensures
        decode_spec(pg_type, PgFormat::Binary, encode_spec(pg_type, PgFormat::Binary, value)->0)
            == Ok::<ValueModel, DecodeFault>(value),
{
    let bytes = encode_spec(pg_type, PgFormat::Binary, value)->0;
    match (pg_type, value) {
        (PgType::Char, ValueModel::String(text)) => {
            crate::cursor::lemma_text_of_bytes(text, bytes);
        },
        (PgType::VarChar, ValueModel::String(text)) => {
            crate::cursor::lemma_text_of_bytes(text, bytes);
        },
        (PgType::SmallInt, ValueModel::Int16(number)) => {
            crate::wire::lemma_i32_round_trip(number as int);
        },
        (PgType::Integer, ValueModel::Int32(number)) => {
            crate::wire::lemma_i32_round_trip(number as int);
        },
        (PgType::BigInt, ValueModel::Int64(number)) => {
            crate::wire::lemma_i64_round_trip(number as int);
        },
        _ => {},
    }
}

/// A string that is encoded as text is decoded to the string it was.
pub proof fn lemma_text_round_trip_of_strings(pg_type: PgType, text: Seq<char>)
    requires
        pg_type == PgType::Char || pg_type == PgType::VarChar,
    ensures
        encode_spec(pg_type, PgFormat::Text, ValueModel::String(text)) is Some,
        decode_spec(
            pg_type,
            PgFormat::Text,
            encode_spec(pg_type, PgFormat::Text, ValueModel::String(text))->0,
        ) == Ok::<ValueModel, DecodeFault>(ValueModel::String(text)),
{
    crate::cursor::lemma_text_of_bytes(text, encode_utf8(text));
}

/// An integer that is encoded as text is decoded to the integer it was.
pub proof fn lemma_text_round_trip_of_integers(pg_type: PgType, value: ValueModel)
    requires
        pg_type == PgType::SmallInt || pg_type == PgType::Integer || pg_type == PgType::BigInt,
        encode_spec(pg_type, PgFormat::Text, value) is Some,
    ensures
        decode_spec(pg_type, PgFormat::Text, encode_spec(pg_type, PgFormat::Text, value)->0)
            == Ok::<ValueModel, DecodeFault>(value),
{
    match value {
        ValueModel::Int16(number) => {
            crate::cursor::lemma_text_of_bytes(
                integer_text(number as int),
                encode_utf8(integer_text(number as int)),
            );
            crate::text::lemma_trim_keeps_integer_text(number as int);
            crate::text::lemma_decimal_round_trip(number as int, i16::MIN as int, i16::MAX as int);
        },
        ValueModel::Int32(number) => {
            crate::cursor::lemma_text_of_bytes(
                integer_text(number as int),
                encode_utf8(integer_text(number as int)),
            );
            crate::text::lemma_trim_keeps_integer_text(number as int);
            crate::text::lemma_decimal_round_trip(number as int, i32::MIN as int, i32::MAX as int);
        },
        ValueModel::Int64(number) => {
            crate::cursor::lemma_text_of_bytes(
                integer_text(number as int),
                encode_utf8(integer_text(number as int)),
            );
            crate::text::lemma_trim_keeps_integer_text(number as int);
            crate::text::lemma_decimal_round_trip(number as int, i64::MIN as int, i64::MAX as int);
        },
        _ => {},
    }
}

/// A boolean that is encoded as text is decoded to the boolean it was.
pub proof fn lemma_text_round_trip_of_booleans(value: bool)
    ensures
        encode_spec(PgType::Bool, PgFormat::Text, ValueModel::Bool(value)) is Some,
        decode_spec(
            PgType::Bool,
            PgFormat::Text,
            encode_spec(PgType::Bool, PgFormat::Text, ValueModel::Bool(value))->0,
        ) == Ok::<ValueModel, DecodeFault>(ValueModel::Bool(value)),
{
    let word = if value {
        "t"@
    } else {
        "f"@
    };
    crate::cursor::lemma_text_of_bytes(word, encode_utf8(word));
    reveal_strlit("t");
    reveal_strlit("tr");
    reveal_strlit("tru");
    reveal_strlit("true");
    reveal_strlit("y");
    reveal_strlit("ye");
    reveal_strlit("yes");
    reveal_strlit("on");
    reveal_strlit("1");
    reveal_strlit("f");
    assert(!crate::text::is_white_space(word[0]));
    assert(crate::text::trim_start_of(word) == word);
    assert(trim_of(word) == word);
}

/// What is encoded is decoded to the value it was: for every type, in
/// either format, and for every value of the type.
pub proof fn lemma_round_trip(pg_type: PgType, format: PgFormat, value: ValueModel)
    requires
        encode_spec(pg_type, format, value) is Some,
    ensures
        decode_spec(pg_type, format, encode_spec(pg_type, format, value)->0) == Ok::<
            ValueModel,
            DecodeFault,
        >(value),
{
    match format {
        PgFormat::Binary => {
            lemma_binary_round_trip(pg_type, value);
        },
        PgFormat::Text => {
            match (pg_type, value) {
                (PgType::Bool, ValueModel::Bool(truth)) => {
                    lemma_text_round_trip_of_booleans(truth);
                },
                (PgType::Char, ValueModel::String(text)) => {
                    lemma_text_round_trip_of_strings(pg_type, text);
                },
                (PgType::VarChar, ValueModel::String(text)) => {
                    lemma_text_round_trip_of_strings(pg_type, text);
                },
                _ => {
                    lemma_text_round_trip_of_integers(pg_type, value);
                },
            }
        },
    }
}

/// The low sixteen bits of a big-endian `i32` are its last two bytes.
pub proof fn lemma_low_i16_of_be_i32(raw: Seq<u8>)
    requires
        raw.len() >= 4,
    ensures
        low_i16(be_i32(raw)) == crate::wire::be_i16(seq![raw[2], raw[3]]),
{
    let pattern = crate::wire::be_u32(raw);
    let high = raw[0] * 0x100 + raw[1];
    let low = raw[2] * 0x100 + raw[3];
    assert(pattern == high * 0x1_0000 + low);
    assert(pattern % 0x1_0000 == low);
    assert((pattern - 0x1_0000_0000) % 0x1_0000 == low);
}

impl PgType {
    /// The object identifier of each type.
    pub open spec fn oid_spec(self) -> Oid {
        match self {
            PgType::Bool => 16,
            PgType::Char => 18,
            PgType::BigInt => 20,
            PgType::SmallInt => 21,
            PgType::Integer => 23,
            PgType::VarChar => 1043,
        }
    }

    /// The length in bytes of each type on the wire, `-1` where it varies.
    pub open spec fn len_spec(self) -> i16 {
        match self {
            PgType::Bool => 1,
            PgType::Char => 1,
            PgType::BigInt => 8,
            PgType::SmallInt => 2,
            PgType::Integer => 4,
            PgType::VarChar => -1i16,
        }
    }

    /// The type that `oid` names: none for `0`, which leaves the type
    /// unspecified, and an error for an identifier of no supported type.
    pub open spec fn of_oid(oid: Oid) -> Result<Option<PgType>, NotSupportedOid> {
        if oid == 0 {
            Ok(None)
        } else if oid == 16 {
            Ok(Some(PgType::Bool))
        } else if oid == 18 {
            Ok(Some(PgType::Char))
        } else if oid == 20 {
            Ok(Some(PgType::BigInt))
        } else if oid == 21 {
            Ok(Some(PgType::SmallInt))
        } else if oid == 23 {
            Ok(Some(PgType::Integer))
        } else if oid == 1043 {
            Ok(Some(PgType::VarChar))
        } else {
            Err(NotSupportedOid(oid))
        }
    }

    /// The name of each type in SQL.
    pub open spec fn name_spec(self) -> Seq<char> {
        match self {
            PgType::Bool => "boolean"@,
            PgType::Char => "character"@,
            PgType::BigInt => "bigint"@,
            PgType::SmallInt => "smallint"@,
            PgType::Integer => "integer"@,
            PgType::VarChar => "variable character"@,
        }
    }

    /// The object identifier of this type.
    pub fn type_oid(&self) -> (oid: Oid)
        ensures
            oid == self.oid_spec(),
            PgType::of_oid(oid) == Ok::<Option<PgType>, NotSupportedOid>(Some(*self)),
    {
        match self {
            PgType::Bool => 16,
            PgType::Char => 18,
            PgType::BigInt => 20,
            PgType::SmallInt => 21,
            PgType::Integer => 23,
            PgType::VarChar => 1043,
        }
    }

    /// The length of this type on the wire, `-1` where it varies.
    pub fn type_len(&self) -> (len: i16)
        ensures
            len == self.len_spec(),
    {
        match self {
            PgType::Bool => 1,
            PgType::Char => 1,
            PgType::BigInt => 8,
            PgType::SmallInt => 2,
            PgType::Integer => 4,
            PgType::VarChar => -1i16,
        }
    }

    /// The type that `oid` names, if it names one.
    pub fn from_oid(oid: Oid) -> (result: Result<Option<PgType>, NotSupportedOid>)
        ensures
            result == PgType::of_oid(oid),
    {
        if oid == 0 {
            Ok(None)
        } else if oid == 16 {
            Ok(Some(PgType::Bool))
        } else if oid == 18 {
            Ok(Some(PgType::Char))
        } else if oid == 20 {
            Ok(Some(PgType::BigInt))
        } else if oid == 21 {
            Ok(Some(PgType::SmallInt))
        } else if oid == 23 {
            Ok(Some(PgType::Integer))
        } else if oid == 1043 {
            Ok(Some(PgType::VarChar))
        } else {
            Err(NotSupportedOid(oid))
        }
    }

    /// The name of this type in SQL.
    pub fn to_string(&self) -> (name: String)
        ensures
            name@ == self.name_spec(),
    {
        match self {
            PgType::Bool => String::from_str("boolean"),
            PgType::Char => String::from_str("character"),
            PgType::BigInt => String::from_str("bigint"),
            PgType::SmallInt => String::from_str("smallint"),
            PgType::Integer => String::from_str("integer"),
            PgType::VarChar => String::from_str("variable character"),
        }
    }

    /// Writes `value` as a value of this type in `format`; nothing where
    /// the value is not of this type.
    pub fn encode(&self, format: &PgFormat, value: &Value) -> (result: Option<Vec<u8>>)
        ensures
            match encode_spec(*self, *format, value@) {
                Some(bytes) => result matches Some(encoded) && encoded@ == bytes,
                None => result is None,
            },
    {
        let mut bytes: Vec<u8> = Vec::new();
        match (self, value) {
            (PgType::Bool, Value::Bool(value)) => {
                match format {
                    PgFormat::Binary => {
                        bytes.push(
                            if *value {
                                1
                            } else {
                                0
                            },
                        );
                        assert(bytes@ =~= seq![
                            if *value {
                                1u8
                            } else {
                                0u8
                            },
                        ]);
                    },
                    PgFormat::Text => {
                        let word: &str = if *value {
                            "t"
                        } else {
                            "f"
                        };
                        push_bytes(&mut bytes, word.as_bytes());
                        assert(bytes@ =~= encode_utf8(word@));
                    },
                }
                Some(bytes)
            },
            (PgType::Char, Value::String(value)) => {
                push_bytes(&mut bytes, value.as_str().as_bytes());
                assert(bytes@ =~= encode_utf8(value@));
                Some(bytes)
            },
            (PgType::VarChar, Value::String(value)) => {
                push_bytes(&mut bytes, value.as_str().as_bytes());
                assert(bytes@ =~= encode_utf8(value@));
                Some(bytes)
            },
            (PgType::SmallInt, Value::Int16(value)) => {
                match format {
                    PgFormat::Binary => {
                        push_i32(&mut bytes, *value as i32);
                        assert(bytes@ =~= be_bytes4(*value as int));
                    },
                    PgFormat::Text => {
                        let text = integer_string(*value as i64);
                        push_bytes(&mut bytes, text.as_str().as_bytes());
                        assert(bytes@ =~= encode_utf8(integer_text(*value as int)));
                    },
                }
                Some(bytes)
            },
            (PgType::Integer, Value::Int32(value)) => {
                match format {
                    PgFormat::Binary => {
                        push_i32(&mut bytes, *value);
                        assert(bytes@ =~= be_bytes4(*value as int));
                    },
                    PgFormat::Text => {
                        let text = integer_string(*value as i64);
                        push_bytes(&mut bytes, text.as_str().as_bytes());
                        assert(bytes@ =~= encode_utf8(integer_text(*value as int)));
                    },
                }
                Some(bytes)
            },
            (PgType::BigInt, Value::Int64(value)) => {
                match format {
                    PgFormat::Binary => {
                        push_i64(&mut bytes, *value);
                        assert(bytes@ =~= be_bytes8(*value as int));
                    },
                    PgFormat::Text => {
                        let text = integer_string(*value);
                        push_bytes(&mut bytes, text.as_str().as_bytes());
                        assert(bytes@ =~= encode_utf8(integer_text(*value as int)));
                    },
                }
                Some(bytes)
            },
            _ => None,
        }
    }

    /// Reads a value of this type from `raw`, which holds it in `format`.
    pub fn decode<'d>(&self, format: &PgFormat, raw: &'d [u8]) -> (result: Result<
        Value,
        TypeValueDecodeError<'d>,
    >)
        ensures
            match decode_spec(*self, *format, raw@) {
                Ok(value) => result matches Ok(decoded) && decoded@ == value,
                Err(fault) => result matches Err(error) && error@ == fault,
            },
    {
        match format {
            PgFormat::Binary => match self.decode_binary(raw) {
                Ok(value) => Ok(value),
                Err(kind) => Err(TypeValueDecodeError { kind }),
            },
            PgFormat::Text => match self.decode_text(raw) {
                Ok(value) => Ok(value),
                Err(kind) => Err(TypeValueDecodeError { kind }),
            },
        }
    }

    fn decode_binary<'d>(&self, raw: &'d [u8]) -> (result: Result<
        Value,
        TypeValueDecodeErrorKind<'d>,
    >)
        ensures
            match decode_binary_spec(*self, raw@) {
                Ok(value) => result matches Ok(decoded) && decoded@ == value,
                Err(fault) => result matches Err(error) && error@ == fault,
            },
    {
        match self {
            PgType::Bool => {
                if raw.len() == 0 {
                    Err(
                        TypeValueDecodeErrorKind::NotEnoughBytes {
                            required_bytes: 1,
                            source: raw,
                            pg_type: *self,
                        },
                    )
                } else {
                    Ok(Value::Bool(raw[0] != 0))
                }
            },
            PgType::Char | PgType::VarChar => match str_from_utf8(raw) {
                Ok(text) => {
                    proof {
                        crate::cursor::lemma_text_of_bytes(text@, raw@);
                    }
                    Ok(Value::String(text.to_owned()))
                },
                Err(cause) => Err(TypeValueDecodeErrorKind::CannotDecodeString { cause, source: raw }),
            },
            PgType::SmallInt => {
                if raw.len() < 4 {
                    Err(
                        TypeValueDecodeErrorKind::NotEnoughBytes {
                            required_bytes: 4,
                            source: raw,
                            pg_type: *self,
                        },
                    )
                } else {
                    proof {
                        lemma_low_i16_of_be_i32(raw@);
                    }
                    Ok(Value::Int16(i16_from_be(raw[2], raw[3])))
                }
            },
            PgType::Integer => {
                if raw.len() < 4 {
                    Err(
                        TypeValueDecodeErrorKind::NotEnoughBytes {
                            required_bytes: 4,
                            source: raw,
                            pg_type: *self,
                        },
                    )
                } else {
                    assert(be_i32(seq![raw@[0], raw@[1], raw@[2], raw@[3]]) == be_i32(raw@));
                    Ok(Value::Int32(i32_from_be(raw[0], raw[1], raw[2], raw[3])))
                }
            },
            PgType::BigInt => {
                if raw.len() < 8 {
                    Err(
                        TypeValueDecodeErrorKind::NotEnoughBytes {
                            required_bytes: 8,
                            source: raw,
                            pg_type: *self,
                        },
                    )
                } else {
                    proof {
                        crate::wire::lemma_be_i64_of_prefix(raw@);
                    }
                    Ok(
                        Value::Int64(
                            i64_from_be(
                                raw[0],
                                raw[1],
                                raw[2],
                                raw[3],
                                raw[4],
                                raw[5],
                                raw[6],
                                raw[7],
                            ),
                        ),
                    )
                }
            },
        }
    }

    fn decode_text<'d>(&self, raw: &'d [u8]) -> (result: Result<
        Value,
        TypeValueDecodeErrorKind<'d>,
    >)
        ensures
            match decode_text_spec(*self, raw@) {
                Ok(value) => result matches Ok(decoded) && decoded@ == value,
                Err(fault) => result matches Err(error) && error@ == fault,
            },
    {
        let source: &'d str = match str_from_utf8(raw) {
            Ok(text) => text,
            Err(cause) => {
                return Err(TypeValueDecodeErrorKind::CannotDecodeString { cause, source: raw });
            },
        };
        proof {
            crate::cursor::lemma_text_of_bytes(source@, raw@);
        }
        match self {
            PgType::Bool => {
                let trimmed_source = trimmed(source);
                match word_as_bool(trimmed_source) {
                    Some(value) => Ok(Value::Bool(value)),
                    None => {
                        let word = lowercased(trimmed_source);
                        match word_as_bool(word.as_str()) {
                            Some(value) => Ok(Value::Bool(value)),
                            None => Err(TypeValueDecodeErrorKind::CannotParseBool { source }),
                        }
                    },
                }
            },
            PgType::Char => Ok(Value::String(source.to_owned())),
            PgType::VarChar => Ok(Value::String(source.to_owned())),
            PgType::SmallInt => match parse_i16(trimmed(source)) {
                Ok(value) => Ok(Value::Int16(value)),
                Err(cause) => Err(
                    TypeValueDecodeErrorKind::CannotParseInt { cause, source, pg_type: *self },
                ),
            },
            PgType::Integer => match parse_i32(trimmed(source)) {
                Ok(value) => Ok(Value::Int32(value)),
                Err(cause) => Err(
                    TypeValueDecodeErrorKind::CannotParseInt { cause, source, pg_type: *self },
                ),
            },
            PgType::BigInt => match parse_i64(trimmed(source)) {
                Ok(value) => Ok(Value::Int64(value)),
                Err(cause) => Err(
                    TypeValueDecodeErrorKind::CannotParseInt { cause, source, pg_type: *self },
                ),
            },
        }
    }
}

/// The boolean that `word` spells, if it spells one.
pub fn word_as_bool(word: &str) -> (value: Option<bool>)
    ensures
        value == bool_of_word(word@),
{
    if is_true_word(word) {
        Some(true)
    } else if is_false_word(word) {
        Some(false)
    } else {
        None
    }
}

/// Whether `word` is one of the spellings of `true`.
pub fn is_true_word(word: &str) -> (truthy: bool)
    ensures
        truthy == is_truthy(word@),
{
    text_is(word, "t") || text_is(word, "tr") || text_is(word, "tru") || text_is(word, "true")
        || text_is(word, "y") || text_is(word, "ye") || text_is(word, "yes") || text_is(word, "on")
        || text_is(word, "1")
}

/// Whether `word` is one of the spellings of `false`.
pub fn is_false_word(word: &str) -> (falsy: bool)
    ensures
        falsy == is_falsy(word@),
{
    text_is(word, "f") || text_is(word, "fa") || text_is(word, "fal") || text_is(word, "fals")
        || text_is(word, "false") || text_is(word, "n") || text_is(word, "no") || text_is(
        word,
        "of",
    ) || text_is(word, "off") || text_is(word, "0")
}

} // verus!
