//! What can go wrong while bytes are turned into messages.
//!
//! Each error type has a mathematical model, its view, in which byte buffers
//! are sequences and the causes reported by the standard library are left
//! out: a cause is a function of the bytes that the error already holds.

use crate::format::UnrecognizedFormat;
use crate::request_codes::Code;
use crate::types::PgType;
use std::num::ParseIntError;
use std::str::Utf8Error;
use crate::text::{bytes_string, bytes_text, char_string, integer_string, integer_text};
use vstd::prelude::*;
use vstd::string::StringExecFns;

verus! {

/// The reason for which `core::str::from_utf8` refused a buffer.
#[verifier::external_type_specification]
#[verifier::external_body]
pub struct ExUtf8Error(Utf8Error);

/// An object identifier that names no supported type; holds the identifier.
#[derive(Debug, PartialEq, Eq, Structural, Clone, Copy)]
pub struct NotSupportedOid(pub u32);

impl NotSupportedOid {
    /// The error in words.
    pub open spec fn text(self) -> Seq<char> {
        "OID: '"@ + integer_text(self.0 as int) + "' is not supported"@
    }

    /// The error in words.
    pub fn to_string(&self) -> (text: String)
        ensures
            text@ == self.text(),
    {
        String::from_str("OID: '").concat(integer_string(self.0 as i64).as_str()).concat(
            "' is not supported",
        )
    }
}

/// Wraps the `Display` of `core::str::Utf8Error`: the words in which the
/// standard library says why bytes are not UTF-8. Nothing is promised of them.
#[verifier::external_body]
fn utf8_error_string(cause: &Utf8Error) -> (text: String) {
    format!("{}", cause)
}

/// Wraps the `Display` of `core::num::ParseIntError`: the words in which
/// the standard library says why a text writes no integer. Nothing is
/// promised of them.
#[verifier::external_body]
fn parse_int_error_string(cause: &ParseIntError) -> (text: String) {
    format!("{}", cause)
}

/// Wraps the `Display` of `native_tls::Error`: the words in which the TLS
/// library says why it refused a connection. Nothing is promised of them.
#[verifier::external_body]
fn tls_error_string(cause: &native_tls::Error) -> (text: String) {
    format!("{}", cause)
}

/// The model of a [`PayloadError`].
pub enum PayloadFault {
    /// The bytes before the terminator are not UTF-8.
    InvalidUtfString { source: Seq<u8> },
    /// No zero byte ends the string.
    CStringNotTerminated { source: Seq<u8> },
    /// A byte was asked of an empty buffer.
    EndOfBuffer,
    /// Fewer bytes are left than the integer needs.
    NotEnoughBytes { required: u8, source: Seq<u8> },
}

/// The ways in which reading a primitive from a buffer fails.
#[derive(Debug, PartialEq)]
pub enum PayloadErrorKind {
    /// The bytes before the terminator are not UTF-8.
    InvalidUtfString { cause: Utf8Error, source: Vec<u8> },
    /// No zero byte ends the string.
    CStringNotTerminated { source: Vec<u8> },
    /// A byte was asked of an empty buffer.
    EndOfBuffer,
    /// Fewer bytes are left than the integer needs.
    NotEnoughBytes { required: u8, source: Vec<u8> },
}

impl View for PayloadErrorKind {
    type V = PayloadFault;

    open spec fn view(&self) -> PayloadFault {
        match self {
            PayloadErrorKind::InvalidUtfString { cause, source } => PayloadFault::InvalidUtfString {
                source: source@,
            },
            PayloadErrorKind::CStringNotTerminated { source } => PayloadFault::CStringNotTerminated {
                source: source@,
            },
            PayloadErrorKind::EndOfBuffer => PayloadFault::EndOfBuffer,
            PayloadErrorKind::NotEnoughBytes { required, source } => PayloadFault::NotEnoughBytes {
                required: *required,
                source: source@,
            },
        }
    }
}

/// An error met while reading a primitive from raw bytes.
#[derive(Debug, PartialEq)]
pub struct PayloadError {
    pub kind: PayloadErrorKind,
}

impl View for PayloadError {
    type V = PayloadFault;

    open spec fn view(&self) -> PayloadFault {
        self.kind@
    }
}

impl PayloadFault {
    /// The error in words, where `cause` is what the standard library says
    /// of bytes that are not UTF-8.
    pub open spec fn text(self, cause: Seq<char>) -> Seq<char> {
        match self {
            PayloadFault::InvalidUtfString { source } => bytes_text(source)
                + " is invalid UTF-8 string. The cause: \""@ + cause + "\""@,
            PayloadFault::CStringNotTerminated {
                source,
            } => "Buffer does not contain \\0 termination byte. Buffer content "@ + bytes_text(
                source,
            ),
            PayloadFault::EndOfBuffer => "End of Payload Buffer"@,
            PayloadFault::NotEnoughBytes {
                required,
                source,
            } => "Buffer does not contain required number of bytes. Bytes required "@
                + integer_text(required as int) + ", buffer content "@ + bytes_text(source),
        }
    }
}

impl PayloadError {
    /// The error in words. The words for bytes that are not UTF-8 end with
    /// the cause as the standard library puts it.
    pub fn to_string(&self) -> (text: String)
        ensures
            exists|cause: Seq<char>| text@ == #[trigger] self@.text(cause),
    {
        match &self.kind {
            PayloadErrorKind::InvalidUtfString { cause, source } => {
                let cause_text = utf8_error_string(cause);
                let text = bytes_string(source.as_slice()).concat(
                    " is invalid UTF-8 string. The cause: \"",
                ).concat(cause_text.as_str()).concat("\"");
                assert(text@ == self@.text(cause_text@));
                text
            },
            PayloadErrorKind::CStringNotTerminated { source } => {
                let text = String::from_str(
                    "Buffer does not contain \\0 termination byte. Buffer content ",
                ).concat(bytes_string(source.as_slice()).as_str());
                assert(text@ == self@.text(Seq::empty()));
                text
            },
            PayloadErrorKind::EndOfBuffer => {
                let text = String::from_str("End of Payload Buffer");
                assert(text@ == self@.text(Seq::empty()));
                text
            },
            PayloadErrorKind::NotEnoughBytes { required, source } => {
                let text = String::from_str(
                    "Buffer does not contain required number of bytes. Bytes required ",
                ).concat(integer_string(*required as i64).as_str()).concat(
                    ", buffer content ",
                ).concat(bytes_string(source.as_slice()).as_str());
                assert(text@ == self@.text(Seq::empty()));
                text
            },
        }
    }
}

impl From<PayloadErrorKind> for PayloadError {
    fn from(kind: PayloadErrorKind) -> (error: PayloadError) {
        PayloadError { kind }
    }
}

impl vstd::std_specs::convert::FromSpecImpl<PayloadErrorKind> for PayloadError {
    open spec fn obeys_from_spec() -> bool {
        true
    }

    open spec fn from_spec(kind: PayloadErrorKind) -> PayloadError {
        PayloadError { kind }
    }
}

/// The model of a [`TypeValueDecodeError`].
#[allow(inconsistent_fields)]
pub enum DecodeFault {
    /// The buffer is shorter than the type needs.
    NotEnoughBytes { required_bytes: u8, source: Seq<u8>, pg_type: PgType },
    /// The buffer is not UTF-8.
    CannotDecodeString { source: Seq<u8> },
    /// The text spells neither `true` nor `false`.
    CannotParseBool { source: Seq<char> },
    /// The text writes no integer of the type.
    CannotParseInt { source: Seq<char>, pg_type: PgType },
}

/// The ways in which decoding a typed value fails.
#[allow(inconsistent_fields)]
#[derive(Debug, PartialEq)]
pub enum TypeValueDecodeErrorKind<'d> {
    /// The buffer is shorter than the type needs.
    NotEnoughBytes { required_bytes: u8, source: &'d [u8], pg_type: PgType },
    /// The buffer is not UTF-8.
    CannotDecodeString { cause: Utf8Error, source: &'d [u8] },
    /// The text spells neither `true` nor `false`.
    CannotParseBool { source: &'d str },
    /// The text writes no integer of the type.
    CannotParseInt { cause: ParseIntError, source: &'d str, pg_type: PgType },
}

impl<'d> View for TypeValueDecodeErrorKind<'d> {
    type V = DecodeFault;

    open spec fn view(&self) -> DecodeFault {
        match self {
            TypeValueDecodeErrorKind::NotEnoughBytes {
                required_bytes,
                source,
                pg_type,
            } => DecodeFault::NotEnoughBytes {
                required_bytes: *required_bytes,
                source: source@,
                pg_type: *pg_type,
            },
            TypeValueDecodeErrorKind::CannotDecodeString {
                cause,
                source,
            } => DecodeFault::CannotDecodeString { source: source@ },
            TypeValueDecodeErrorKind::CannotParseBool { source } => DecodeFault::CannotParseBool {
                source: source@,
            },
            TypeValueDecodeErrorKind::CannotParseInt {
                cause,
                source,
                pg_type,
            } => DecodeFault::CannotParseInt { source: source@, pg_type: *pg_type },
        }
    }
}

/// An error met while decoding a typed value from raw bytes.
#[derive(Debug, PartialEq)]
pub struct TypeValueDecodeError<'d> {
    pub kind: TypeValueDecodeErrorKind<'d>,
}

impl<'d> View for TypeValueDecodeError<'d> {
    type V = DecodeFault;

    open spec fn view(&self) -> DecodeFault {
        self.kind@
    }
}

impl DecodeFault {
    /// The error in words, where `cause` is what the standard library says
    /// of bytes that are not UTF-8 or of a text that writes no integer.
    pub open spec fn text(self, cause: Seq<char>) -> Seq<char> {
        match self {
            DecodeFault::NotEnoughBytes { required_bytes, source, pg_type } => pg_type.name_spec()
                + " can not be decoded. Bytes required "@ + integer_text(required_bytes as int)
                + ", buffer content "@ + bytes_text(source),
            DecodeFault::CannotDecodeString { source } => bytes_text(source)
                + " is invalid UTF-8 string. The cause: \""@ + cause + "\""@,
            DecodeFault::CannotParseBool { source } => "'"@ + source
                + "' can not be parsed as boolean"@,
            DecodeFault::CannotParseInt { source, pg_type } => "'"@ + source
                + "' can not be parsed as "@ + pg_type.name_spec() + ". The cause: \""@ + cause
                + "\""@,
        }
    }
}

impl<'d> TypeValueDecodeError<'d> {
    /// The error in words.
    pub fn to_string(&self) -> (text: String)
        ensures
            exists|cause: Seq<char>| text@ == #[trigger] self@.text(cause),
    {
        match &self.kind {
            TypeValueDecodeErrorKind::NotEnoughBytes { required_bytes, source, pg_type } => {
                let text = pg_type.to_string().concat(" can not be decoded. Bytes required ").concat(
                    integer_string(*required_bytes as i64).as_str(),
                ).concat(", buffer content ").concat(bytes_string(source).as_str());
                assert(text@ == self@.text(Seq::empty()));
                text
            },
            TypeValueDecodeErrorKind::CannotDecodeString { cause, source } => {
                let cause_text = utf8_error_string(cause);
                let text = bytes_string(source).concat(
                    " is invalid UTF-8 string. The cause: \"",
                ).concat(cause_text.as_str()).concat("\"");
                assert(text@ == self@.text(cause_text@));
                text
            },
            TypeValueDecodeErrorKind::CannotParseBool { source } => {
                let text = String::from_str("'").concat(source).concat(
                    "' can not be parsed as boolean",
                );
                assert(text@ == self@.text(Seq::empty()));
                text
            },
            TypeValueDecodeErrorKind::CannotParseInt { cause, source, pg_type } => {
                let cause_text = parse_int_error_string(cause);
                let text = String::from_str("'").concat(source).concat(
                    "' can not be parsed as ",
                ).concat(pg_type.to_string().as_str()).concat(". The cause: \"").concat(
                    cause_text.as_str(),
                ).concat("\"");
                assert(text@ == self@.text(cause_text@));
                text
            },
        }
    }
}

impl<'d> From<TypeValueDecodeErrorKind<'d>> for TypeValueDecodeError<'d> {
    fn from(kind: TypeValueDecodeErrorKind<'d>) -> (error: TypeValueDecodeError<'d>) {
        TypeValueDecodeError { kind }
    }
}

impl<'d> vstd::std_specs::convert::FromSpecImpl<TypeValueDecodeErrorKind<'d>> for TypeValueDecodeError<'d> {
    open spec fn obeys_from_spec() -> bool {
        true
    }

    open spec fn from_spec(kind: TypeValueDecodeErrorKind<'d>) -> TypeValueDecodeError<'d> {
        TypeValueDecodeError { kind }
    }
}

/// The model of a [`HandShakeError`].
pub enum HandShakeFault {
    /// The client speaks a version of the protocol that is not served.
    UnsupportedProtocolVersion(Code),
    /// The client asks for what is not served.
    UnsupportedClientRequest(Code),
    /// The start-up packet could not be read.
    Payload(PayloadFault),
}

/// The ways in which a handshake fails.
#[derive(Debug, PartialEq)]
pub enum HandShakeErrorKind {
    /// The client speaks a version of the protocol that is not served.
    UnsupportedProtocolVersion(Code),
    /// The client asks for what is not served.
    UnsupportedClientRequest(Code),
    /// The start-up packet could not be read.
    PayloadError(PayloadError),
}

impl View for HandShakeErrorKind {
    type V = HandShakeFault;

    open spec fn view(&self) -> HandShakeFault {
        match self {
            HandShakeErrorKind::UnsupportedProtocolVersion(
                code,
            ) => HandShakeFault::UnsupportedProtocolVersion(*code),
            HandShakeErrorKind::UnsupportedClientRequest(
                code,
            ) => HandShakeFault::UnsupportedClientRequest(*code),
            HandShakeErrorKind::PayloadError(error) => HandShakeFault::Payload(error@),
        }
    }
}

/// An error met during the handshake: the client sent bytes that make no
/// start-up packet, or asked for what is not served.
#[derive(Debug, PartialEq)]
pub struct HandShakeError {
    pub kind: HandShakeErrorKind,
}

impl View for HandShakeError {
    type V = HandShakeFault;

    open spec fn view(&self) -> HandShakeFault {
        self.kind@
    }
}

impl HandShakeFault {
    /// The error in words, where `cause` is what the standard library says
    /// of bytes that are not UTF-8.
    pub open spec fn text(self, cause: Seq<char>) -> Seq<char> {
        match self {
            HandShakeFault::UnsupportedProtocolVersion(code) => "Unsupported Protocol Version: "@
                + code.text(),
            HandShakeFault::UnsupportedClientRequest(code) => "Unsupported Client Code Request: '"@
                + code.text() + "'"@,
            HandShakeFault::Payload(fault) => fault.text(cause),
        }
    }
}

impl HandShakeError {
    /// The error in words.
    pub fn to_string(&self) -> (text: String)
        ensures
            exists|cause: Seq<char>| text@ == #[trigger] self@.text(cause),
    {
        match &self.kind {
            HandShakeErrorKind::UnsupportedProtocolVersion(code) => {
                let text = String::from_str("Unsupported Protocol Version: ").concat(
                    code.to_string().as_str(),
                );
                assert(text@ == self@.text(Seq::empty()));
                text
            },
            HandShakeErrorKind::UnsupportedClientRequest(code) => {
                let text = String::from_str("Unsupported Client Code Request: '").concat(
                    code.to_string().as_str(),
                ).concat("'");
                assert(text@ == self@.text(Seq::empty()));
                text
            },
            HandShakeErrorKind::PayloadError(error) => {
                let text = error.to_string();
                let ghost cause = choose|cause: Seq<char>| text@ == error@.text(cause);
                assert(text@ == self@.text(cause));
                text
            },
        }
    }
}

impl From<HandShakeErrorKind> for HandShakeError {
    fn from(kind: HandShakeErrorKind) -> (error: HandShakeError) {
        HandShakeError { kind }
    }
}

impl vstd::std_specs::convert::FromSpecImpl<HandShakeErrorKind> for HandShakeError {
    open spec fn obeys_from_spec() -> bool {
        true
    }

    open spec fn from_spec(kind: HandShakeErrorKind) -> HandShakeError {
        HandShakeError { kind }
    }
}

impl From<PayloadError> for HandShakeError {
    fn from(error: PayloadError) -> (wrapped: HandShakeError) {
        HandShakeError { kind: HandShakeErrorKind::PayloadError(error) }
    }
}

impl vstd::std_specs::convert::FromSpecImpl<PayloadError> for HandShakeError {
    open spec fn obeys_from_spec() -> bool {
        true
    }

    open spec fn from_spec(error: PayloadError) -> HandShakeError {
        HandShakeError { kind: HandShakeErrorKind::PayloadError(error) }
    }
}

/// The model of a [`MessageFormatError`].
pub enum MessageFormatFault {
    /// No byte was given where the tag of a message was asked for.
    MissingMessageTag,
    /// The body of the message could not be read.
    Payload(PayloadFault),
    /// A `Describe` or `Close` names neither a statement nor a portal.
    InvalidTypeByte(char),
    /// The tag names no supported message.
    UnsupportedFrontendMessage(char),
    /// A parameter has a type that is not supported.
    NotSupportedOid(NotSupportedOid),
    /// A format code is neither text nor binary.
    UnrecognizedFormat(UnrecognizedFormat),
}

/// The ways in which decoding a frontend message fails.
#[derive(Debug, PartialEq)]
pub enum MessageFormatErrorKind {
    /// No byte was given where the tag of a message was asked for.
    MissingMessageTag,
    /// The body of the message could not be read.
    PayloadError(PayloadError),
    /// A `Describe` or `Close` names neither a statement nor a portal.
    InvalidTypeByte(char),
    /// The tag names no supported message.
    UnsupportedFrontendMessage(char),
    /// A parameter has a type that is not supported.
    NotSupportedOid(NotSupportedOid),
    /// A format code is neither text nor binary.
    UnrecognizedFormat(UnrecognizedFormat),
}

impl View for MessageFormatErrorKind {
    type V = MessageFormatFault;

    open spec fn view(&self) -> MessageFormatFault {
        match self {
            MessageFormatErrorKind::MissingMessageTag => MessageFormatFault::MissingMessageTag,
            MessageFormatErrorKind::PayloadError(error) => MessageFormatFault::Payload(error@),
            MessageFormatErrorKind::InvalidTypeByte(byte) => MessageFormatFault::InvalidTypeByte(
                *byte,
            ),
            MessageFormatErrorKind::UnsupportedFrontendMessage(
                tag,
            ) => MessageFormatFault::UnsupportedFrontendMessage(*tag),
            MessageFormatErrorKind::NotSupportedOid(error) => MessageFormatFault::NotSupportedOid(
                *error,
            ),
            MessageFormatErrorKind::UnrecognizedFormat(
                error,
            ) => MessageFormatFault::UnrecognizedFormat(*error),
        }
    }
}

/// An error met while decoding a frontend message from raw bytes.
#[derive(Debug, PartialEq)]
pub struct MessageFormatError {
    pub kind: MessageFormatErrorKind,
}

impl View for MessageFormatError {
    type V = MessageFormatFault;

    open spec fn view(&self) -> MessageFormatFault {
        self.kind@
    }
}

impl MessageFormatFault {
    /// The error in words, where `cause` is what the standard library says
    /// of bytes that are not UTF-8.
    pub open spec fn text(self, cause: Seq<char>) -> Seq<char> {
        match self {
            MessageFormatFault::MissingMessageTag => "Message tag is not found in payload"@,
            MessageFormatFault::Payload(fault) => fault.text(cause),
            MessageFormatFault::InvalidTypeByte(
                byte,
            ) => "invalid type byte in Describe frontend message: '"@ + seq![byte] + "'"@,
            MessageFormatFault::UnsupportedFrontendMessage(
                tag,
            ) => "unsupported frontend message tag '"@ + seq![tag] + "'"@,
            MessageFormatFault::NotSupportedOid(error) => error.text(),
            MessageFormatFault::UnrecognizedFormat(error) => error.text(),
        }
    }
}

impl MessageFormatError {
    /// The error in words.
    pub fn to_string(&self) -> (text: String)
        ensures
            exists|cause: Seq<char>| text@ == #[trigger] self@.text(cause),
    {
        match &self.kind {
            MessageFormatErrorKind::MissingMessageTag => {
                let text = String::from_str("Message tag is not found in payload");
                assert(text@ == self@.text(Seq::empty()));
                text
            },
            MessageFormatErrorKind::PayloadError(error) => {
                let text = error.to_string();
                let ghost cause = choose|cause: Seq<char>| text@ == error@.text(cause);
                assert(text@ == self@.text(cause));
                text
            },
            MessageFormatErrorKind::InvalidTypeByte(byte) => {
                let text = String::from_str(
                    "invalid type byte in Describe frontend message: '",
                ).concat(char_string(*byte).as_str()).concat("'");
                assert(text@ == self@.text(Seq::empty()));
                text
            },
            MessageFormatErrorKind::UnsupportedFrontendMessage(tag) => {
                let text = String::from_str("unsupported frontend message tag '").concat(
                    char_string(*tag).as_str(),
                ).concat("'");
                assert(text@ == self@.text(Seq::empty()));
                text
            },
            MessageFormatErrorKind::NotSupportedOid(error) => {
                let text = error.to_string();
                assert(text@ == self@.text(Seq::empty()));
                text
            },
            MessageFormatErrorKind::UnrecognizedFormat(error) => {
                let text = error.to_string();
                assert(text@ == self@.text(Seq::empty()));
                text
            },
        }
    }
}

impl From<MessageFormatErrorKind> for MessageFormatError {
    fn from(kind: MessageFormatErrorKind) -> (error: MessageFormatError) {
        MessageFormatError { kind }
    }
}

impl vstd::std_specs::convert::FromSpecImpl<MessageFormatErrorKind> for MessageFormatError {
    open spec fn obeys_from_spec() -> bool {
        true
    }

    open spec fn from_spec(kind: MessageFormatErrorKind) -> MessageFormatError {
        MessageFormatError { kind }
    }
}

impl From<PayloadError> for MessageFormatError {
    fn from(error: PayloadError) -> (wrapped: MessageFormatError) {
        MessageFormatError { kind: MessageFormatErrorKind::PayloadError(error) }
    }
}

impl vstd::std_specs::convert::FromSpecImpl<PayloadError> for MessageFormatError {
    open spec fn obeys_from_spec() -> bool {
        true
    }

    open spec fn from_spec(error: PayloadError) -> MessageFormatError {
        MessageFormatError { kind: MessageFormatErrorKind::PayloadError(error) }
    }
}

impl From<NotSupportedOid> for MessageFormatError {
    fn from(error: NotSupportedOid) -> (wrapped: MessageFormatError) {
        MessageFormatError { kind: MessageFormatErrorKind::NotSupportedOid(error) }
    }
}

impl vstd::std_specs::convert::FromSpecImpl<NotSupportedOid> for MessageFormatError {
    open spec fn obeys_from_spec() -> bool {
        true
    }

    open spec fn from_spec(error: NotSupportedOid) -> MessageFormatError {
        MessageFormatError { kind: MessageFormatErrorKind::NotSupportedOid(error) }
    }
}

impl From<UnrecognizedFormat> for MessageFormatError {
    fn from(error: UnrecognizedFormat) -> (wrapped: MessageFormatError) {
        MessageFormatError { kind: MessageFormatErrorKind::UnrecognizedFormat(error) }
    }
}

impl vstd::std_specs::convert::FromSpecImpl<UnrecognizedFormat> for MessageFormatError {
    open spec fn obeys_from_spec() -> bool {
        true
    }

    open spec fn from_spec(error: UnrecognizedFormat) -> MessageFormatError {
        MessageFormatError { kind: MessageFormatErrorKind::UnrecognizedFormat(error) }
    }
}

/// The reason for which the TLS library refused a connection.
#[verifier::external_type_specification]
#[verifier::external_body]
pub struct ExTlsError(native_tls::Error);

/// The model of a [`ProtocolError`].
pub enum ProtocolFault {
    /// The handshake failed.
    HandShake(HandShakeFault),
    /// A frontend message could not be decoded.
    MessageFormat(MessageFormatFault),
    /// The TLS library refused the connection.
    TlsHandShake,
    /// A cancel request showed a secret key that is not the connection's.
    SecretKeysHaveNotMatch,
    /// Every connection identifier is in use.
    ConnectionIdExhausted,
}

/// The ways in which a connection breaks the protocol.
#[derive(Debug)]
pub enum ProtocolErrorKind {
    /// The handshake failed.
    HandShake(HandShakeError),
    /// A frontend message could not be decoded.
    MessageFormat(MessageFormatError),
    /// The TLS library refused the connection.
    TlsHandShake(native_tls::Error),
    /// A cancel request showed a secret key that is not the connection's.
    SecretKeysHaveNotMatch,
    /// Every connection identifier is in use.
    ConnectionIdExhausted,
}

impl View for ProtocolErrorKind {
    type V = ProtocolFault;

    open spec fn view(&self) -> ProtocolFault {
        match self {
            ProtocolErrorKind::HandShake(error) => ProtocolFault::HandShake(error@),
            ProtocolErrorKind::MessageFormat(error) => ProtocolFault::MessageFormat(error@),
            ProtocolErrorKind::TlsHandShake(error) => ProtocolFault::TlsHandShake,
            ProtocolErrorKind::SecretKeysHaveNotMatch => ProtocolFault::SecretKeysHaveNotMatch,
            ProtocolErrorKind::ConnectionIdExhausted => ProtocolFault::ConnectionIdExhausted,
        }
    }
}

/// An error of the protocol. It ends the connection on which it occurs and
/// no other.
#[derive(Debug)]
pub struct ProtocolError {
    pub kind: ProtocolErrorKind,
}

impl View for ProtocolError {
    type V = ProtocolFault;

    open spec fn view(&self) -> ProtocolFault {
        self.kind@
    }
}

impl ProtocolFault {
    /// The error in words, where `cause` is what the standard library says
    /// of bytes that are not UTF-8, or what the TLS library says of its refusal.
    pub open spec fn text(self, cause: Seq<char>) -> Seq<char> {
        match self {
            ProtocolFault::HandShake(fault) => fault.text(cause),
            ProtocolFault::MessageFormat(fault) => fault.text(cause),
            ProtocolFault::TlsHandShake => cause,
            ProtocolFault::SecretKeysHaveNotMatch => "secret for query cancellation has not matched secret of the current connection"@,
            ProtocolFault::ConnectionIdExhausted => "every connection identifier is in use"@,
        }
    }
}

impl ProtocolError {
    /// The error in words.
    pub fn to_string(&self) -> (text: String)
        ensures
            exists|cause: Seq<char>| text@ == #[trigger] self@.text(cause),
    {
        match &self.kind {
            ProtocolErrorKind::HandShake(error) => {
                let text = error.to_string();
                let ghost cause = choose|cause: Seq<char>| text@ == error@.text(cause);
                assert(text@ == self@.text(cause));
                text
            },
            ProtocolErrorKind::MessageFormat(error) => {
                let text = error.to_string();
                let ghost cause = choose|cause: Seq<char>| text@ == error@.text(cause);
                assert(text@ == self@.text(cause));
                text
            },
            ProtocolErrorKind::TlsHandShake(error) => {
                let text = tls_error_string(error);
                assert(text@ == self@.text(text@));
                text
            },
            ProtocolErrorKind::SecretKeysHaveNotMatch => {
                let text = String::from_str(
                    "secret for query cancellation has not matched secret of the current connection",
                );
                assert(text@ == self@.text(Seq::empty()));
                text
            },
            ProtocolErrorKind::ConnectionIdExhausted => {
                let text = String::from_str("every connection identifier is in use");
                assert(text@ == self@.text(Seq::empty()));
                text
            },
        }
    }

    /// The error of a cancel request whose secret key is not the connection's.
    pub fn secret_keys_have_not_matched() -> (error: ProtocolError)
        ensures
            error@ == ProtocolFault::SecretKeysHaveNotMatch,
    {
        ProtocolError { kind: ProtocolErrorKind::SecretKeysHaveNotMatch }
    }

    /// The error of a connection for which no identifier is left.
    pub fn connection_id_exhausted() -> (error: ProtocolError)
        ensures
            error@ == ProtocolFault::ConnectionIdExhausted,
    {
        ProtocolError { kind: ProtocolErrorKind::ConnectionIdExhausted }
    }
}

impl From<HandShakeError> for ProtocolError {
    fn from(error: HandShakeError) -> (wrapped: ProtocolError) {
        ProtocolError { kind: ProtocolErrorKind::HandShake(error) }
    }
}

impl vstd::std_specs::convert::FromSpecImpl<HandShakeError> for ProtocolError {
    open spec fn obeys_from_spec() -> bool {
        true
    }

    open spec fn from_spec(error: HandShakeError) -> ProtocolError {
        ProtocolError { kind: ProtocolErrorKind::HandShake(error) }
    }
}

impl From<MessageFormatError> for ProtocolError {
    fn from(error: MessageFormatError) -> (wrapped: ProtocolError) {
        ProtocolError { kind: ProtocolErrorKind::MessageFormat(error) }
    }
}

impl vstd::std_specs::convert::FromSpecImpl<MessageFormatError> for ProtocolError {
    open spec fn obeys_from_spec() -> bool {
        true
    }

    open spec fn from_spec(error: MessageFormatError) -> ProtocolError {
        ProtocolError { kind: ProtocolErrorKind::MessageFormat(error) }
    }
}

impl From<native_tls::Error> for ProtocolError {
    fn from(error: native_tls::Error) -> (wrapped: ProtocolError) {
        ProtocolError { kind: ProtocolErrorKind::TlsHandShake(error) }
    }
}

impl vstd::std_specs::convert::FromSpecImpl<native_tls::Error> for ProtocolError {
    open spec fn obeys_from_spec() -> bool {
        true
    }

    open spec fn from_spec(error: native_tls::Error) -> ProtocolError {
        ProtocolError { kind: ProtocolErrorKind::TlsHandShake(error) }
    }
}

} // verus!
