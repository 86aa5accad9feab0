//! The decoder of frontend messages.
//!
//! A message is a tag of one byte, a length of four bytes that counts itself
//! and what follows it, and a body. The decoder never reads: it says how many
//! bytes it needs next, and is handed exactly those.

use crate::cursor::{
    read_byte_spec, read_bytes_spec, read_cstr_spec, read_i16_spec, read_i32_spec, read_u32_spec,
    Cursor,
};
use crate::errors::{
    MessageFormatError, MessageFormatErrorKind, MessageFormatFault, PayloadError, PayloadFault,
};
use crate::format::PgFormat;
use crate::frontend::{raw_param_model, CommandMessage, CommandModel};
use crate::messages::{
    BIND, CLOSE, DESCRIBE, EXECUTE, FLUSH, PARSE, PORTAL, QUERY, STATEMENT, SYNC, TERMINATE,
};
use crate::types::PgType;
use crate::wire::{bytes_after_length, rest_of_packet};
use vstd::prelude::*;

pub mod state;

verus! {

/// The model of a [`Status`].
pub enum StatusModel {
    Requesting(usize),
    Done(CommandModel),
}

/// What the decoder has to say after a stage.
#[derive(Debug, PartialEq)]
pub enum Status {
    /// The decoder asks for a buffer of this many bytes.
    Requesting(usize),
    /// The decoder has decoded a message.
    Done(CommandMessage),
}

impl View for Status {
    type V = StatusModel;

    open spec fn view(&self) -> StatusModel {
        match self {
            Status::Requesting(len) => StatusModel::Requesting(*len),
            Status::Done(message) => StatusModel::Done(message@),
        }
    }
}

/// Where the decoder stands within a message.
#[derive(Debug, PartialEq, Eq, Structural, Clone, Copy)]
pub enum Stage {
    /// Nothing of the message has been asked for.
    Init,
    /// The tag has been asked for.
    RequestingTag,
    /// The tag is known and the length has been asked for.
    HaveTag(u8),
    /// The body of the message with this tag has been asked for.
    WaitingPayload(u8),
}

/// What a failed read of the body means for the message.
pub open spec fn payload_fault<T>(fault: PayloadFault) -> Result<T, MessageFormatFault> {
    Err(MessageFormatFault::Payload(fault))
}

/// `count` format codes, each a big-endian `i16`, behind those already `found`.
pub open spec fn formats_spec(bytes: Seq<u8>, count: int, found: Seq<PgFormat>) -> Result<
    (Seq<PgFormat>, Seq<u8>),
    MessageFormatFault,
>
    decreases count,
{
    if count <= 0 {
        Ok((found, bytes))
    } else {
        match read_i16_spec(bytes) {
            Err(fault) => payload_fault(fault),
            Ok((code, rest)) => match PgFormat::of_code(code) {
                Err(error) => Err(MessageFormatFault::UnrecognizedFormat(error)),
                Ok(format) => formats_spec(rest, count - 1, found.push(format)),
            },
        }
    }
}

/// A list of format codes: their number as a big-endian `i16`, then the codes.
pub open spec fn format_list_spec(bytes: Seq<u8>) -> Result<
    (Seq<PgFormat>, Seq<u8>),
    MessageFormatFault,
> {
    match read_i16_spec(bytes) {
        Err(fault) => payload_fault(fault),
        Ok((count, rest)) => formats_spec(rest, count as int, Seq::empty()),
    }
}

/// One parameter value: its length as a big-endian `i32`, where `-1` stands
/// for `NULL`, then that many bytes.
pub open spec fn raw_param_spec(bytes: Seq<u8>) -> Result<
    (Option<Seq<u8>>, Seq<u8>),
    MessageFormatFault,
> {
    match read_i32_spec(bytes) {
        Err(fault) => payload_fault(fault),
        Ok((len, rest)) => if len == -1 {
            Ok((None, rest))
        } else {
            match read_bytes_spec(rest, len as int) {
                Err(fault) => payload_fault(fault),
                Ok((value, rest)) => Ok((Some(value), rest)),
            }
        },
    }
}

/// `count` parameter values behind those already `found`.
pub open spec fn raw_params_spec(
    bytes: Seq<u8>,
    count: int,
    found: Seq<Option<Seq<u8>>>,
) -> Result<(Seq<Option<Seq<u8>>>, Seq<u8>), MessageFormatFault>
    decreases count,
{
    if count <= 0 {
        Ok((found, bytes))
    } else {
        match raw_param_spec(bytes) {
            Err(fault) => Err(fault),
            Ok((param, rest)) => raw_params_spec(rest, count - 1, found.push(param)),
        }
    }
}

/// A list of parameter values: their number as a big-endian `i16`, then the values.
pub open spec fn raw_param_list_spec(bytes: Seq<u8>) -> Result<
    (Seq<Option<Seq<u8>>>, Seq<u8>),
    MessageFormatFault,
> {
    match read_i16_spec(bytes) {
        Err(fault) => payload_fault(fault),
        Ok((count, rest)) => raw_params_spec(rest, count as int, Seq::empty()),
    }
}

/// `count` parameter types, each an object identifier as a big-endian
/// `u32`, behind those already `found`.
pub open spec fn param_types_spec(
    bytes: Seq<u8>,
    count: int,
    found: Seq<Option<PgType>>,
) -> Result<(Seq<Option<PgType>>, Seq<u8>), MessageFormatFault>
    decreases count,
{
    if count <= 0 {
        Ok((found, bytes))
    } else {
        match read_u32_spec(bytes) {
            Err(fault) => payload_fault(fault),
            Ok((oid, rest)) => match PgType::of_oid(oid) {
                Err(error) => Err(MessageFormatFault::NotSupportedOid(error)),
                Ok(pg_type) => param_types_spec(rest, count - 1, found.push(pg_type)),
            },
        }
    }
}

/// A list of parameter types: their number as a big-endian `i16`, then the types.
pub open spec fn param_type_list_spec(bytes: Seq<u8>) -> Result<
    (Seq<Option<PgType>>, Seq<u8>),
    MessageFormatFault,
> {
    match read_i16_spec(bytes) {
        Err(fault) => payload_fault(fault),
        Ok((count, rest)) => param_types_spec(rest, count as int, Seq::empty()),
    }
}

/// The body of a `Query`: the SQL.
pub open spec fn query_spec(body: Seq<u8>) -> Result<CommandModel, MessageFormatFault> {
    match read_cstr_spec(body) {
        Err(fault) => payload_fault(fault),
        Ok((sql, rest)) => Ok(CommandModel::Query { sql }),
    }
}

/// The body of a `Bind`: the portal, the statement, the formats of the
/// parameters, their values and the formats of the result.
pub open spec fn bind_spec(body: Seq<u8>) -> Result<CommandModel, MessageFormatFault> {
    match read_cstr_spec(body) {
        Err(fault) => payload_fault(fault),
        Ok((portal_name, rest)) => match read_cstr_spec(rest) {
            Err(fault) => payload_fault(fault),
            Ok((statement_name, rest)) => match format_list_spec(rest) {
                Err(fault) => Err(fault),
                Ok((param_formats, rest)) => match raw_param_list_spec(rest) {
                    Err(fault) => Err(fault),
                    Ok((raw_params, rest)) => match format_list_spec(rest) {
                        Err(fault) => Err(fault),
                        Ok((result_formats, rest)) => Ok(
                            CommandModel::Bind {
                                portal_name,
                                statement_name,
                                param_formats,
                                raw_params,
                                result_formats,
                            },
                        ),
                    },
                },
            },
        },
    }
}

/// The byte that says what a `Describe` or a `Close` is about, and the name
/// that follows it.
pub open spec fn kind_and_name_spec(body: Seq<u8>) -> Result<
    (u8, Seq<char>),
    MessageFormatFault,
> {
    match read_byte_spec(body) {
        Err(fault) => payload_fault(fault),
        Ok((kind, rest)) => match read_cstr_spec(rest) {
            Err(fault) => payload_fault(fault),
            Ok((name, rest)) => Ok((kind, name)),
        },
    }
}

/// The body of a `Close`: `P` and the name of a portal, or `S` and the name
/// of a statement.
pub open spec fn close_spec(body: Seq<u8>) -> Result<CommandModel, MessageFormatFault> {
    match kind_and_name_spec(body) {
        Err(fault) => Err(fault),
        Ok((kind, name)) => if kind == PORTAL {
            Ok(CommandModel::ClosePortal { name })
        } else if kind == STATEMENT {
            Ok(CommandModel::CloseStatement { name })
        } else {
            Err(MessageFormatFault::InvalidTypeByte(kind as char))
        },
    }
}

/// The body of a `Describe`: `P` and the name of a portal, or `S` and the
/// name of a statement.
pub open spec fn describe_spec(body: Seq<u8>) -> Result<CommandModel, MessageFormatFault> {
    match kind_and_name_spec(body) {
        Err(fault) => Err(fault),
        Ok((kind, name)) => if kind == PORTAL {
            Ok(CommandModel::DescribePortal { name })
        } else if kind == STATEMENT {
            Ok(CommandModel::DescribeStatement { name })
        } else {
            Err(MessageFormatFault::InvalidTypeByte(kind as char))
        },
    }
}

/// The body of an `Execute`: the portal and the number of rows.
pub open spec fn execute_spec(body: Seq<u8>) -> Result<CommandModel, MessageFormatFault> {
    match read_cstr_spec(body) {
        Err(fault) => payload_fault(fault),
        Ok((portal_name, rest)) => match read_i32_spec(rest) {
            Err(fault) => payload_fault(fault),
            Ok((max_rows, rest)) => Ok(CommandModel::Execute { portal_name, max_rows }),
        },
    }
}

/// The body of a `Parse`: the statement, the SQL and the types of the parameters.
pub open spec fn parse_spec(body: Seq<u8>) -> Result<CommandModel, MessageFormatFault> {
    match read_cstr_spec(body) {
        Err(fault) => payload_fault(fault),
        Ok((statement_name, rest)) => match read_cstr_spec(rest) {
            Err(fault) => payload_fault(fault),
            Ok((sql, rest)) => match param_type_list_spec(rest) {
                Err(fault) => Err(fault),
                Ok((param_types, rest)) => Ok(
                    CommandModel::Parse { statement_name, sql, param_types },
                ),
            },
        },
    }
}

/// The message that the tag and the body make.
pub open spec fn decode_spec(tag: u8, body: Seq<u8>) -> Result<CommandModel, MessageFormatFault> {
    if tag == QUERY {
        query_spec(body)
    } else if tag == BIND {
        bind_spec(body)
    } else if tag == CLOSE {
        close_spec(body)
    } else if tag == DESCRIBE {
        describe_spec(body)
    } else if tag == EXECUTE {
        execute_spec(body)
    } else if tag == FLUSH {
        Ok(CommandModel::Flush)
    } else if tag == PARSE {
        parse_spec(body)
    } else if tag == SYNC {
        Ok(CommandModel::Sync)
    } else if tag == TERMINATE {
        Ok(CommandModel::Terminate)
    } else {
        Err(MessageFormatFault::UnsupportedFrontendMessage(tag as char))
    }
}

/// What a stage does: where the decoder stands afterwards, and what it says.
/// A missing `payload` is read as an empty one.
pub open spec fn next_stage_spec(stage: Stage, payload: Option<Seq<u8>>) -> (
    Stage,
    Result<StatusModel, MessageFormatFault>,
) {
    let buf = match payload {
        Some(bytes) => bytes,
        None => Seq::empty(),
    };
    match stage {
        Stage::Init => (Stage::RequestingTag, Ok(StatusModel::Requesting(1))),
        Stage::RequestingTag => if buf.len() == 0 {
            (Stage::Init, Err(MessageFormatFault::MissingMessageTag))
        } else {
            (Stage::HaveTag(buf[0]), Ok(StatusModel::Requesting(4)))
        },
        Stage::HaveTag(tag) => match read_i32_spec(buf) {
            Err(fault) => (Stage::WaitingPayload(tag), payload_fault(fault)),
            Ok((len, rest)) => (
                Stage::WaitingPayload(tag),
                Ok(StatusModel::Requesting(bytes_after_length(len) as usize)),
            ),
        },
        Stage::WaitingPayload(tag) => (
            Stage::Init,
            match decode_spec(tag, buf) {
                Ok(message) => Ok(StatusModel::Done(message)),
                Err(fault) => Err(fault),
            },
        ),
    }
}

/// Where the decoder stands after it has been handed `chunks`, one at each stage.
pub open spec fn stage_after(stage: Stage, chunks: Seq<Option<Seq<u8>>>) -> Stage
    decreases chunks.len(),
{
    if chunks.len() == 0 {
        stage
    } else {
        next_stage_spec(stage_after(stage, chunks.drop_last()), chunks.last()).0
    }
}

/// What the decoder says when it is handed `chunk` after `chunks`.
pub open spec fn said_after(
    stage: Stage,
    chunks: Seq<Option<Seq<u8>>>,
    chunk: Option<Seq<u8>>,
) -> Result<StatusModel, MessageFormatFault> {
    next_stage_spec(stage_after(stage, chunks), chunk).1
}

/// The message that a stream begins with: the first byte is its tag, the
/// next four are its length, and the rest is its body.
pub open spec fn message_of_stream(stream: Seq<u8>) -> Result<StatusModel, MessageFormatFault> {
    match decode_spec(stream[0], stream.skip(5)) {
        Ok(message) => Ok(StatusModel::Done(message)),
        Err(fault) => Err(fault),
    }
}

/// The decoder is a fold over what it is handed: to hand it two runs of
/// chunks one after the other is to hand it their concatenation.
pub proof fn lemma_stages_fold(
    stage: Stage,
    first: Seq<Option<Seq<u8>>>,
    second: Seq<Option<Seq<u8>>>,
)
    ensures
        stage_after(stage_after(stage, first), second) == stage_after(stage, first + second),
    decreases second.len(),
{
    if second.len() == 0 {
        assert(first + second =~= first);
    } else {
        lemma_stages_fold(stage, first, second.drop_last());
        assert((first + second).drop_last() =~= first + second.drop_last());
        assert((first + second).last() == second.last());
    }
}

/// A decoder that begins a message asks for one byte, then for four, then
/// for as many as the length declares. Handed the stream in those pieces,
/// it says the message that the stream holds, and is ready for the next
/// one: the message depends on the bytes alone, wherever they are cut.
pub proof fn lemma_message_depends_on_stream(tag: Seq<u8>, length: Seq<u8>, body: Seq<u8>)
    requires
        tag.len() == 1,
        length.len() == 4,
    ensures
        said_after(Stage::Init, seq![], None) == Ok::<StatusModel, MessageFormatFault>(
            StatusModel::Requesting(1),
        ),
        said_after(Stage::Init, seq![None], Some(tag)) == Ok::<StatusModel, MessageFormatFault>(
            StatusModel::Requesting(4),
        ),
        said_after(Stage::Init, seq![None, Some(tag)], Some(length)) == Ok::<
            StatusModel,
            MessageFormatFault,
        >(
            StatusModel::Requesting(
                bytes_after_length(crate::wire::be_i32(length) as i32) as usize,
            ),
        ),
        said_after(Stage::Init, seq![None, Some(tag), Some(length)], Some(body))
            == message_of_stream(tag + length + body),
        stage_after(Stage::Init, seq![None, Some(tag), Some(length), Some(body)]) == Stage::Init,
{
    let empty: Seq<Option<Seq<u8>>> = seq![];
    let one = seq![None::<Seq<u8>>];
    let two = seq![None, Some(tag)];
    let three = seq![None, Some(tag), Some(length)];
    let four = seq![None, Some(tag), Some(length), Some(body)];
    assert(one.drop_last() =~= empty);
    assert(two.drop_last() =~= one);
    assert(three.drop_last() =~= two);
    assert(four.drop_last() =~= three);
    assert(stage_after(Stage::Init, empty) == Stage::Init);
    assert(stage_after(Stage::Init, one) == Stage::RequestingTag);
    assert(stage_after(Stage::Init, two) == Stage::HaveTag(tag[0]));
    assert(stage_after(Stage::Init, three) == Stage::WaitingPayload(tag[0]));
    let stream = tag + length + body;
    assert(stream[0] == tag[0]);
    assert(stream.skip(5) =~= body);
}

/// Whether `result` is what `expected` says, each taken by its model.
pub open spec fn status_is(
    result: Result<Status, MessageFormatError>,
    expected: Result<StatusModel, MessageFormatFault>,
) -> bool {
    match expected {
        Ok(status) => result matches Ok(said) && said@ == status,
        Err(fault) => result matches Err(error) && error@ == fault,
    }
}

/// Whether `result` is what `expected` says, each taken by its model.
pub open spec fn message_is(
    result: Result<CommandMessage, MessageFormatError>,
    expected: Result<CommandModel, MessageFormatFault>,
) -> bool {
    match expected {
        Ok(message) => result matches Ok(decoded) && decoded@ == message,
        Err(fault) => result matches Err(error) && error@ == fault,
    }
}

/// A failed read of the body, as an error of the message.
fn payload_error(error: PayloadError) -> (wrapped: MessageFormatError)
    ensures
        wrapped@ == MessageFormatFault::Payload(error@),
{
    MessageFormatError { kind: MessageFormatErrorKind::PayloadError(error) }
}

/// Reads a list of format codes.
fn read_format_list(cursor: &mut Cursor) -> (result: Result<Vec<PgFormat>, MessageFormatError>)
    ensures
        match format_list_spec(old(cursor)@) {
            Ok((formats, rest)) => result matches Ok(read) && read@ == formats && final(cursor)@
                == rest,
            Err(fault) => result matches Err(error) && error@ == fault,
        },
{
    let count: i16 = match cursor.read_i16() {
        Ok(count) => count,
        Err(error) => {
            return Err(payload_error(error));
        },
    };
    let ghost goal = format_list_spec(old(cursor)@);
    let mut formats: Vec<PgFormat> = Vec::new();
    let mut index: i16 = 0;
    while index < count
        invariant
            0 <= index,
            index <= count || count < 0,
            goal == format_list_spec(old(cursor)@),
            formats_spec(cursor@, count - index, formats@) == goal,
        decreases count - index,
    {
        let code: i16 = match cursor.read_i16() {
            Ok(code) => code,
            Err(error) => {
                return Err(payload_error(error));
            },
        };
        let format = match PgFormat::try_from(code) {
            Ok(format) => format,
            Err(error) => {
                return Err(
                    MessageFormatError { kind: MessageFormatErrorKind::UnrecognizedFormat(error) },
                );
            },
        };
        formats.push(format);
        index = index + 1;
    }
    Ok(formats)
}

/// Reads one parameter value.
fn read_raw_param(cursor: &mut Cursor) -> (result: Result<Option<Vec<u8>>, MessageFormatError>)
    ensures
        match raw_param_spec(old(cursor)@) {
            Ok((param, rest)) => result matches Ok(read) && raw_param_model(read) == param
                && final(cursor)@ == rest,
            Err(fault) => result matches Err(error) && error@ == fault,
        },
{
    let len: i32 = match cursor.read_i32() {
        Ok(len) => len,
        Err(error) => {
            return Err(payload_error(error));
        },
    };
    if len == -1 {
        Ok(None)
    } else {
        let count: usize = if len <= 0 {
            0
        } else {
            len as usize
        };
        match cursor.read_bytes(count) {
            Ok(bytes) => Ok(Some(vstd::slice::slice_to_vec(bytes))),
            Err(error) => Err(payload_error(error)),
        }
    }
}

/// Reads a list of parameter values.
fn read_raw_param_list(cursor: &mut Cursor) -> (result: Result<
    Vec<Option<Vec<u8>>>,
    MessageFormatError,
>)
    ensures
        match raw_param_list_spec(old(cursor)@) {
            Ok((params, rest)) => result matches Ok(read) && read@.map_values(
                |param: Option<Vec<u8>>| raw_param_model(param),
            ) == params && final(cursor)@ == rest,
            Err(fault) => result matches Err(error) && error@ == fault,
        },
{
    let count: i16 = match cursor.read_i16() {
        Ok(count) => count,
        Err(error) => {
            return Err(payload_error(error));
        },
    };
    let ghost goal = raw_param_list_spec(old(cursor)@);
    let mut params: Vec<Option<Vec<u8>>> = Vec::new();
    let mut index: i16 = 0;
    assert(params@.map_values(|param: Option<Vec<u8>>| raw_param_model(param)) =~= Seq::empty());
    while index < count
        invariant
            0 <= index,
            index <= count || count < 0,
            goal == raw_param_list_spec(old(cursor)@),
            raw_params_spec(
                cursor@,
                count - index,
                params@.map_values(|param: Option<Vec<u8>>| raw_param_model(param)),
            ) == goal,
        decreases count - index,
    {
        let ghost found = params@.map_values(|param: Option<Vec<u8>>| raw_param_model(param));
        let param = read_raw_param(cursor)?;
        params.push(param);
        assert(params@.map_values(|param: Option<Vec<u8>>| raw_param_model(param)) =~= found.push(
            raw_param_model(param),
        ));
        index = index + 1;
    }
    Ok(params)
}

/// Reads a list of parameter types.
fn read_param_type_list(cursor: &mut Cursor) -> (result: Result<
    Vec<Option<PgType>>,
    MessageFormatError,
>)
    ensures
        match param_type_list_spec(old(cursor)@) {
            Ok((types, rest)) => result matches Ok(read) && read@ == types && final(cursor)@
                == rest,
            Err(fault) => result matches Err(error) && error@ == fault,
        },
{
    let count: i16 = match cursor.read_i16() {
        Ok(count) => count,
        Err(error) => {
            return Err(payload_error(error));
        },
    };
    let ghost goal = param_type_list_spec(old(cursor)@);
    let mut types: Vec<Option<PgType>> = Vec::new();
    let mut index: i16 = 0;
    while index < count
        invariant
            0 <= index,
            index <= count || count < 0,
            goal == param_type_list_spec(old(cursor)@),
            param_types_spec(cursor@, count - index, types@) == goal,
        decreases count - index,
    {
        let oid: u32 = match cursor.read_u32() {
            Ok(oid) => oid,
            Err(error) => {
                return Err(payload_error(error));
            },
        };
        let pg_type = match PgType::from_oid(oid) {
            Ok(pg_type) => pg_type,
            Err(error) => {
                return Err(
                    MessageFormatError { kind: MessageFormatErrorKind::NotSupportedOid(error) },
                );
            },
        };
        types.push(pg_type);
        index = index + 1;
    }
    Ok(types)
}

/// Reads a zero-terminated string into a string of its own.
fn read_name(cursor: &mut Cursor) -> (result: Result<String, MessageFormatError>)
    ensures
        match read_cstr_spec(old(cursor)@) {
            Ok((text, rest)) => result matches Ok(read) && read@ == text && final(cursor)@ == rest,
            Err(fault) => result matches Err(error) && error@ == MessageFormatFault::Payload(
                fault,
            ),
        },
{
    match cursor.read_cstr() {
        Ok(text) => Ok(text.to_owned()),
        Err(error) => Err(payload_error(error)),
    }
}

/// Reads the byte that says what a `Describe` or a `Close` is about, and the name behind it.
fn read_kind_and_name(cursor: &mut Cursor) -> (result: Result<(u8, String), MessageFormatError>)
    ensures
        match kind_and_name_spec(old(cursor)@) {
            Ok((kind, name)) => result matches Ok(read) && read.0 == kind && read.1@ == name,
            Err(fault) => result matches Err(error) && error@ == fault,
        },
{
    let kind: u8 = match cursor.read_byte() {
        Ok(kind) => kind,
        Err(error) => {
            return Err(payload_error(error));
        },
    };
    let name = read_name(cursor)?;
    Ok((kind, name))
}

/// Decodes frontend messages, stage by stage.
///
/// The caller starts a message with `next_stage(None)`, then hands over, each
/// time, a buffer of as many bytes as the decoder asked for, until the
/// decoder says `Done`.
#[derive(Debug)]
pub struct MessageDecoder {
    stage: Stage,
}

impl View for MessageDecoder {
    type V = Stage;

    closed spec fn view(&self) -> Stage {
        self.stage
    }
}

impl Default for MessageDecoder {
    fn default() -> (decoder: MessageDecoder)
        ensures
            decoder@ == Stage::Init,
    {
        MessageDecoder { stage: Stage::Init }
    }
}

impl MessageDecoder {
    /// A decoder that has asked for nothing yet.
    pub fn new() -> (decoder: MessageDecoder)
        ensures
            decoder@ == Stage::Init,
    {
        MessageDecoder { stage: Stage::Init }
    }

    /// Goes on to the next stage of decoding a message.
    pub fn next_stage(&mut self, payload: Option<&[u8]>) -> (result: Result<
        Status,
        MessageFormatError,
    >)
        ensures
            final(self)@ == next_stage_spec(old(self)@, payload_model(payload)).0,
            status_is(result, next_stage_spec(old(self)@, payload_model(payload)).1),
    {
        let empty: [u8; 0] = [];
        let buf: &[u8] = match payload {
            Some(bytes) => bytes,
            None => empty.as_slice(),
        };
        assert(buf@ == match payload_model(payload) {
            Some(bytes) => bytes,
            None => Seq::<u8>::empty(),
        });
        let stage = self.stage;
        match stage {
            Stage::Init => {
                self.stage = Stage::RequestingTag;
                Ok(Status::Requesting(1))
            },
            Stage::RequestingTag => {
                if buf.len() == 0 {
                    self.stage = Stage::Init;
                    Err(MessageFormatError { kind: MessageFormatErrorKind::MissingMessageTag })
                } else {
                    self.stage = Stage::HaveTag(buf[0]);
                    Ok(Status::Requesting(4))
                }
            },
            Stage::HaveTag(tag) => {
                self.stage = Stage::WaitingPayload(tag);
                let mut cursor = Cursor::new(buf);
                match cursor.read_i32() {
                    Ok(len) => Ok(Status::Requesting(rest_of_packet(len))),
                    Err(error) => Err(payload_error(error)),
                }
            },
            Stage::WaitingPayload(tag) => {
                self.stage = Stage::Init;
                match MessageDecoder::decode(tag, buf) {
                    Ok(message) => Ok(Status::Done(message)),
                    Err(error) => Err(error),
                }
            },
        }
    }

    /// Decodes the body of the message that `tag` opens.
    pub fn decode(tag: u8, buffer: &[u8]) -> (result: Result<CommandMessage, MessageFormatError>)
        ensures
            message_is(result, decode_spec(tag, buffer@)),
    {
        let mut cursor = Cursor::new(buffer);
        if tag == QUERY {
            let sql = read_name(&mut cursor)?;
            Ok(CommandMessage::Query { sql })
        } else if tag == BIND {
            let portal_name = read_name(&mut cursor)?;
            let statement_name = read_name(&mut cursor)?;
            let param_formats = read_format_list(&mut cursor)?;
            let raw_params = read_raw_param_list(&mut cursor)?;
            let result_formats = read_format_list(&mut cursor)?;
            Ok(
                CommandMessage::Bind {
                    portal_name,
                    statement_name,
                    param_formats,
                    raw_params,
                    result_formats,
                },
            )
        } else if tag == CLOSE {
            let (kind, name) = read_kind_and_name(&mut cursor)?;
            if kind == PORTAL {
                Ok(CommandMessage::ClosePortal { name })
            } else if kind == STATEMENT {
                Ok(CommandMessage::CloseStatement { name })
            } else {
                Err(
                    MessageFormatError {
                        kind: MessageFormatErrorKind::InvalidTypeByte(kind as char),
                    },
                )
            }
        } else if tag == DESCRIBE {
            let (kind, name) = read_kind_and_name(&mut cursor)?;
            if kind == PORTAL {
                Ok(CommandMessage::DescribePortal { name })
            } else if kind == STATEMENT {
                Ok(CommandMessage::DescribeStatement { name })
            } else {
                Err(
                    MessageFormatError {
                        kind: MessageFormatErrorKind::InvalidTypeByte(kind as char),
                    },
                )
            }
        } else if tag == EXECUTE {
            let portal_name = read_name(&mut cursor)?;
            match cursor.read_i32() {
                Ok(max_rows) => Ok(CommandMessage::Execute { portal_name, max_rows }),
                Err(error) => Err(payload_error(error)),
            }
        } else if tag == FLUSH {
            Ok(CommandMessage::Flush)
        } else if tag == PARSE {
            let statement_name = read_name(&mut cursor)?;
            let sql = read_name(&mut cursor)?;
            let param_types = read_param_type_list(&mut cursor)?;
            Ok(CommandMessage::Parse { statement_name, sql, param_types })
        } else if tag == SYNC {
            Ok(CommandMessage::Sync)
        } else if tag == TERMINATE {
            Ok(CommandMessage::Terminate)
        } else {
            Err(
                MessageFormatError {
                    kind: MessageFormatErrorKind::UnsupportedFrontendMessage(tag as char),
                },
            )
        }
    }
}

/// The model of an optional buffer.
pub open spec fn payload_model(payload: Option<&[u8]>) -> Option<Seq<u8>> {
    match payload {
        Some(bytes) => Some(bytes@),
        None => None,
    }
}

} // verus!
