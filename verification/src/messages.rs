//! The messages that the backend sends, and their bytes.

use crate::types::PgType;
use crate::wire::{
    be_bytes2, be_bytes4, be_i32, lemma_be_bytes4_shift, lemma_i32_round_trip, push_bytes,
    push_i16, push_i32, push_low16, push_low32, push_u32,
};
use crate::{ConnId, ConnSecretKey};
use vstd::prelude::*;
use vstd::utf8::encode_utf8;

verus! {

/// The tag of `CommandComplete`: `C`.
pub const COMMAND_COMPLETE: u8 = 67;

/// The tag of `DataRow`: `D`.
pub const DATA_ROW: u8 = 68;

/// The tag of `ErrorResponse`: `E`.
pub const ERROR_RESPONSE: u8 = 69;

/// Names the severity among the fields of an error: `S`.
pub const SEVERITY: u8 = 83;

/// Names the code among the fields of an error: `C`.
pub const CODE: u8 = 67;

/// Names the message among the fields of an error: `M`.
pub const MESSAGE: u8 = 77;

/// The tag of `EmptyQueryResponse`, and the status of an idle backend: `I`.
pub const EMPTY_QUERY_RESPONSE: u8 = 73;

/// The tag of `NoticeResponse`: `N`.
pub const NOTICE_RESPONSE: u8 = 78;

/// The tag of the authentication messages: `R`.
pub const AUTHENTICATION: u8 = 82;

/// The tag of `BackendKeyData`: `K`.
pub const BACKEND_KEY_DATA: u8 = 75;

/// The tag of `ParameterStatus`: `S`.
pub const PARAMETER_STATUS: u8 = 83;

/// The tag of `RowDescription`: `T`.
pub const ROW_DESCRIPTION: u8 = 84;

/// The tag of `ReadyForQuery`: `Z`.
pub const READY_FOR_QUERY: u8 = 90;

/// The tag of `ParameterDescription`: `t`.
pub const PARAMETER_DESCRIPTION: u8 = 116;

/// The tag of `NoData`: `n`.
pub const NO_DATA: u8 = 110;

/// The tag of `ParseComplete`: `1`.
pub const PARSE_COMPLETE: u8 = 49;

/// The tag of `BindComplete`: `2`.
pub const BIND_COMPLETE: u8 = 50;

/// The tag of `CloseComplete`: `3`.
pub const CLOSE_COMPLETE: u8 = 51;

/// The tag of the frontend's `Query`: `Q`.
pub const QUERY: u8 = 81;

/// The tag of the frontend's `Bind`: `B`.
pub const BIND: u8 = 66;

/// The tag of the frontend's `Close`: `C`.
pub const CLOSE: u8 = 67;

/// The tag of the frontend's `Describe`: `D`.
pub const DESCRIBE: u8 = 68;

/// The tag of the frontend's `Execute`: `E`.
pub const EXECUTE: u8 = 69;

/// The tag of the frontend's `Flush`: `H`.
pub const FLUSH: u8 = 72;

/// The tag of the frontend's `Parse`: `P`.
pub const PARSE: u8 = 80;

/// The tag of the frontend's `Sync`: `S`.
pub const SYNC: u8 = 83;

/// The tag of the frontend's `Terminate`: `X`.
pub const TERMINATE: u8 = 88;

/// Says that a `Describe` or a `Close` is about a portal: `P`.
pub const PORTAL: u8 = 80;

/// Says that a `Describe` or a `Close` is about a prepared statement: `S`.
pub const STATEMENT: u8 = 83;

/// The model of a [`ColumnMetadata`].
pub struct ColumnModel {
    pub name: Seq<char>,
    pub type_id: u32,
    pub type_size: i16,
}

/// How the client is to read one column of the rows that follow.
#[derive(Clone, Debug, PartialEq)]
pub struct ColumnMetadata {
    /// The name of the column, as the query gave it.
    pub name: String,
    /// The object identifier of the column's type.
    pub type_id: u32,
    /// The size of the column's type.
    pub type_size: i16,
}

impl View for ColumnMetadata {
    type V = ColumnModel;

    open spec fn view(&self) -> ColumnModel {
        ColumnModel { name: self.name@, type_id: self.type_id, type_size: self.type_size }
    }
}

impl ColumnMetadata {
    /// The metadata of a column called `name` that holds `pg_type`.
    pub fn new(name: String, pg_type: PgType) -> (column: ColumnMetadata)
        ensures
            column@ == (ColumnModel {
                name: name@,
                type_id: pg_type.oid_spec(),
                type_size: pg_type.len_spec(),
            }),
    {
        ColumnMetadata { name, type_id: pg_type.type_oid(), type_size: pg_type.type_len() }
    }
}

/// The model of a [`BackendMessage`].
pub enum BackendModel {
    NoticeResponse,
    AuthenticationCleartextPassword,
    AuthenticationMD5Password,
    AuthenticationOk,
    BackendKeyData(ConnId, ConnSecretKey),
    ReadyForQuery,
    DataRow(Seq<Seq<char>>),
    RowDescription(Seq<ColumnModel>),
    CommandComplete(Seq<char>),
    EmptyQueryResponse,
    ErrorResponse(Option<Seq<char>>, Option<Seq<char>>, Option<Seq<char>>),
    ParameterStatus(Seq<char>, Seq<char>),
    ParameterDescription(Seq<PgType>),
    NoData,
    ParseComplete,
    BindComplete,
    CloseComplete,
}

/// A message of the backend,
/// see [Protocol Flow](https://www.postgresql.org/docs/current/protocol-flow.html).
#[derive(Debug, PartialEq)]
pub enum BackendMessage {
    /// A warning has been issued. The frontend should display it and go on
    /// listening for `ReadyForQuery` or `ErrorResponse`. The notice carries
    /// no field.
    NoticeResponse,
    /// The frontend must now send its password in clear text.
    AuthenticationCleartextPassword,
    /// The frontend must now send its password hashed with MD5 and the salt
    /// of this message.
    AuthenticationMD5Password,
    /// The authentication exchange has ended well.
    AuthenticationOk,
    /// The key data that the frontend must keep if it wants to cancel
    /// commands later.
    BackendKeyData(ConnId, ConnSecretKey),
    /// Start-up has ended. The frontend can now issue commands.
    ReadyForQuery,
    /// One of the rows that a query returns.
    DataRow(Vec<String>),
    /// The layout of the rows that are about to be returned.
    RowDescription(Vec<ColumnMetadata>),
    /// A command has ended normally.
    CommandComplete(String),
    /// An empty query string was recognised.
    EmptyQueryResponse,
    /// An error has occurred. Holds the severity, the error code and the
    /// message; each may be missing.
    ErrorResponse(Option<&'static str>, Option<&'static str>, Option<String>),
    /// The current setting of a backend parameter, such as `client_encoding`.
    ParameterStatus(String, String),
    /// The parameters that a prepared statement needs.
    ParameterDescription(Vec<PgType>),
    /// The statement will return no rows.
    NoData,
    /// The previous `Parse` has succeeded.
    ParseComplete,
    /// The previous `Bind` has succeeded.
    BindComplete,
    /// The previous `Close` has succeeded.
    CloseComplete,
}

/// The model of an optional static string.
pub open spec fn static_text(text: Option<&'static str>) -> Option<Seq<char>> {
    match text {
        Some(text) => Some(text@),
        None => None,
    }
}

/// The model of an optional string.
pub open spec fn owned_text(text: Option<String>) -> Option<Seq<char>> {
    match text {
        Some(text) => Some(text@),
        None => None,
    }
}

impl View for BackendMessage {
    type V = BackendModel;

    open spec fn view(&self) -> BackendModel {
        match self {
            BackendMessage::NoticeResponse => BackendModel::NoticeResponse,
            BackendMessage::AuthenticationCleartextPassword => BackendModel::AuthenticationCleartextPassword,
            BackendMessage::AuthenticationMD5Password => BackendModel::AuthenticationMD5Password,
            BackendMessage::AuthenticationOk => BackendModel::AuthenticationOk,
            BackendMessage::BackendKeyData(conn_id, secret_key) => BackendModel::BackendKeyData(
                *conn_id,
                *secret_key,
            ),
            BackendMessage::ReadyForQuery => BackendModel::ReadyForQuery,
            BackendMessage::DataRow(row) => BackendModel::DataRow(
                row@.map_values(|field: String| field@),
            ),
            BackendMessage::RowDescription(description) => BackendModel::RowDescription(
                description@.map_values(|column: ColumnMetadata| column@),
            ),
            BackendMessage::CommandComplete(command) => BackendModel::CommandComplete(command@),
            BackendMessage::EmptyQueryResponse => BackendModel::EmptyQueryResponse,
            BackendMessage::ErrorResponse(severity, code, message) => BackendModel::ErrorResponse(
                static_text(*severity),
                static_text(*code),
                owned_text(*message),
            ),
            BackendMessage::ParameterStatus(name, value) => BackendModel::ParameterStatus(
                name@,
                value@,
            ),
            BackendMessage::ParameterDescription(pg_types) => BackendModel::ParameterDescription(
                pg_types@,
            ),
            BackendMessage::NoData => BackendModel::NoData,
            BackendMessage::ParseComplete => BackendModel::ParseComplete,
            BackendMessage::BindComplete => BackendModel::BindComplete,
            BackendMessage::CloseComplete => BackendModel::CloseComplete,
        }
    }
}

/// A tagged message: the tag, the length of what follows the tag as a
/// big-endian `i32` that counts itself, and the body.
pub open spec fn frame(tag: u8, body: Seq<u8>) -> Seq<u8> {
    seq![tag] + be_bytes4(4 + body.len() as int) + body
}

/// A string followed by the zero byte that ends it.
pub open spec fn cstr(text: Seq<char>) -> Seq<u8> {
    encode_utf8(text) + seq![0u8]
}

/// The fields of a data row: each is its length as a big-endian `i32`, then its bytes.
pub open spec fn data_fields(row: Seq<Seq<char>>) -> Seq<u8>
    decreases row.len(),
{
    if row.len() == 0 {
        Seq::empty()
    } else {
        data_fields(row.drop_last()) + be_bytes4(encode_utf8(row.last()).len() as int)
            + encode_utf8(row.last())
    }
}

/// One column of a row description: its name, then the table, the column
/// number, the type, the type's size, the type modifier and the format.
pub open spec fn column_bytes(column: ColumnModel) -> Seq<u8> {
    cstr(column.name) + be_bytes4(0) + be_bytes2(0) + be_bytes4(column.type_id as int) + be_bytes2(
        column.type_size as int,
    ) + be_bytes4(-1) + be_bytes2(0)
}

/// The columns of a row description, one after the other.
pub open spec fn columns_bytes(columns: Seq<ColumnModel>) -> Seq<u8>
    decreases columns.len(),
{
    if columns.len() == 0 {
        Seq::empty()
    } else {
        columns_bytes(columns.drop_last()) + column_bytes(columns.last())
    }
}

/// The object identifiers of `pg_types`, each as a big-endian `u32`.
pub open spec fn type_oids(pg_types: Seq<PgType>) -> Seq<u8>
    decreases pg_types.len(),
{
    if pg_types.len() == 0 {
        Seq::empty()
    } else {
        type_oids(pg_types.drop_last()) + be_bytes4(pg_types.last().oid_spec() as int)
    }
}

/// One field of an error response where `text` is there: the byte that
/// names the field, then the text as a zero-terminated string.
pub open spec fn error_field(code: u8, text: Option<Seq<char>>) -> Seq<u8> {
    match text {
        Some(text) => seq![code] + cstr(text),
        None => Seq::empty(),
    }
}

/// The byte that opens each backend message.
pub open spec fn backend_tag(message: BackendModel) -> u8 {
    match message {
        BackendModel::NoticeResponse => NOTICE_RESPONSE,
        BackendModel::AuthenticationCleartextPassword => AUTHENTICATION,
        BackendModel::AuthenticationMD5Password => AUTHENTICATION,
        BackendModel::AuthenticationOk => AUTHENTICATION,
        BackendModel::BackendKeyData(conn_id, secret_key) => BACKEND_KEY_DATA,
        BackendModel::ReadyForQuery => READY_FOR_QUERY,
        BackendModel::DataRow(row) => DATA_ROW,
        BackendModel::RowDescription(columns) => ROW_DESCRIPTION,
        BackendModel::CommandComplete(command) => COMMAND_COMPLETE,
        BackendModel::EmptyQueryResponse => EMPTY_QUERY_RESPONSE,
        BackendModel::ErrorResponse(severity, code, message) => ERROR_RESPONSE,
        BackendModel::ParameterStatus(name, value) => PARAMETER_STATUS,
        BackendModel::ParameterDescription(pg_types) => PARAMETER_DESCRIPTION,
        BackendModel::NoData => NO_DATA,
        BackendModel::ParseComplete => PARSE_COMPLETE,
        BackendModel::BindComplete => BIND_COMPLETE,
        BackendModel::CloseComplete => CLOSE_COMPLETE,
    }
}

/// What each backend message holds after its tag and its length.
pub open spec fn backend_body(message: BackendModel) -> Seq<u8> {
    match message {
        BackendModel::NoticeResponse => seq![0u8],
        BackendModel::AuthenticationCleartextPassword => be_bytes4(3),
        BackendModel::AuthenticationMD5Password => be_bytes4(5) + seq![1u8, 1u8, 1u8, 1u8],
        BackendModel::AuthenticationOk => be_bytes4(0),
        BackendModel::BackendKeyData(conn_id, secret_key) => be_bytes4(conn_id as int) + be_bytes4(
            secret_key as int,
        ),
        BackendModel::ReadyForQuery => seq![EMPTY_QUERY_RESPONSE],
        BackendModel::DataRow(row) => be_bytes2(row.len() as int) + data_fields(row),
        BackendModel::RowDescription(columns) => be_bytes2(columns.len() as int) + columns_bytes(
            columns,
        ),
        BackendModel::CommandComplete(command) => cstr(command),
        BackendModel::EmptyQueryResponse => Seq::empty(),
        BackendModel::ErrorResponse(severity, code, message) => error_field(SEVERITY, severity)
            + error_field(CODE, code) + error_field(MESSAGE, message) + seq![0u8],
        BackendModel::ParameterStatus(name, value) => cstr(name) + cstr(value),
        BackendModel::ParameterDescription(pg_types) => be_bytes2(pg_types.len() as int)
            + type_oids(pg_types),
        BackendModel::NoData => Seq::empty(),
        BackendModel::ParseComplete => Seq::empty(),
        BackendModel::BindComplete => Seq::empty(),
        BackendModel::CloseComplete => Seq::empty(),
    }
}

/// The bytes of each backend message: its tag, the length of what follows
/// the tag, and its body.
pub open spec fn backend_bytes(message: BackendModel) -> Seq<u8> {
    frame(backend_tag(message), backend_body(message))
}

/// A frame declares, after its tag, the number of bytes that follow the tag.
pub proof fn lemma_frame_length(tag: u8, body: Seq<u8>)
    requires
        4 + body.len() <= i32::MAX,
    ensures
        frame(tag, body).len() == 5 + body.len(),
        frame(tag, body)[0] == tag,
        be_i32(frame(tag, body).subrange(1, 5)) == 4 + body.len(),
        frame(tag, body).skip(5) == body,
{
    let declared = 4 + body.len() as int;
    lemma_i32_round_trip(declared);
    assert(frame(tag, body).subrange(1, 5) =~= be_bytes4(declared));
    assert(frame(tag, body).skip(5) =~= body);
}

/// Every message declares, after its tag, the number of bytes that follow
/// the tag, and that number is at least four. The declaration is a signed
/// 32-bit integer, so this is stated of the messages that it can measure.
pub proof fn lemma_declared_length(message: BackendModel)
    requires
        backend_bytes(message).len() - 1 <= i32::MAX,
    ensures
        backend_bytes(message).len() >= 5,
        backend_bytes(message)[0] == backend_tag(message),
        be_i32(backend_bytes(message).subrange(1, 5)) == backend_bytes(message).len() - 1,
        be_i32(backend_bytes(message).subrange(1, 5)) >= 4,
{
    lemma_frame_length(backend_tag(message), backend_body(message));
}

/// The length that a message declares after its tag.
pub open spec fn declared_length(message: BackendModel) -> int {
    be_i32(backend_bytes(message).subrange(1, 5))
}

/// The messages without a body declare four bytes, the word that the
/// backend is ready and the notice without fields five, the plain
/// authentication messages eight, and the key data and the salted
/// authentication twelve.
pub proof fn lemma_lengths_of_fixed_messages(conn_id: ConnId, secret_key: ConnSecretKey)
    ensures
        declared_length(BackendModel::EmptyQueryResponse) == 4,
        declared_length(BackendModel::NoData) == 4,
        declared_length(BackendModel::ParseComplete) == 4,
        declared_length(BackendModel::BindComplete) == 4,
        declared_length(BackendModel::CloseComplete) == 4,
        declared_length(BackendModel::ReadyForQuery) == 5,
        declared_length(BackendModel::NoticeResponse) == 5,
        declared_length(BackendModel::AuthenticationOk) == 8,
        declared_length(BackendModel::AuthenticationCleartextPassword) == 8,
        declared_length(BackendModel::AuthenticationMD5Password) == 12,
        declared_length(BackendModel::BackendKeyData(conn_id, secret_key)) == 12,
{
    lemma_declared_length(BackendModel::EmptyQueryResponse);
    lemma_declared_length(BackendModel::NoData);
    lemma_declared_length(BackendModel::ParseComplete);
    lemma_declared_length(BackendModel::BindComplete);
    lemma_declared_length(BackendModel::CloseComplete);
    lemma_declared_length(BackendModel::ReadyForQuery);
    lemma_declared_length(BackendModel::NoticeResponse);
    lemma_declared_length(BackendModel::AuthenticationOk);
    lemma_declared_length(BackendModel::AuthenticationCleartextPassword);
    lemma_declared_length(BackendModel::AuthenticationMD5Password);
    lemma_declared_length(BackendModel::BackendKeyData(conn_id, secret_key));
}

/// Frames `body` behind `tag`.
fn framed(tag: u8, body: &Vec<u8>) -> (bytes: Vec<u8>)
    ensures
        bytes@ == frame(tag, body@),
{
    let mut bytes: Vec<u8> = Vec::new();
    bytes.push(tag);
    let low: u64 = (body.len() as u64) % 0x1_0000_0000;
    proof {
        let len = body@.len() as int;
        assert(low + 4 == (len + 4) + (-(len / 0x1_0000_0000)) * 0x1_0000_0000);
        lemma_be_bytes4_shift(len + 4, -(len / 0x1_0000_0000));
    }
    push_low32(&mut bytes, low + 4);
    push_bytes(&mut bytes, body.as_slice());
    assert(bytes@ =~= frame(tag, body@));
    bytes
}

/// Appends `text` and the zero byte that ends it.
fn push_cstr(buffer: &mut Vec<u8>, text: &str)
    ensures
        final(buffer)@ == old(buffer)@ + cstr(text@),
{
    push_bytes(buffer, text.as_bytes());
    buffer.push(0);
    assert(buffer@ =~= old(buffer)@ + cstr(text@));
}

impl BackendMessage {
    /// The bytes of this message as they go over the wire.
    pub fn as_vec(&self) -> (bytes: Vec<u8>)
        ensures
            bytes@ == backend_bytes(self@),
    {
        match self {
            BackendMessage::NoticeResponse => {
                let mut body: Vec<u8> = Vec::new();
                body.push(0);
                assert(body@ =~= seq![0u8]);
                framed(NOTICE_RESPONSE, &body)
            },
            BackendMessage::AuthenticationCleartextPassword => {
                let mut body: Vec<u8> = Vec::new();
                push_i32(&mut body, 3);
                assert(body@ =~= be_bytes4(3));
                framed(AUTHENTICATION, &body)
            },
            BackendMessage::AuthenticationMD5Password => {
                let mut body: Vec<u8> = Vec::new();
                push_i32(&mut body, 5);
                body.push(1);
                body.push(1);
                body.push(1);
                body.push(1);
                assert(body@ =~= be_bytes4(5) + seq![1u8, 1u8, 1u8, 1u8]);
                framed(AUTHENTICATION, &body)
            },
            BackendMessage::AuthenticationOk => {
                let mut body: Vec<u8> = Vec::new();
                push_i32(&mut body, 0);
                assert(body@ =~= be_bytes4(0));
                framed(AUTHENTICATION, &body)
            },
            BackendMessage::BackendKeyData(conn_id, secret_key) => {
                let mut body: Vec<u8> = Vec::new();
                push_i32(&mut body, *conn_id);
                push_i32(&mut body, *secret_key);
                assert(body@ =~= be_bytes4(*conn_id as int) + be_bytes4(*secret_key as int));
                framed(BACKEND_KEY_DATA, &body)
            },
            BackendMessage::ReadyForQuery => {
                let mut body: Vec<u8> = Vec::new();
                body.push(EMPTY_QUERY_RESPONSE);
                assert(body@ =~= seq![EMPTY_QUERY_RESPONSE]);
                framed(READY_FOR_QUERY, &body)
            },
            BackendMessage::DataRow(row) => {
                let ghost fields = row@.map_values(|field: String| field@);
                let mut body: Vec<u8> = Vec::new();
                push_low16(&mut body, row.len() as u64);
                let ghost head = body@;
                let mut index: usize = 0;
                while index < row.len()
                    invariant
                        index <= row@.len(),
                        fields == row@.map_values(|field: String| field@),
                        head == be_bytes2(row@.len() as int),
                        body@ == head + data_fields(fields.take(index as int)),
                    decreases row@.len() - index,
                {
                    let field: &[u8] = row[index].as_str().as_bytes();
                    push_low32(&mut body, field.len() as u64);
                    push_bytes(&mut body, field);
                    proof {
                        let next = fields.take(index + 1);
                        assert(next.drop_last() =~= fields.take(index as int));
                        assert(next.last() == row@[index as int]@);
                    }
                    index = index + 1;
                }
                assert(fields.take(index as int) =~= fields);
                framed(DATA_ROW, &body)
            },
            BackendMessage::RowDescription(description) => {
                let ghost columns = description@.map_values(|column: ColumnMetadata| column@);
                let mut body: Vec<u8> = Vec::new();
                push_low16(&mut body, description.len() as u64);
                let ghost head = body@;
                let mut index: usize = 0;
                while index < description.len()
                    invariant
                        index <= description@.len(),
                        columns == description@.map_values(|column: ColumnMetadata| column@),
                        head == be_bytes2(description@.len() as int),
                        body@ == head + columns_bytes(columns.take(index as int)),
                    decreases description@.len() - index,
                {
                    let ghost before = body@;
                    let column = &description[index];
                    push_cstr(&mut body, column.name.as_str());
                    push_i32(&mut body, 0);
                    push_i16(&mut body, 0);
                    push_u32(&mut body, column.type_id);
                    push_i16(&mut body, column.type_size);
                    push_i32(&mut body, -1);
                    push_i16(&mut body, 0);
                    proof {
                        let next = columns.take(index + 1);
                        assert(next.drop_last() =~= columns.take(index as int));
                        assert(next.last() == description@[index as int]@);
                        assert(body@ =~= before + column_bytes(next.last()));
                    }
                    index = index + 1;
                }
                assert(columns.take(index as int) =~= columns);
                framed(ROW_DESCRIPTION, &body)
            },
            BackendMessage::CommandComplete(command) => {
                let mut body: Vec<u8> = Vec::new();
                push_cstr(&mut body, command.as_str());
                assert(body@ =~= cstr(command@));
                framed(COMMAND_COMPLETE, &body)
            },
            BackendMessage::EmptyQueryResponse => {
                let body: Vec<u8> = Vec::new();
                framed(EMPTY_QUERY_RESPONSE, &body)
            },
            BackendMessage::ErrorResponse(severity, code, message) => {
                let mut body: Vec<u8> = Vec::new();
                if let Some(severity) = severity {
                    body.push(SEVERITY);
                    push_cstr(&mut body, severity);
                }
                assert(body@ =~= error_field(SEVERITY, static_text(*severity)));
                if let Some(code) = code {
                    body.push(CODE);
                    push_cstr(&mut body, code);
                }
                assert(body@ =~= error_field(SEVERITY, static_text(*severity)) + error_field(
                    CODE,
                    static_text(*code),
                ));
                if let Some(message) = message {
                    body.push(MESSAGE);
                    push_cstr(&mut body, message.as_str());
                }
                assert(body@ =~= error_field(SEVERITY, static_text(*severity)) + error_field(
                    CODE,
                    static_text(*code),
                ) + error_field(MESSAGE, owned_text(*message)));
                body.push(0);
                framed(ERROR_RESPONSE, &body)
            },
            BackendMessage::ParameterStatus(name, value) => {
                let mut body: Vec<u8> = Vec::new();
                push_cstr(&mut body, name.as_str());
                push_cstr(&mut body, value.as_str());
                assert(body@ =~= cstr(name@) + cstr(value@));
                framed(PARAMETER_STATUS, &body)
            },
            BackendMessage::ParameterDescription(pg_types) => {
                let mut body: Vec<u8> = Vec::new();
                push_low16(&mut body, pg_types.len() as u64);
                let ghost head = body@;
                let mut index: usize = 0;
                while index < pg_types.len()
                    invariant
                        index <= pg_types@.len(),
                        head == be_bytes2(pg_types@.len() as int),
                        body@ == head + type_oids(pg_types@.take(index as int)),
                    decreases pg_types@.len() - index,
                {
                    push_u32(&mut body, pg_types[index].type_oid());
                    proof {
                        let next = pg_types@.take(index + 1);
                        assert(next.drop_last() =~= pg_types@.take(index as int));
                    }
                    index = index + 1;
                }
                assert(pg_types@.take(index as int) =~= pg_types@);
                framed(PARAMETER_DESCRIPTION, &body)
            },
            BackendMessage::NoData => {
                let body: Vec<u8> = Vec::new();
                framed(NO_DATA, &body)
            },
            BackendMessage::ParseComplete => {
                let body: Vec<u8> = Vec::new();
                framed(PARSE_COMPLETE, &body)
            },
            BackendMessage::BindComplete => {
                let body: Vec<u8> = Vec::new();
                framed(BIND_COMPLETE, &body)
            },
            BackendMessage::CloseComplete => {
                let body: Vec<u8> = Vec::new();
                framed(CLOSE_COMPLETE, &body)
            },
        }
    }
}

} // verus!
