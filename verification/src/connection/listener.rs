//! What a listener decides while it accepts a client.
//!
//! Accepting a client alternates work on the stream with decisions. The
//! work is the caller's: it reads, writes, flushes and hands the stream to
//! the TLS library. The decisions are made here, one event at a time: the
//! process takes how the last action ended and says what to do next.

use crate::connection::{ConnSupervisor, Encryption, ProtocolConfiguration, SupervisorModel};
use crate::cursor::{read_i32_spec, Cursor};
use crate::errors::{
    HandShakeError, MessageFormatError, MessageFormatErrorKind, MessageFormatFault, ProtocolError,
    ProtocolErrorKind, ProtocolFault,
};
use crate::hand_shake;
use crate::hand_shake::{params_model, Process, ProcessModel, Status, StatusModel};
use crate::messages::{backend_bytes, BackendMessage, BackendModel};
use crate::wire::{bytes_after_length, push_bytes, rest_of_packet};
use crate::{ConnId, ConnSecretKey};
use vstd::prelude::*;
use vstd::string::StringExecFns;

verus! {

/// The model of an [`Event`].
pub enum EventModel {
    Bytes(Seq<u8>),
    Done,
    Secured,
    TlsFailed,
}

/// How the action that the process asked for last has ended. An error of
/// the stream is no event: the caller hands it to the application.
pub enum Event<'a> {
    /// The bytes that were read.
    Bytes(&'a [u8]),
    /// The bytes have been written, or the stream has been flushed.
    Done,
    /// The stream is now encrypted.
    Secured,
    /// The TLS library refused the connection.
    TlsFailed(native_tls::Error),
}

impl<'a> View for Event<'a> {
    type V = EventModel;

    open spec fn view(&self) -> EventModel {
        match self {
            Event::Bytes(bytes) => EventModel::Bytes(bytes@),
            Event::Done => EventModel::Done,
            Event::Secured => EventModel::Secured,
            Event::TlsFailed(error) => EventModel::TlsFailed,
        }
    }
}

/// The model of an [`Action`].
pub enum ActionModel {
    Read(usize),
    Write(Seq<u8>),
    Flush,
    Secure,
    Connect { conn_id: ConnId, secret_key: ConnSecretKey, params: Seq<(Seq<char>, Seq<char>)> },
    QueryCancellation(ConnId),
    Reject(ProtocolFault),
    Abort,
}

/// What the caller is to do next on behalf of a client that is being accepted.
#[derive(Debug)]
pub enum Action {
    /// Read exactly this many bytes from the stream and hand them over.
    Read(usize),
    /// Write all of these bytes to the stream.
    Write(Vec<u8>),
    /// Flush the stream.
    Flush,
    /// Hand the stream to the TLS library and go on with the encrypted one.
    Secure,
    /// The client is connected: open a session with this identifier, this
    /// secret key and these parameters.
    Connect { conn_id: ConnId, secret_key: ConnSecretKey, params: Vec<(String, String)> },
    /// The client cancels what runs on this connection.
    QueryCancellation(ConnId),
    /// The client broke the protocol: end the connection with this error.
    Reject(ProtocolError),
    /// An event came that was not asked for: abort the connection.
    Abort,
}

impl View for Action {
    type V = ActionModel;

    open spec fn view(&self) -> ActionModel {
        match self {
            Action::Read(len) => ActionModel::Read(*len),
            Action::Write(bytes) => ActionModel::Write(bytes@),
            Action::Flush => ActionModel::Flush,
            Action::Secure => ActionModel::Secure,
            Action::Connect { conn_id, secret_key, params } => ActionModel::Connect {
                conn_id: *conn_id,
                secret_key: *secret_key,
                params: params_model(params@),
            },
            Action::QueryCancellation(conn_id) => ActionModel::QueryCancellation(*conn_id),
            Action::Reject(error) => ActionModel::Reject(error@),
            Action::Abort => ActionModel::Abort,
        }
    }
}

/// What the process waits for.
#[derive(Debug, PartialEq, Eq, Structural, Clone, Copy)]
pub enum Phase {
    /// The bytes that the handshake asked for.
    Setup,
    /// The answer to the request for SSL to be written.
    SslAnswer(Encryption),
    /// The TLS library to encrypt the stream.
    Securing,
    /// The request for the password to be written.
    AuthRequest,
    /// The request for the password to be flushed.
    AuthFlush,
    /// The tag of the password message.
    PasswordTag,
    /// The length of the password message.
    PasswordLen,
    /// The body of the password message.
    PasswordBody,
    /// The greeting to be written.
    Greeting,
    /// The key data of this connection to be written.
    KeyData(ConnId, ConnSecretKey),
    /// Nothing: the client has been accepted or turned away.
    Finished,
}

/// The model of an [`AcceptProcess`].
pub struct AcceptModel {
    /// What the process waits for.
    pub phase: Phase,
    /// Where the handshake stands.
    pub handshake: ProcessModel,
    /// Whether the server offers SSL.
    pub ssl: bool,
    /// What the client set at start-up, once the handshake is over.
    pub params: Seq<(Seq<char>, Seq<char>)>,
}

/// What the server sends once the password has come: that the client is
/// authenticated, and the settings that clients ask about.
pub open spec fn greeting_bytes() -> Seq<u8> {
    backend_bytes(BackendModel::AuthenticationOk) + backend_bytes(
        BackendModel::ParameterStatus("client_encoding"@, "UTF8"@),
    ) + backend_bytes(BackendModel::ParameterStatus("DateStyle"@, "ISO"@)) + backend_bytes(
        BackendModel::ParameterStatus("integer_datetimes"@, "off"@),
    ) + backend_bytes(BackendModel::ParameterStatus("server_version"@, "12.4"@))
}

/// What the server sends last: the key data of the connection, and that it is ready.
pub open spec fn key_data_bytes(conn_id: ConnId, secret_key: ConnSecretKey) -> Seq<u8> {
    backend_bytes(BackendModel::BackendKeyData(conn_id, secret_key)) + backend_bytes(
        BackendModel::ReadyForQuery,
    )
}

/// The process as it stands after it has turned the client away or accepted it.
pub open spec fn finished(process: AcceptModel) -> AcceptModel {
    AcceptModel { phase: Phase::Finished, ..process }
}

/// What the handshake's word leads to.
pub open spec fn after_handshake(
    process: AcceptModel,
    supervisor: SupervisorModel,
    handshake: ProcessModel,
    said: Result<StatusModel, crate::errors::HandShakeFault>,
) -> (AcceptModel, ActionModel) {
    match said {
        Ok(StatusModel::RequestingBytes(len)) => (
            AcceptModel { handshake, ..process },
            ActionModel::Read(len),
        ),
        Ok(StatusModel::UpdatingToSecureWithReadingBytes(len)) => {
            let answer = if process.ssl {
                Encryption::AcceptSsl
            } else {
                Encryption::RejectSsl
            };
            (
                AcceptModel { phase: Phase::SslAnswer(answer), handshake, ..process },
                ActionModel::Write(seq![answer.byte_spec()]),
            )
        },
        Ok(StatusModel::Cancel(conn_id, secret_key)) => (
            AcceptModel { phase: Phase::Finished, handshake, ..process },
            if supervisor.verify(conn_id, secret_key) {
                ActionModel::QueryCancellation(conn_id)
            } else {
                ActionModel::Reject(ProtocolFault::SecretKeysHaveNotMatch)
            },
        ),
        Ok(StatusModel::Done(params)) => (
            AcceptModel { phase: Phase::AuthRequest, handshake, params, ..process },
            ActionModel::Write(backend_bytes(BackendModel::AuthenticationCleartextPassword)),
        ),
        Err(fault) => (
            AcceptModel { phase: Phase::Finished, handshake, ..process },
            ActionModel::Reject(ProtocolFault::HandShake(fault)),
        ),
    }
}

/// What an event leads to: the process and the supervisor as they stand
/// afterwards, and the action to take. `secret_key` is the key that is
/// drawn where a connection identifier is allocated.
pub open spec fn step_spec(
    process: AcceptModel,
    event: EventModel,
    supervisor: SupervisorModel,
    secret_key: ConnSecretKey,
) -> (AcceptModel, SupervisorModel, ActionModel) {
    match (process.phase, event) {
        (Phase::Setup, EventModel::Bytes(bytes)) => {
            let next = hand_shake::next_stage_spec(process.handshake, Some(bytes));
            let after = after_handshake(process, supervisor, next.0, next.1);
            (after.0, supervisor, after.1)
        },
        (Phase::SslAnswer(Encryption::AcceptSsl), EventModel::Done) => (
            AcceptModel { phase: Phase::Securing, ..process },
            supervisor,
            ActionModel::Secure,
        ),
        (Phase::SslAnswer(Encryption::RejectSsl), EventModel::Done) => (
            AcceptModel { phase: Phase::Setup, ..process },
            supervisor,
            ActionModel::Read(4),
        ),
        (Phase::Securing, EventModel::Secured) => (
            AcceptModel { phase: Phase::Setup, ..process },
            supervisor,
            ActionModel::Read(4),
        ),
        (Phase::Securing, EventModel::TlsFailed) => (
            finished(process),
            supervisor,
            ActionModel::Reject(ProtocolFault::TlsHandShake),
        ),
        (Phase::AuthRequest, EventModel::Done) => (
            AcceptModel { phase: Phase::AuthFlush, ..process },
            supervisor,
            ActionModel::Flush,
        ),
        (Phase::AuthFlush, EventModel::Done) => (
            AcceptModel { phase: Phase::PasswordTag, ..process },
            supervisor,
            ActionModel::Read(1),
        ),
        (Phase::PasswordTag, EventModel::Bytes(bytes)) => (
            AcceptModel { phase: Phase::PasswordLen, ..process },
            supervisor,
            ActionModel::Read(4),
        ),
        (Phase::PasswordLen, EventModel::Bytes(bytes)) => match read_i32_spec(bytes) {
            Ok((len, rest)) => (
                AcceptModel { phase: Phase::PasswordBody, ..process },
                supervisor,
                ActionModel::Read(bytes_after_length(len) as usize),
            ),
            Err(fault) => (
                finished(process),
                supervisor,
                ActionModel::Reject(
                    ProtocolFault::MessageFormat(MessageFormatFault::Payload(fault)),
                ),
            ),
        },
        (Phase::PasswordBody, EventModel::Bytes(bytes)) => (
            AcceptModel { phase: Phase::Greeting, ..process },
            supervisor,
            ActionModel::Write(greeting_bytes()),
        ),
        (Phase::Greeting, EventModel::Done) => match supervisor.next_conn_id() {
            Some(conn_id) => (
                AcceptModel { phase: Phase::KeyData(conn_id, secret_key), ..process },
                supervisor.after_alloc(secret_key),
                ActionModel::Write(key_data_bytes(conn_id, secret_key)),
            ),
            None => (
                finished(process),
                supervisor,
                ActionModel::Reject(ProtocolFault::ConnectionIdExhausted),
            ),
        },
        (Phase::KeyData(conn_id, secret_key), EventModel::Done) => (
            AcceptModel { phase: Phase::Finished, params: Seq::empty(), ..process },
            supervisor,
            ActionModel::Connect { conn_id, secret_key, params: process.params },
        ),
        _ => (finished(process), supervisor, ActionModel::Abort),
    }
}

/// The status of a parameter, as bytes.
fn parameter_status(name: &str, value: &str) -> (bytes: Vec<u8>)
    ensures
        bytes@ == backend_bytes(BackendModel::ParameterStatus(name@, value@)),
{
    BackendMessage::ParameterStatus(String::from_str(name), String::from_str(value)).as_vec()
}

/// The greeting, as bytes.
fn greeting() -> (bytes: Vec<u8>)
    ensures
        bytes@ == greeting_bytes(),
{
    let mut bytes = BackendMessage::AuthenticationOk.as_vec();
    push_bytes(&mut bytes, parameter_status("client_encoding", "UTF8").as_slice());
    push_bytes(&mut bytes, parameter_status("DateStyle", "ISO").as_slice());
    push_bytes(&mut bytes, parameter_status("integer_datetimes", "off").as_slice());
    push_bytes(&mut bytes, parameter_status("server_version", "12.4").as_slice());
    bytes
}

/// The key data of a connection and the word that the server is ready, as bytes.
fn key_data(conn_id: ConnId, secret_key: ConnSecretKey) -> (bytes: Vec<u8>)
    ensures
        bytes@ == key_data_bytes(conn_id, secret_key),
{
    let mut bytes = BackendMessage::BackendKeyData(conn_id, secret_key).as_vec();
    push_bytes(&mut bytes, BackendMessage::ReadyForQuery.as_vec().as_slice());
    bytes
}

/// Accepts one client: it runs the handshake, answers a request for SSL,
/// checks a request to cancel, asks for the password and greets the client.
#[derive(Debug)]
pub struct AcceptProcess {
    phase: Phase,
    handshake: Process,
    ssl: bool,
    params: Vec<(String, String)>,
}

impl View for AcceptProcess {
    type V = AcceptModel;

    closed spec fn view(&self) -> AcceptModel {
        AcceptModel {
            phase: self.phase,
            handshake: self.handshake@,
            ssl: self.ssl,
            params: params_model(self.params@),
        }
    }
}

impl AcceptProcess {
    /// The process for a client that has just connected to a server with
    /// this configuration, and its first action: to read the length of the
    /// start-up packet.
    pub fn start(config: &ProtocolConfiguration) -> (started: (AcceptProcess, Action))
        ensures
            started.0@ == (AcceptModel {
                phase: Phase::Setup,
                handshake: hand_shake::next_stage_spec(
                    ProcessModel { state: None, secure: false },
                    None,
                ).0,
                ssl: config.has_ssl(),
                params: Seq::empty(),
            }),
            started.1@ == ActionModel::Read(4),
    {
        let ssl = config.ssl_support();
        let mut handshake = Process::start();
        let _ = handshake.next_stage(None);
        let params: Vec<(String, String)> = Vec::new();
        assert(params_model(params@) =~= Seq::empty());
        (AcceptProcess { phase: Phase::Setup, handshake, ssl, params }, Action::Read(4))
    }

    /// Whether the next event may have a connection identifier allocated.
    pub fn draws_key(&self) -> (draws: bool)
        ensures
            draws == (self@.phase == Phase::Greeting),
    {
        match self.phase {
            Phase::Greeting => true,
            _ => false,
        }
    }

    /// Takes how the last action ended and says what to do next. Where a
    /// connection identifier is allocated, which is when the greeting has
    /// been written, its secret key is drawn at random: the outcome is that
    /// of `step_with_key` for the key that was drawn, whichever it is.
    pub fn step(&mut self, event: Event, supervisor: &mut ConnSupervisor) -> (action: Action)
        ensures
            exists|secret_key: ConnSecretKey|
                {
                    &&& final(self)@ == (#[trigger] step_spec(
                        old(self)@,
                        event@,
                        old(supervisor)@,
                        secret_key,
                    )).0
                    &&& final(supervisor)@ == step_spec(
                        old(self)@,
                        event@,
                        old(supervisor)@,
                        secret_key,
                    ).1
                    &&& action@ == step_spec(old(self)@, event@, old(supervisor)@, secret_key).2
                },
            old(self)@.phase != Phase::Greeting ==> {
                &&& final(self)@ == step_spec(old(self)@, event@, old(supervisor)@, 0).0
                &&& final(supervisor)@ == old(supervisor)@
                &&& action@ == step_spec(old(self)@, event@, old(supervisor)@, 0).2
            },
            old(supervisor)@.wf() ==> final(supervisor)@.wf(),
    {
        let secret_key: ConnSecretKey = if self.draws_key() {
            crate::connection::random_secret_key()
        } else {
            0
        };
        let action = self.step_with_key(event, supervisor, secret_key);
        assert(self@ == step_spec(old(self)@, event@, old(supervisor)@, secret_key).0);
        action
    }

    /// Takes how the last action ended and says what to do next, with
    /// `secret_key` as the key of the connection where one is allocated.
    pub fn step_with_key(
        &mut self,
        event: Event,
        supervisor: &mut ConnSupervisor,
        secret_key: ConnSecretKey,
    ) -> (action: Action)
        ensures
            final(self)@ == step_spec(old(self)@, event@, old(supervisor)@, secret_key).0,
            final(supervisor)@ == step_spec(old(self)@, event@, old(supervisor)@, secret_key).1,
            action@ == step_spec(old(self)@, event@, old(supervisor)@, secret_key).2,
            old(supervisor)@.wf() ==> final(supervisor)@.wf(),
    {
        let phase = self.phase;
        match (phase, event) {
            (Phase::Setup, Event::Bytes(bytes)) => {
                let ghost expected = hand_shake::next_stage_spec(old(self)@.handshake, Some(bytes@));
                let said = self.handshake.next_stage(Some(bytes));
                self.after_handshake(said, supervisor, Ghost(old(self)@), Ghost(expected.1))
            },
            (Phase::SslAnswer(Encryption::AcceptSsl), Event::Done) => {
                self.phase = Phase::Securing;
                Action::Secure
            },
            (Phase::SslAnswer(Encryption::RejectSsl), Event::Done) => {
                self.phase = Phase::Setup;
                Action::Read(4)
            },
            (Phase::Securing, Event::Secured) => {
                self.phase = Phase::Setup;
                Action::Read(4)
            },
            (Phase::Securing, Event::TlsFailed(error)) => {
                self.phase = Phase::Finished;
                Action::Reject(ProtocolError { kind: ProtocolErrorKind::TlsHandShake(error) })
            },
            (Phase::AuthRequest, Event::Done) => {
                self.phase = Phase::AuthFlush;
                Action::Flush
            },
            (Phase::AuthFlush, Event::Done) => {
                self.phase = Phase::PasswordTag;
                Action::Read(1)
            },
            (Phase::PasswordTag, Event::Bytes(_)) => {
                self.phase = Phase::PasswordLen;
                Action::Read(4)
            },
            (Phase::PasswordLen, Event::Bytes(bytes)) => {
                let mut cursor = Cursor::new(bytes);
                match cursor.read_i32() {
                    Ok(len) => {
                        self.phase = Phase::PasswordBody;
                        Action::Read(rest_of_packet(len))
                    },
                    Err(error) => {
                        self.phase = Phase::Finished;
                        Action::Reject(
                            ProtocolError {
                                kind: ProtocolErrorKind::MessageFormat(
                                    MessageFormatError {
                                        kind: MessageFormatErrorKind::PayloadError(error),
                                    },
                                ),
                            },
                        )
                    },
                }
            },
            (Phase::PasswordBody, Event::Bytes(_)) => {
                self.phase = Phase::Greeting;
                Action::Write(greeting())
            },
            (Phase::Greeting, Event::Done) => {
                match supervisor.alloc_with_key(secret_key) {
                    Ok((conn_id, secret_key)) => {
                        self.phase = Phase::KeyData(conn_id, secret_key);
                        Action::Write(key_data(conn_id, secret_key))
                    },
                    Err(_) => {
                        self.phase = Phase::Finished;
                        Action::Reject(ProtocolError::connection_id_exhausted())
                    },
                }
            },
            (Phase::KeyData(conn_id, secret_key), Event::Done) => {
                self.phase = Phase::Finished;
                let mut params: Vec<(String, String)> = Vec::new();
                assert(params_model(params@) =~= Seq::empty());
                std::mem::swap(&mut params, &mut self.params);
                Action::Connect { conn_id, secret_key, params }
            },
            _ => {
                self.phase = Phase::Finished;
                Action::Abort
            },
        }
    }

    /// Acts on the handshake's word.
    fn after_handshake(
        &mut self,
        said: Result<Status, HandShakeError>,
        supervisor: &ConnSupervisor,
        Ghost(before): Ghost<AcceptModel>,
        Ghost(expected): Ghost<Result<StatusModel, crate::errors::HandShakeFault>>,
    ) -> (action: Action)
        requires
            hand_shake::status_is(said, expected),
            old(self)@.phase == before.phase,
            old(self)@.ssl == before.ssl,
            old(self)@.params == before.params,
        ensures
            final(self)@ == after_handshake(before, supervisor@, old(self)@.handshake, expected).0,
            action@ == after_handshake(before, supervisor@, old(self)@.handshake, expected).1,
    {
        match said {
            Ok(Status::RequestingBytes(len)) => Action::Read(len),
            Ok(Status::UpdatingToSecureWithReadingBytes(_)) => {
                let answer = if self.ssl {
                    Encryption::AcceptSsl
                } else {
                    Encryption::RejectSsl
                };
                self.phase = Phase::SslAnswer(answer);
                let mut bytes: Vec<u8> = Vec::new();
                bytes.push(answer.as_byte());
                assert(bytes@ =~= seq![answer.byte_spec()]);
                Action::Write(bytes)
            },
            Ok(Status::Cancel(conn_id, secret_key)) => {
                self.phase = Phase::Finished;
                if supervisor.verify(conn_id, secret_key) {
                    Action::QueryCancellation(conn_id)
                } else {
                    Action::Reject(ProtocolError::secret_keys_have_not_matched())
                }
            },
            Ok(Status::Done(params)) => {
                self.phase = Phase::AuthRequest;
                self.params = params;
                Action::Write(BackendMessage::AuthenticationCleartextPassword.as_vec())
            },
            Err(error) => {
                self.phase = Phase::Finished;
                Action::Reject(ProtocolError { kind: ProtocolErrorKind::HandShake(error) })
            },
        }
    }
}

} // verus!
