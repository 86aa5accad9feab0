//! The handshake between a client and the server.
//!
//! A start-up packet is a length of four bytes that counts itself, a request
//! code of four bytes and what the code calls for. The process never reads:
//! it says how many bytes it needs next, and is handed exactly those.

use crate::cursor::{lemma_cstr_shrinks, read_cstr_spec, read_i32_spec, Cursor};
use crate::errors::{HandShakeError, HandShakeErrorKind, HandShakeFault, PayloadError, PayloadFault};
use crate::request_codes::{
    Code, CANCEL_REQUEST_CODE, SSL_REQUEST_CODE, VERSION_1_CODE, VERSION_2_CODE, VERSION_3_CODE,
};
use crate::wire::{bytes_after_length, rest_of_packet};
use crate::{ConnId, ConnSecretKey};
use vstd::prelude::*;

verus! {

/// What the process waits for.
#[derive(Debug, PartialEq, Eq, Structural, Clone, Copy)]
pub enum State {
    /// The length of a start-up packet.
    MessageLen,
    /// What a start-up packet holds after its length.
    ParseSetup,
}

/// What the server is asked to do next.
#[derive(Debug, PartialEq, Eq, Structural, Clone, Copy)]
pub enum Request {
    /// Hand over a buffer of this many bytes.
    Buffer(usize),
    /// Answer the request for SSL on the connection's stream.
    UpgradeToSsl,
}

/// The model of a [`Status`]: the parameters are pairs of character sequences.
pub enum StatusModel {
    RequestingBytes(usize),
    UpdatingToSecureWithReadingBytes(usize),
    Done(Seq<(Seq<char>, Seq<char>)>),
    Cancel(ConnId, ConnSecretKey),
}

/// What the process has to say after a stage.
#[derive(Debug, PartialEq)]
pub enum Status {
    /// The process asks for more bytes.
    RequestingBytes(usize),
    /// The client asks for SSL. The server answers on the stream, and the
    /// process asks for more bytes, to be read from the stream as it then is.
    UpdatingToSecureWithReadingBytes(usize),
    /// The handshake is over. Holds what the client set, such as the
    /// database and the user.
    Done(Vec<(String, String)>),
    /// The client asks to cancel what runs on a connection.
    Cancel(ConnId, ConnSecretKey),
}

/// The model of a pair of strings.
pub open spec fn pair_model(pair: (String, String)) -> (Seq<char>, Seq<char>) {
    (pair.0@, pair.1@)
}

/// The model of a list of pairs of strings.
pub open spec fn params_model(params: Seq<(String, String)>) -> Seq<(Seq<char>, Seq<char>)> {
    params.map_values(|pair: (String, String)| pair_model(pair))
}

impl View for Status {
    type V = StatusModel;

    open spec fn view(&self) -> StatusModel {
        match self {
            Status::RequestingBytes(len) => StatusModel::RequestingBytes(*len),
            Status::UpdatingToSecureWithReadingBytes(
                len,
            ) => StatusModel::UpdatingToSecureWithReadingBytes(*len),
            Status::Done(params) => StatusModel::Done(params_model(params@)),
            Status::Cancel(conn_id, secret_key) => StatusModel::Cancel(*conn_id, *secret_key),
        }
    }
}

impl Status {
    /// What this status asks of the server, if it asks for anything.
    pub fn request(&self) -> (request: Option<Request>)
        ensures
            request == match self@ {
                StatusModel::RequestingBytes(len) => Some(Request::Buffer(len)),
                StatusModel::UpdatingToSecureWithReadingBytes(len) => Some(Request::UpgradeToSsl),
                StatusModel::Done(params) => None,
                StatusModel::Cancel(conn_id, secret_key) => None,
            },
    {
        match self {
            Status::RequestingBytes(len) => Some(Request::Buffer(*len)),
            Status::UpdatingToSecureWithReadingBytes(_) => Some(Request::UpgradeToSsl),
            Status::Done(_) => None,
            Status::Cancel(_, _) => None,
        }
    }
}

/// The model of a [`Process`].
pub struct ProcessModel {
    /// What the process waits for; nothing before the first stage and after the last.
    pub state: Option<State>,
    /// Whether the client has asked for SSL in this handshake.
    pub secure: bool,
}

/// The pairs of name and value that follow those already `found`, up to the
/// empty name that ends the list.
pub open spec fn params_spec(bytes: Seq<u8>, found: Seq<(Seq<char>, Seq<char>)>) -> Result<
    Seq<(Seq<char>, Seq<char>)>,
    PayloadFault,
>
    decreases bytes.len(),
{
    match read_cstr_spec(bytes) {
        Err(fault) => Err(fault),
        Ok((key, rest)) => if key.len() == 0 {
            Ok(found)
        } else {
            match read_cstr_spec(rest) {
                Err(fault) => Err(fault),
                Ok((value, rest2)) => {
                    proof {
                        lemma_cstr_shrinks(bytes);
                        lemma_cstr_shrinks(rest);
                    }
                    params_spec(rest2, found.push((key, value)))
                },
            }
        },
    }
}

/// The connection and the secret that a cancel request names.
pub open spec fn cancel_spec(bytes: Seq<u8>) -> Result<StatusModel, HandShakeFault> {
    match read_i32_spec(bytes) {
        Err(fault) => Err(HandShakeFault::Payload(fault)),
        Ok((conn_id, rest)) => match read_i32_spec(rest) {
            Err(fault) => Err(HandShakeFault::Payload(fault)),
            Ok((secret_key, rest)) => Ok(StatusModel::Cancel(conn_id, secret_key)),
        },
    }
}

/// What a start-up packet asks for, where `secure` says that SSL was asked
/// for before. A request for SSL is served once.
pub open spec fn setup_spec(bytes: Seq<u8>, secure: bool) -> Result<StatusModel, HandShakeFault> {
    match read_i32_spec(bytes) {
        Err(fault) => Err(HandShakeFault::Payload(fault)),
        Ok((code, rest)) => if code == VERSION_1_CODE || code == VERSION_2_CODE {
            Err(HandShakeFault::UnsupportedProtocolVersion(Code(code)))
        } else if code == VERSION_3_CODE {
            match params_spec(rest, Seq::empty()) {
                Err(fault) => Err(HandShakeFault::Payload(fault)),
                Ok(params) => Ok(StatusModel::Done(params)),
            }
        } else if code == CANCEL_REQUEST_CODE {
            cancel_spec(rest)
        } else if code == SSL_REQUEST_CODE && !secure {
            Ok(StatusModel::UpdatingToSecureWithReadingBytes(4))
        } else {
            Err(HandShakeFault::UnsupportedClientRequest(Code(code)))
        },
    }
}

/// What the process says at a stage. Without a state or without a payload
/// it asks for the length of a start-up packet.
pub open spec fn said_spec(process: ProcessModel, payload: Option<Seq<u8>>) -> Result<
    StatusModel,
    HandShakeFault,
> {
    match (process.state, payload) {
        (Some(State::MessageLen), Some(bytes)) => match read_i32_spec(bytes) {
            Err(fault) => Err(HandShakeFault::Payload(fault)),
            Ok((len, rest)) => Ok(StatusModel::RequestingBytes(bytes_after_length(len) as usize)),
        },
        (Some(State::ParseSetup), Some(bytes)) => setup_spec(bytes, process.secure),
        _ => Ok(StatusModel::RequestingBytes(4)),
    }
}

/// Where the process stands after it has said `said`: it waits for what it
/// asked for, and is as new once the handshake has ended, well or not.
pub open spec fn after_spec(
    process: ProcessModel,
    payload: Option<Seq<u8>>,
    said: Result<StatusModel, HandShakeFault>,
) -> ProcessModel {
    match said {
        Ok(StatusModel::RequestingBytes(len)) => if process.state == Some(State::MessageLen)
            && payload is Some {
            ProcessModel { state: Some(State::ParseSetup), secure: process.secure }
        } else {
            ProcessModel { state: Some(State::MessageLen), secure: process.secure }
        },
        Ok(StatusModel::UpdatingToSecureWithReadingBytes(len)) => ProcessModel {
            state: Some(State::MessageLen),
            secure: true,
        },
        _ => ProcessModel { state: None, secure: false },
    }
}

/// What a stage does: where the process stands afterwards, and what it says.
pub open spec fn next_stage_spec(process: ProcessModel, payload: Option<Seq<u8>>) -> (
    ProcessModel,
    Result<StatusModel, HandShakeFault>,
) {
    (after_spec(process, payload, said_spec(process, payload)), said_spec(process, payload))
}

/// Whether every pair has a name that is not empty.
pub open spec fn names_not_empty(params: Seq<(Seq<char>, Seq<char>)>) -> bool {
    forall|i: int| 0 <= i < params.len() ==> (#[trigger] params[i]).0.len() > 0
}

/// The list of parameters ends at the first empty name: every name that
/// was read before is not empty.
pub proof fn lemma_param_names_not_empty(bytes: Seq<u8>, found: Seq<(Seq<char>, Seq<char>)>)
    requires
        names_not_empty(found),
    ensures
        params_spec(bytes, found) matches Ok(params) ==> names_not_empty(params),
    decreases bytes.len(),
{
    match read_cstr_spec(bytes) {
        Err(fault) => {},
        Ok((key, rest)) => {
            if key.len() != 0 {
                match read_cstr_spec(rest) {
                    Err(fault) => {},
                    Ok((value, rest2)) => {
                        lemma_cstr_shrinks(bytes);
                        lemma_cstr_shrinks(rest);
                        lemma_param_names_not_empty(rest2, found.push((key, value)));
                    },
                }
            }
        },
    }
}

/// Whatever the process was handed, a handshake that ends in `Done` has
/// given every parameter a name that is not empty.
pub proof fn lemma_done_names_not_empty(process: ProcessModel, payload: Option<Seq<u8>>)
    ensures
        next_stage_spec(process, payload).1 matches Ok(StatusModel::Done(params))
            ==> names_not_empty(params),
{
    if process.state == Some(State::ParseSetup) && payload is Some {
        let bytes = payload->0;
        match read_i32_spec(bytes) {
            Err(fault) => {},
            Ok((code, rest)) => {
                lemma_param_names_not_empty(rest, Seq::empty());
            },
        }
    }
}

/// Whether `result` is what `expected` says, each taken by its model.
pub open spec fn status_is(
    result: Result<Status, HandShakeError>,
    expected: Result<StatusModel, HandShakeFault>,
) -> bool {
    match expected {
        Ok(status) => result matches Ok(said) && said@ == status,
        Err(fault) => result matches Err(error) && error@ == fault,
    }
}

/// The model of an optional buffer.
pub open spec fn payload_model(payload: Option<&[u8]>) -> Option<Seq<u8>> {
    match payload {
        Some(bytes) => Some(bytes@),
        None => None,
    }
}

/// A failed read of the packet, as an error of the handshake.
fn payload_error(error: PayloadError) -> (wrapped: HandShakeError)
    ensures
        wrapped@ == HandShakeFault::Payload(error@),
{
    HandShakeError { kind: HandShakeErrorKind::PayloadError(error) }
}

/// Reads the parameters of a start-up packet.
fn read_params(cursor: &mut Cursor) -> (result: Result<Vec<(String, String)>, PayloadError>)
    ensures
        match params_spec(old(cursor)@, Seq::empty()) {
            Ok(params) => result matches Ok(read) && params_model(read@) == params,
            Err(fault) => result matches Err(error) && error@ == fault,
        },
{
    let ghost goal = params_spec(old(cursor)@, Seq::empty());
    let mut props: Vec<(String, String)> = Vec::new();
    assert(params_model(props@) =~= Seq::empty());
    loop
        invariant
            goal == params_spec(old(cursor)@, Seq::empty()),
            params_spec(cursor@, params_model(props@)) == goal,
        decreases cursor@.len(),
    {
        let ghost before = cursor@;
        let ghost found = params_model(props@);
        let key = cursor.read_cstr()?.to_owned();
        if key.as_str().is_empty() {
            return Ok(props);
        }
        let ghost middle = cursor@;
        let value = cursor.read_cstr()?.to_owned();
        proof {
            lemma_cstr_shrinks(before);
            lemma_cstr_shrinks(middle);
        }
        props.push((key, value));
        assert(params_model(props@) =~= found.push((key@, value@)));
    }
}

/// Drives the handshake between a client and the server.
///
/// The server starts with `next_stage(None)`, then hands over, each time, a
/// buffer of as many bytes as the process asked for, until the process says
/// `Done` or `Cancel` or fails.
#[derive(Debug)]
pub struct Process {
    state: Option<State>,
    secure: bool,
}

impl View for Process {
    type V = ProcessModel;

    closed spec fn view(&self) -> ProcessModel {
        ProcessModel { state: self.state, secure: self.secure }
    }
}

impl Process {
    /// A process that has asked for nothing yet.
    pub fn start() -> (process: Process)
        ensures
            process@ == (ProcessModel { state: None, secure: false }),
    {
        Process { state: None, secure: false }
    }

    /// Goes on to the next stage of the handshake.
    pub fn next_stage(&mut self, payload: Option<&[u8]>) -> (result: Result<
        Status,
        HandShakeError,
    >)
        ensures
            final(self)@ == next_stage_spec(old(self)@, payload_model(payload)).0,
            status_is(result, next_stage_spec(old(self)@, payload_model(payload)).1),
            result matches Ok(Status::Done(params)) ==> names_not_empty(params_model(params@)),
    {
        proof {
            lemma_done_names_not_empty(self@, payload_model(payload));
        }
        let state = self.state;
        match (state, payload) {
            (Some(State::MessageLen), Some(bytes)) => {
                let mut buffer = Cursor::new(bytes);
                match buffer.read_i32() {
                    Ok(len) => {
                        self.state = Some(State::ParseSetup);
                        Ok(Status::RequestingBytes(rest_of_packet(len)))
                    },
                    Err(error) => {
                        self.state = None;
                        self.secure = false;
                        Err(payload_error(error))
                    },
                }
            },
            (Some(State::ParseSetup), Some(bytes)) => {
                let secure = self.secure;
                self.state = None;
                self.secure = false;
                let mut buffer = Cursor::new(bytes);
                let code: i32 = match buffer.read_i32() {
                    Ok(code) => code,
                    Err(error) => {
                        return Err(payload_error(error));
                    },
                };
                if code == VERSION_1_CODE || code == VERSION_2_CODE {
                    Err(
                        HandShakeError {
                            kind: HandShakeErrorKind::UnsupportedProtocolVersion(Code(code)),
                        },
                    )
                } else if code == VERSION_3_CODE {
                    match read_params(&mut buffer) {
                        Ok(props) => Ok(Status::Done(props)),
                        Err(error) => Err(payload_error(error)),
                    }
                } else if code == CANCEL_REQUEST_CODE {
                    let conn_id: i32 = match buffer.read_i32() {
                        Ok(conn_id) => conn_id,
                        Err(error) => {
                            return Err(payload_error(error));
                        },
                    };
                    match buffer.read_i32() {
                        Ok(secret_key) => Ok(Status::Cancel(conn_id, secret_key)),
                        Err(error) => Err(payload_error(error)),
                    }
                } else if code == SSL_REQUEST_CODE && !secure {
                    self.state = Some(State::MessageLen);
                    self.secure = true;
                    Ok(Status::UpdatingToSecureWithReadingBytes(4))
                } else {
                    Err(
                        HandShakeError {
                            kind: HandShakeErrorKind::UnsupportedClientRequest(Code(code)),
                        },
                    )
                }
            },
            _ => {
                self.state = Some(State::MessageLen);
                Ok(Status::RequestingBytes(4))
            },
        }
    }
}

} // verus!
