//! What a session decides while it talks to its client.
//!
//! Reading and writing are the caller's: the session says what to read
//! next and what to make of what was read, and turns the messages to be
//! sent into bytes.

use crate::errors::{MessageFormatError, MessageFormatFault};
use crate::frontend::{CommandMessage, CommandModel};
use crate::message_decoder::{next_stage_spec, MessageDecoder, Stage, Status, StatusModel};
use crate::messages::{backend_bytes, BackendMessage, BackendModel};
use vstd::prelude::*;

verus! {

/// The model of a [`ReadOutcome`].
pub enum ReadOutcomeModel {
    Bytes(Seq<u8>),
    UnexpectedEof,
}

/// How the read that a session asked for has ended.
pub enum ReadOutcome<'a> {
    /// The bytes that were asked for.
    Bytes(&'a [u8]),
    /// The stream ended before it gave the bytes.
    UnexpectedEof,
}

impl<'a> View for ReadOutcome<'a> {
    type V = ReadOutcomeModel;

    open spec fn view(&self) -> ReadOutcomeModel {
        match self {
            ReadOutcome::Bytes(bytes) => ReadOutcomeModel::Bytes(bytes@),
            ReadOutcome::UnexpectedEof => ReadOutcomeModel::UnexpectedEof,
        }
    }
}

/// The model of a [`ReceiveAction`].
pub enum ReceiveActionModel {
    Read(usize),
    Deliver(CommandModel),
    Reject(MessageFormatFault),
    Fail,
}

/// What the caller is to do next on behalf of a session that receives.
#[derive(Debug, PartialEq)]
pub enum ReceiveAction {
    /// Read exactly this many bytes from the stream and hand them over.
    Read(usize),
    /// Hand this message to the application.
    Deliver(CommandMessage),
    /// The client broke the protocol: end the connection with this error.
    Reject(MessageFormatError),
    /// Hand the error of the stream to the application.
    Fail,
}

impl View for ReceiveAction {
    type V = ReceiveActionModel;

    open spec fn view(&self) -> ReceiveActionModel {
        match self {
            ReceiveAction::Read(len) => ReceiveActionModel::Read(*len),
            ReceiveAction::Deliver(message) => ReceiveActionModel::Deliver(message@),
            ReceiveAction::Reject(error) => ReceiveActionModel::Reject(error@),
            ReceiveAction::Fail => ReceiveActionModel::Fail,
        }
    }
}

/// The model of a [`Receiver`].
pub struct ReceiverModel {
    /// Where the decoder stands within the message.
    pub stage: Stage,
    /// Whether the end of the stream has been reported as a `Terminate`.
    pub closed: bool,
}

/// What the decoder's word means for the caller.
pub open spec fn action_of(said: Result<StatusModel, MessageFormatFault>) -> ReceiveActionModel {
    match said {
        Ok(StatusModel::Requesting(len)) => ReceiveActionModel::Read(len),
        Ok(StatusModel::Done(message)) => ReceiveActionModel::Deliver(message),
        Err(fault) => ReceiveActionModel::Reject(fault),
    }
}

/// What beginning a message does: the decoder starts anew and asks for the tag.
pub open spec fn begin_spec(receiver: ReceiverModel) -> (ReceiverModel, ReceiveActionModel) {
    (
        ReceiverModel { stage: next_stage_spec(Stage::Init, None).0, closed: receiver.closed },
        action_of(next_stage_spec(Stage::Init, None).1),
    )
}

/// What the outcome of a read leads to. The bytes go to the decoder. The
/// end of the stream is the client's `Terminate` the first time, and the
/// stream's own error from then on.
pub open spec fn handle_spec(receiver: ReceiverModel, outcome: ReadOutcomeModel) -> (
    ReceiverModel,
    ReceiveActionModel,
) {
    match outcome {
        ReadOutcomeModel::Bytes(bytes) => (
            ReceiverModel {
                stage: next_stage_spec(receiver.stage, Some(bytes)).0,
                closed: receiver.closed,
            },
            action_of(next_stage_spec(receiver.stage, Some(bytes)).1),
        ),
        ReadOutcomeModel::UnexpectedEof => if receiver.closed {
            (receiver, ReceiveActionModel::Fail)
        } else {
            (
                ReceiverModel { stage: receiver.stage, closed: true },
                ReceiveActionModel::Deliver(CommandModel::Terminate),
            )
        },
    }
}

/// What the decoder's word means for the caller.
fn action(said: Result<Status, MessageFormatError>) -> (action: ReceiveAction)
    ensures
        forall|expected: Result<StatusModel, MessageFormatFault>|
            crate::message_decoder::status_is(said, expected) ==> action@ == action_of(expected),
{
    match said {
        Ok(Status::Requesting(len)) => ReceiveAction::Read(len),
        Ok(Status::Done(message)) => ReceiveAction::Deliver(message),
        Err(error) => ReceiveAction::Reject(error),
    }
}

/// The receiving half of a session: it frames the command messages of one client.
#[derive(Debug)]
pub struct Receiver {
    decoder: MessageDecoder,
    closed: bool,
}

impl View for Receiver {
    type V = ReceiverModel;

    closed spec fn view(&self) -> ReceiverModel {
        ReceiverModel { stage: self.decoder@, closed: self.closed }
    }
}

impl Receiver {
    /// The receiver of a session that has read nothing yet.
    pub fn new() -> (receiver: Receiver)
        ensures
            receiver@ == (ReceiverModel { stage: Stage::Init, closed: false }),
    {
        Receiver { decoder: MessageDecoder::new(), closed: false }
    }

    /// Begins to receive a message.
    pub fn begin(&mut self) -> (action: ReceiveAction)
        ensures
            final(self)@ == begin_spec(old(self)@).0,
            action@ == begin_spec(old(self)@).1,
            action@ == ReceiveActionModel::Read(1),
    {
        self.decoder = MessageDecoder::new();
        let said = self.decoder.next_stage(None);
        action(said)
    }

    /// Takes the outcome of the read that was asked for last.
    pub fn handle(&mut self, outcome: ReadOutcome) -> (action: ReceiveAction)
        ensures
            final(self)@ == handle_spec(old(self)@, outcome@).0,
            action@ == handle_spec(old(self)@, outcome@).1,
    {
        match outcome {
            ReadOutcome::Bytes(bytes) => {
                let said = self.decoder.next_stage(Some(bytes));
                action(said)
            },
            ReadOutcome::UnexpectedEof => {
                if self.closed {
                    ReceiveAction::Fail
                } else {
                    self.closed = true;
                    ReceiveAction::Deliver(CommandMessage::Terminate)
                }
            },
        }
    }
}

/// The bytes that answer a query: those of the message, whether it reports
/// a result or an error.
pub fn response_bytes(query_result: Result<BackendMessage, BackendMessage>) -> (bytes: Vec<u8>)
    ensures
        bytes@ == backend_bytes(response_model(query_result)),
{
    match query_result {
        Ok(event) => event.as_vec(),
        Err(error) => error.as_vec(),
    }
}

/// The message that answers a query.
pub open spec fn response_model(
    query_result: Result<BackendMessage, BackendMessage>,
) -> BackendModel {
    match query_result {
        Ok(event) => event@,
        Err(error) => error@,
    }
}

} // verus!
