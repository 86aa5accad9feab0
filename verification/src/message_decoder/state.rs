//! The cycle of states that a decoder runs through for each message.
//!
//! Each state is a type of its own, so that a transition can only be
//! written from the state it leaves to the state it enters.

use crate::errors::{PayloadError, PayloadErrorKind, PayloadFault};
use vstd::prelude::*;

verus! {

/// Nothing of the message has been asked for.
#[derive(Debug, PartialEq, Eq, Structural, Clone, Copy)]
pub struct Created;

/// The tag has been asked for.
#[derive(Debug, PartialEq, Eq, Structural, Clone, Copy)]
pub struct RequestingTag;

/// The tag is known.
#[derive(Debug, PartialEq, Eq, Structural, Clone, Copy)]
pub struct Tag(pub u8);

/// The body has been asked for.
#[derive(Debug, PartialEq, Eq, Structural, Clone, Copy)]
pub struct WaitingForPayload;

/// The body is known.
#[derive(Debug, PartialEq)]
pub struct Payload(pub Vec<u8>);

/// The model of a [`State`].
pub enum StateModel {
    Created,
    RequestingTag,
    Tag(u8),
    WaitingForPayload,
    Payload(Seq<u8>),
}

/// A state of the cycle.
#[derive(Debug, PartialEq)]
pub enum State {
    Created(Created),
    RequestingTag(RequestingTag),
    Tag(Tag),
    WaitingForPayload(WaitingForPayload),
    Payload(Payload),
}

impl View for State {
    type V = StateModel;

    open spec fn view(&self) -> StateModel {
        match self {
            State::Created(created) => StateModel::Created,
            State::RequestingTag(requesting) => StateModel::RequestingTag,
            State::Tag(tag) => StateModel::Tag(tag.0),
            State::WaitingForPayload(waiting) => StateModel::WaitingForPayload,
            State::Payload(payload) => StateModel::Payload(payload.0@),
        }
    }
}

/// The state that follows `state` when `buf` is handed over: the tag is the
/// first byte of the buffer and the body is the whole of it.
pub open spec fn next_state(state: StateModel, buf: Seq<u8>) -> Result<StateModel, PayloadFault> {
    match state {
        StateModel::Created => Ok(StateModel::RequestingTag),
        StateModel::RequestingTag => if buf.len() == 0 {
            Err(PayloadFault::EndOfBuffer)
        } else {
            Ok(StateModel::Tag(buf[0]))
        },
        StateModel::Tag(tag) => Ok(StateModel::WaitingForPayload),
        StateModel::WaitingForPayload => Ok(StateModel::Payload(buf)),
        StateModel::Payload(body) => Ok(StateModel::Created),
    }
}

impl State {
    /// The state in which every message begins.
    pub fn new() -> (state: State)
        ensures
            state@ == StateModel::Created,
    {
        State::Created(Created)
    }

    /// Moves on to the next state. Gives the new state and the one that was left.
    pub fn transit_to_next(self, buf: &[u8]) -> (result: Result<(State, State), PayloadError>)
        ensures
            match next_state(self@, buf@) {
                Ok(next) => result matches Ok(pair) && pair.0@ == next && pair.1@ == self@,
                Err(fault) => result matches Err(error) && error@ == fault,
            },
    {
        match self {
            State::Created(created) => Ok(
                (State::RequestingTag(RequestingTag), State::Created(created)),
            ),
            State::RequestingTag(requesting) => {
                if buf.len() == 0 {
                    Err(PayloadError { kind: PayloadErrorKind::EndOfBuffer })
                } else {
                    Ok((State::Tag(Tag(buf[0])), State::RequestingTag(requesting)))
                }
            },
            State::Tag(tag) => Ok((State::WaitingForPayload(WaitingForPayload), State::Tag(tag))),
            State::WaitingForPayload(waiting) => Ok(
                (
                    State::Payload(Payload(vstd::slice::slice_to_vec(buf))),
                    State::WaitingForPayload(waiting),
                ),
            ),
            State::Payload(payload) => Ok((State::Created(Created), State::Payload(payload))),
        }
    }
}

} // verus!
