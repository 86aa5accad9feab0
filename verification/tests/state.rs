use pg_wire::errors::{PayloadError, PayloadErrorKind};
use pg_wire::message_decoder::state::{
    Created, Payload, RequestingTag, State, Tag, WaitingForPayload,
};
use pg_wire::messages::QUERY;

const QUERY_STRING: &[u8] = b"select * from t";

#[test]
fn created() {
    assert_eq!(State::new(), State::Created(Created));
}

#[test]
fn requesting_tag() {
    let state = State::new();

    assert_eq!(
        state.transit_to_next(&[]),
        Ok((State::RequestingTag(RequestingTag), State::new()))
    );
}

#[test]
fn parse_tag() {
    let state = State::new();

    let (state, _prev) = state.transit_to_next(&[]).expect("proceed to the next step");

    assert_eq!(
        state.transit_to_next(&[QUERY]),
        Ok((State::Tag(Tag(QUERY)), State::RequestingTag(RequestingTag)))
    );
}

#[test]
fn decoding_body() {
    let state = State::new();

    let (state, _prev) = state.transit_to_next(&[]).expect("proceed to the next step");
    let (state, _prev) = state.transit_to_next(&[QUERY]).expect("proceed to the next step");

    assert_eq!(
        state.transit_to_next(&[]),
        Ok((State::WaitingForPayload(WaitingForPayload), State::Tag(Tag(QUERY))))
    );
}

#[test]
fn read_body() {
    let state = State::new();

    let (state, _prev) = state.transit_to_next(&[]).expect("proceed to the next step");
    let (state, _prev) = state.transit_to_next(&[QUERY]).expect("proceed to the next step");
    let (state, _prev) = state.transit_to_next(&[]).expect("proceed to the next step");

    assert_eq!(
        state.transit_to_next(QUERY_STRING),
        Ok((
            State::Payload(Payload(QUERY_STRING.to_vec())),
            State::WaitingForPayload(WaitingForPayload)
        ))
    );
}

#[test]
fn state_full_cycle() {
    let state = State::new();

    let (state, _prev) = state.transit_to_next(&[]).expect("proceed to the next step");
    let (state, _prev) = state.transit_to_next(&[QUERY]).expect("proceed to the next step");
    let (state, _prev) = state.transit_to_next(&[]).expect("proceed to the next step");
    let (state, _prev) = state.transit_to_next(QUERY_STRING).expect("proceed to the next step");

    assert_eq!(
        state.transit_to_next(&[]),
        Ok((State::Created(Created), State::Payload(Payload(QUERY_STRING.to_vec()))))
    );
}

#[test]
fn tag_is_missing_from_an_empty_buffer() {
    let state = State::RequestingTag(RequestingTag);
    assert_eq!(
        state.transit_to_next(&[]),
        Err(PayloadError::from(PayloadErrorKind::EndOfBuffer))
    );
}

#[test]
fn tag_is_the_first_byte() {
    let state = State::RequestingTag(RequestingTag);
    assert_eq!(
        state.transit_to_next(&[b'S', b'Q']),
        Ok((State::Tag(Tag(b'S')), State::RequestingTag(RequestingTag)))
    );
}
