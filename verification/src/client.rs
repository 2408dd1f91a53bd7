//! Interpretation of one reply, as the connection performs it after the
//! blocking read: validate the framing, resolve the message kind, decode the
//! payload into the caller's expected record type, and hold the resolved
//! kind against the one the request expects.  The channel I/O around these
//! steps lives outside this crate.

use vstd::prelude::*;
use crate::codec::{decode_frame, frame_len, frame_ordinal, frame_payload, magic_match, well_framed};
use crate::error::Error;
use crate::json::{json_ok, parse_json};
use crate::message::{kind_of_ordinal, MessageType};
use crate::model::{FromJson, Output};

verus! {

/// A resolved reply: the message kind the peer sent, paired with the decoded
/// payload.
#[derive(Debug)]
pub struct Response<T> {
    pub msg_type: MessageType,
    pub content: T,
}

/// Decodes a payload as structured text into the requested record type.
/// Bytes that are not a valid document fail with `Serialisation`, as does a
/// document of the wrong shape; nothing else can fail here.
pub fn parse_payload<T: FromJson>(payload: &[u8]) -> (r: Result<T, Error>)
    ensures
        !json_ok(payload@) ==> (r matches Err(e) && e is Serialisation),
        r is Err ==> r->Err_0 is Serialisation,
{
    let v = match parse_json(payload) {
        Ok(v) => v,
        Err(msg) => {
            return Err(Error::Serialisation(msg));
        },
    };
    T::from_json(&v)
}

/// Decodes one complete reply buffer into a typed response: framing failures
/// surface exactly as `decode_frame` reports them, payload failures as
/// `Serialisation`, and a well-framed reply with a decodable payload yields
/// the kind its ordinal resolves to.
pub fn decode_reply<T: FromJson>(bytes: &[u8]) -> (r: Result<Response<T>, Error>)
    ensures
        bytes@.len() < 6 ==> (r matches Err(e) && e is ChannelError),
        bytes@.len() >= 6 && !magic_match(bytes@) ==> (r matches Err(e) && e is MalformedReply),
        magic_match(bytes@) && bytes@.len() < 14 ==> (r matches Err(e) && e is ChannelError),
        magic_match(bytes@) && bytes@.len() >= 14 && frame_ordinal(bytes@) > 11 ==> (r matches Err(
            e,
        ) && e is UnknownType),
        magic_match(bytes@) && bytes@.len() >= 14 && frame_ordinal(bytes@) <= 11 && bytes@.len() < 14
            + frame_len(bytes@) ==> (r matches Err(e) && e is ChannelError),
        well_framed(bytes@) && !json_ok(frame_payload(bytes@)) ==> (r matches Err(e)
            && e is Serialisation),
        well_framed(bytes@) ==> (r is Ok || (r matches Err(e) && e is Serialisation)),
        well_framed(bytes@) && r is Ok ==> Some(r->Ok_0.msg_type) == kind_of_ordinal(
            frame_ordinal(bytes@),
        ),
{
    let (t, payload) = match decode_frame(bytes) {
        Ok(p) => p,
        Err(e) => {
            return Err(e);
        },
    };
    let content = match parse_payload::<T>(payload.as_slice()) {
        Ok(c) => c,
        Err(e) => {
            return Err(e);
        },
    };
    Ok(Response { msg_type: t, content })
}

/// Holds a reply's resolved kind against the kind the request expects.  A
/// match hands the payload through unchanged; a mismatch is the recoverable
/// unexpected-response failure, never an abort.
pub fn expect_reply<T>(expected: MessageType, r: Response<T>) -> (res: Result<T, Error>)
    ensures
        r.msg_type == expected ==> (res matches Ok(c) && c == r.content),
        r.msg_type != expected ==> (res matches Err(e) && e is UnexpectedType),
{
    if r.msg_type == expected {
        Ok(r.content)
    } else {
        Err(Error::UnexpectedType)
    }
}

/// The receive side of an output query: decodes the reply buffer as a list
/// of output records and requires the reply's kind to be the output query's
/// own.  Framing and payload failures surface as in `decode_reply`; a reply
/// of any other kind fails with the unexpected-response error (or with
/// `Serialisation`, where its payload already failed to decode first), and a
/// reply of the query's own kind never does.
pub fn decode_outputs_reply(bytes: &[u8]) -> (r: Result<Vec<Output>, Error>)
    ensures
        bytes@.len() < 6 ==> (r matches Err(e) && e is ChannelError),
        bytes@.len() >= 6 && !magic_match(bytes@) ==> (r matches Err(e) && e is MalformedReply),
        magic_match(bytes@) && bytes@.len() < 14 ==> (r matches Err(e) && e is ChannelError),
        magic_match(bytes@) && bytes@.len() >= 14 && frame_ordinal(bytes@) > 11 ==> (r matches Err(
            e,
        ) && e is UnknownType),
        magic_match(bytes@) && bytes@.len() >= 14 && frame_ordinal(bytes@) <= 11 && bytes@.len() < 14
            + frame_len(bytes@) ==> (r matches Err(e) && e is ChannelError),
        well_framed(bytes@) && !json_ok(frame_payload(bytes@)) ==> (r matches Err(e)
            && e is Serialisation),
        well_framed(bytes@) && kind_of_ordinal(frame_ordinal(bytes@)) != Some(
            MessageType::GetOutputs,
        ) ==> (r matches Err(e) && (e is Serialisation || e is UnexpectedType)),
        well_framed(bytes@) && kind_of_ordinal(frame_ordinal(bytes@)) == Some(
            MessageType::GetOutputs,
        ) ==> (r is Ok || (r matches Err(e) && e is Serialisation)),
        well_framed(bytes@) ==> (r is Ok || (r matches Err(e) && (e is Serialisation
            || e is UnexpectedType))),
{
    let resp = match decode_reply::<Vec<Output>>(bytes) {
        Ok(x) => x,
        Err(e) => {
            return Err(e);
        },
    };
    expect_reply(MessageType::GetOutputs, resp)
}

} // verus!
