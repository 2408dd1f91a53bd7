use vstd::prelude::*;
use crate::error::Error;
use crate::message::{MessageType, ordinal_of, kind_of_ordinal};

verus! {

/// The fixed six-byte magic marker that begins every frame: the ASCII bytes
/// of "i3-ipc".
pub open spec fn magic() -> Seq<u8> {
    seq![105u8, 51u8, 45u8, 105u8, 112u8, 99u8]
}

/// The four bytes of a 32-bit unsigned integer in the wire's byte order.
/// The protocol nominally uses the host's native order; both peers run on
/// the same machine, and this codec fixes little-endian, the order of every
/// platform the compositor targets.  This is not a portable wire contract
/// across heterogeneous hosts.
pub open spec fn le_bytes(n: u32) -> Seq<u8> {
    seq![
        (n & 0xff) as u8,
        ((n >> 8) & 0xff) as u8,
        ((n >> 16) & 0xff) as u8,
        ((n >> 24) & 0xff) as u8,
    ]
}

/// The 32-bit unsigned integer that four wire bytes spell.
pub open spec fn le_value(b0: u8, b1: u8, b2: u8, b3: u8) -> u32 {
    (b0 as u32) | ((b1 as u32) << 8) | ((b2 as u32) << 16) | ((b3 as u32) << 24)
}

/// Whether a reply begins with the magic marker.
pub open spec fn magic_match(b: Seq<u8>) -> bool {
    b.len() >= 6 && (forall|i: int| 0 <= i < 6 ==> b[i] == magic()[i])
}

/// The payload length a framed reply declares.
pub open spec fn frame_len(b: Seq<u8>) -> u32
    recommends
        b.len() >= 14,
{
    le_value(b[6], b[7], b[8], b[9])
}

/// The type ordinal a framed reply carries.
pub open spec fn frame_ordinal(b: Seq<u8>) -> u32
    recommends
        b.len() >= 14,
{
    le_value(b[10], b[11], b[12], b[13])
}

/// Whether a byte buffer holds one complete, valid frame: the marker
/// matches, the header is whole, the ordinal is a defined kind, and the
/// buffer reaches at least as far as the declared payload.
pub open spec fn well_framed(b: Seq<u8>) -> bool {
    magic_match(b) && b.len() >= 14 && frame_ordinal(b) <= 11 && b.len() >= 14 + frame_len(b)
}

/// The payload bytes a well-formed frame carries.
pub open spec fn frame_payload(b: Seq<u8>) -> Seq<u8>
    recommends
        well_framed(b),
{
    b.subrange(14, 14 + frame_len(b) as int)
}

/// The complete frame that encodes one request or reply: magic marker,
/// payload length, type ordinal, then the payload bytes.
pub open spec fn spec_encode(t: MessageType, payload: Seq<u8>) -> Seq<u8> {
    magic() + le_bytes(payload.len() as u32) + le_bytes(ordinal_of(t)) + payload
}

/// Reading back the four little-endian bytes of an integer recovers it.
pub proof fn lemma_le_round_trip(n: u32)
    ensures
        le_value(le_bytes(n)[0], le_bytes(n)[1], le_bytes(n)[2], le_bytes(n)[3]) == n,
{
    assert(le_bytes(n)[0] == (n & 0xff) as u8);
    assert(le_bytes(n)[1] == ((n >> 8) & 0xff) as u8);
    assert(le_bytes(n)[2] == ((n >> 16) & 0xff) as u8);
    assert(le_bytes(n)[3] == ((n >> 24) & 0xff) as u8);
    assert((((n & 0xff) as u8) as u32) | ((((n >> 8) & 0xff) as u8) as u32) << 8
        | ((((n >> 16) & 0xff) as u8) as u32) << 16 | ((((n >> 24) & 0xff) as u8) as u32) << 24
        == n) by (bit_vector);
}

/// A frame whose leading six bytes differ from the magic marker at any one
/// position fails the magic check, whatever the rest of the frame holds:
/// no length or type field takes part in the comparison.
pub proof fn lemma_magic_mismatch(b: Seq<u8>, i: int)
    requires
        0 <= i < 6,
        b.len() >= 6,
        b[i] != magic()[i],
    ensures
        !magic_match(b),
{
}

/// Decoding an encoded frame recovers the message kind and the payload:
/// the marker matches, the declared length is the payload's length, the
/// ordinal resolves back to the kind, and the trailing bytes are the payload.
pub proof fn lemma_frame_round_trip(t: MessageType, payload: Seq<u8>)
    requires
        payload.len() <= u32::MAX,
    ensures
        spec_encode(t, payload).len() == 14 + payload.len(),
        magic_match(spec_encode(t, payload)),
        frame_len(spec_encode(t, payload)) == payload.len(),
        frame_ordinal(spec_encode(t, payload)) == ordinal_of(t),
        kind_of_ordinal(frame_ordinal(spec_encode(t, payload))) == Some(t),
        well_framed(spec_encode(t, payload)),
        frame_payload(spec_encode(t, payload)) == payload,
{
    let b = spec_encode(t, payload);
    let l = payload.len() as u32;
    let o = ordinal_of(t);
    assert(b[6] == le_bytes(l)[0]);
    assert(b[7] == le_bytes(l)[1]);
    assert(b[8] == le_bytes(l)[2]);
    assert(b[9] == le_bytes(l)[3]);
    assert(b[10] == le_bytes(o)[0]);
    assert(b[11] == le_bytes(o)[1]);
    assert(b[12] == le_bytes(o)[2]);
    assert(b[13] == le_bytes(o)[3]);
    lemma_le_round_trip(l);
    lemma_le_round_trip(o);
    crate::message::lemma_registry_bijective(t, 0);
    assert(b.subrange(14, 14 + frame_len(b) as int) =~= payload);
}

/// The magic marker as bytes.
fn magic_bytes() -> (m: Vec<u8>)
    ensures
        m@ == magic(),
{
    let mut m: Vec<u8> = Vec::new();
    m.push(105);
    m.push(51);
    m.push(45);
    m.push(105);
    m.push(112);
    m.push(99);
    proof {
        assert(m@ =~= magic());
    }
    m
}

/// Splits a 32-bit integer into its four wire bytes and appends them.
fn push_le(v: &mut Vec<u8>, n: u32)
    ensures
        final(v)@ == old(v)@ + le_bytes(n),
{
    proof {
        assert(n & 0xff < 256 && (n >> 8) & 0xff < 256 && (n >> 16) & 0xff < 256
            && (n >> 24) & 0xff < 256) by (bit_vector);
    }
    v.push((n & 0xff) as u8);
    v.push(((n >> 8) & 0xff) as u8);
    v.push(((n >> 16) & 0xff) as u8);
    v.push(((n >> 24) & 0xff) as u8);
    proof {
        assert(v@ =~= old(v)@ + le_bytes(n));
    }
}

/// Reads the 32-bit integer that four wire bytes spell.
fn read_u32_le(b0: u8, b1: u8, b2: u8, b3: u8) -> (n: u32)
    ensures
        n == le_value(b0, b1, b2, b3),
{
    (b0 as u32) | ((b1 as u32) << 8) | ((b2 as u32) << 16) | ((b3 as u32) << 24)
}

/// Encodes one request or reply frame: the magic marker, the payload's byte
/// count, the kind's ordinal, then the payload itself.
pub fn encode_frame(t: MessageType, payload: &[u8]) -> (frame: Vec<u8>)
    requires
        payload@.len() <= u32::MAX,
    ensures
        frame@ == spec_encode(t, payload@),
{
    let mut frame = magic_bytes();
    push_le(&mut frame, payload.len() as u32);
    push_le(&mut frame, t.to_u32());
    let ghost head = frame@;
    let mut i: usize = 0;
    while i < payload.len()
        invariant
            i <= payload@.len(),
            frame@ == head + payload@.subrange(0, i as int),
        decreases payload@.len() - i,
    {
        frame.push(payload[i]);
        i += 1;
        proof {
            assert(frame@ =~= head + payload@.subrange(0, i as int));
        }
    }
    proof {
        assert(payload@.subrange(0, payload@.len() as int) =~= payload@);
        assert(frame@ =~= spec_encode(t, payload@));
    }
    frame
}

/// Checks the six bytes that open a reply against the magic marker.
pub fn check_magic(head: &[u8]) -> (r: Result<(), Error>)
    requires
        head@.len() == 6,
    ensures
        r is Ok <==> magic_match(head@),
        r is Err ==> r->Err_0 is MalformedReply,
{
    let m = magic_bytes();
    let mut i: usize = 0;
    while i < 6
        invariant
            i <= 6,
            head@.len() == 6,
            m@ == magic(),
            forall|j: int| 0 <= j < i ==> head@[j] == magic()[j],
        decreases 6 - i,
    {
        if head[i] != m[i] {
            return Err(Error::MalformedReply);
        }
        i += 1;
    }
    Ok(())
}

/// Parses the eight header bytes that follow the marker: the payload length,
/// then the type ordinal, which must resolve to a defined message kind.
pub fn parse_header(b: &[u8]) -> (r: Result<(u32, MessageType), Error>)
    requires
        b@.len() == 8,
    ensures
        le_value(b@[4], b@[5], b@[6], b@[7]) <= 11 ==> (r matches Ok(p)
            && p.0 == le_value(b@[0], b@[1], b@[2], b@[3])
            && Some(p.1) == kind_of_ordinal(le_value(b@[4], b@[5], b@[6], b@[7]))),
        le_value(b@[4], b@[5], b@[6], b@[7]) > 11 ==> (r matches Err(e) && e is UnknownType),
{
    let len = read_u32_le(b[0], b[1], b[2], b[3]);
    let ord = read_u32_le(b[4], b[5], b[6], b[7]);
    match MessageType::from_u32(ord) {
        Ok(t) => Ok((len, t)),
        Err(e) => Err(e),
    }
}

/// Decodes one complete reply frame from a byte buffer.  The marker is
/// checked before any length or type field is interpreted; a buffer shorter
/// than the frame it announces is a channel failure, not a framing one.
pub fn decode_frame(bytes: &[u8]) -> (r: Result<(MessageType, Vec<u8>), Error>)
    ensures
        bytes@.len() < 6 ==> (r matches Err(e) && e is ChannelError),
        bytes@.len() >= 6 && !magic_match(bytes@) ==> (r matches Err(e) && e is MalformedReply),
        magic_match(bytes@) && bytes@.len() < 14 ==> (r matches Err(e) && e is ChannelError),
        magic_match(bytes@) && bytes@.len() >= 14 && frame_ordinal(bytes@) > 11 ==> (r matches Err(e)
            && e is UnknownType),
        magic_match(bytes@) && bytes@.len() >= 14 && frame_ordinal(bytes@) <= 11
            && bytes@.len() < 14 + frame_len(bytes@) ==> (r matches Err(e) && e is ChannelError),
        magic_match(bytes@) && bytes@.len() >= 14 && frame_ordinal(bytes@) <= 11
            && bytes@.len() >= 14 + frame_len(bytes@) ==> (r matches Ok(p)
            && Some(p.0) == kind_of_ordinal(frame_ordinal(bytes@))
            && p.1@ == bytes@.subrange(14, 14 + frame_len(bytes@) as int)),
{
    if bytes.len() < 6 {
        return Err(Error::ChannelError("reply ended before the magic marker".to_owned()));
    }
    let m = magic_bytes();
    let mut i: usize = 0;
    while i < 6
        invariant
            i <= 6,
            bytes@.len() >= 6,
            m@ == magic(),
            forall|j: int| 0 <= j < i ==> bytes@[j] == magic()[j],
        decreases 6 - i,
    {
        if bytes[i] != m[i] {
            return Err(Error::MalformedReply);
        }
        i += 1;
    }
    if bytes.len() < 14 {
        return Err(Error::ChannelError("reply ended inside the frame header".to_owned()));
    }
    let len = read_u32_le(bytes[6], bytes[7], bytes[8], bytes[9]);
    let ord = read_u32_le(bytes[10], bytes[11], bytes[12], bytes[13]);
    let t = match MessageType::from_u32(ord) {
        Ok(t) => t,
        Err(e) => {
            return Err(e);
        },
    };
    if bytes.len() - 14 < len as usize {
        return Err(Error::ChannelError("reply ended inside the payload".to_owned()));
    }
    let mut payload: Vec<u8> = Vec::new();
    let mut k: usize = 0;
    while k < len as usize
        invariant
            k <= len,
            bytes@.len() >= 14 + len,
            bytes@.len() <= usize::MAX,
            payload@ == bytes@.subrange(14, 14 + k as int),
        decreases len - k,
    {
        payload.push(bytes[14 + k]);
        k += 1;
        proof {
            assert(payload@ =~= bytes@.subrange(14, 14 + k as int));
        }
    }
    Ok((t, payload))
}

} // verus!
