use sway_ipc::codec::{decode_frame, encode_frame};
use sway_ipc::error::Error;
use sway_ipc::message::MessageType;

const MAGIC: [u8; 6] = [105, 51, 45, 105, 112, 99];

fn frame(payload: &[u8], ordinal: u32) -> Vec<u8> {
    let mut bytes = MAGIC.to_vec();
    bytes.extend_from_slice(&(payload.len() as u32).to_le_bytes());
    bytes.extend_from_slice(&ordinal.to_le_bytes());
    bytes.extend_from_slice(payload);
    bytes
}

#[test]
fn every_ordinal_round_trips() {
    let kinds = [
        MessageType::RunCommand,
        MessageType::GetWorkspaces,
        MessageType::Subscribe,
        MessageType::GetOutputs,
        MessageType::GetTree,
        MessageType::GetMarks,
        MessageType::GetBarConfig,
        MessageType::GetVersion,
        MessageType::GetBindingModes,
        MessageType::GetConfig,
        MessageType::SendTick,
        MessageType::I3Sync,
    ];
    for (n, kind) in kinds.iter().enumerate() {
        let decoded = MessageType::from_u32(n as u32).unwrap();
        assert_eq!(decoded, *kind);
        assert_eq!(decoded.to_u32(), n as u32);
    }
}

#[test]
fn out_of_range_ordinals_are_unknown() {
    for n in [12u32, 13, 100, u32::MAX] {
        assert!(matches!(MessageType::from_u32(n), Err(Error::UnknownType)));
    }
}

#[test]
fn any_single_magic_byte_off_is_malformed() {
    let good = frame(b"[]", 3);
    for i in 0..6 {
        let mut bad = good.clone();
        bad[i] ^= 0x01;
        assert!(matches!(decode_frame(&bad), Err(Error::MalformedReply)));
    }
    // Even with everything after the marker missing, a bad marker is
    // malformed, not a channel failure.
    let mut only_marker = MAGIC.to_vec();
    only_marker[5] = 0;
    assert!(matches!(decode_frame(&only_marker), Err(Error::MalformedReply)));
}

#[test]
fn empty_get_outputs_request_round_trips() {
    let bytes = encode_frame(MessageType::GetOutputs, b"");
    assert_eq!(&bytes[0..6], &MAGIC);
    assert_eq!(&bytes[6..10], &[0, 0, 0, 0]);
    assert_eq!(&bytes[10..14], &[3, 0, 0, 0]);
    let (kind, payload) = decode_frame(&bytes).unwrap();
    assert_eq!(kind.to_u32(), 3);
    assert_eq!(kind, MessageType::GetOutputs);
    assert!(payload.is_empty());
}

#[test]
fn frames_with_payload_round_trip() {
    let body = b"{\"success\":true}";
    let bytes = encode_frame(MessageType::RunCommand, body);
    let (kind, payload) = decode_frame(&bytes).unwrap();
    assert_eq!(kind, MessageType::RunCommand);
    assert_eq!(payload, body.to_vec());
}

#[test]
fn length_field_counts_payload_bytes() {
    let bytes = encode_frame(MessageType::SendTick, b"abcde");
    assert_eq!(&bytes[6..10], &[5, 0, 0, 0]);
    assert_eq!(bytes.len(), 14 + 5);
}

#[test]
fn truncated_replies_are_channel_errors() {
    // The peer closed before the marker was complete.
    assert!(matches!(decode_frame(&MAGIC[0..4]), Err(Error::ChannelError(_))));
    assert!(matches!(decode_frame(b""), Err(Error::ChannelError(_))));
    // Marker intact, header cut short.
    let mut short_header = MAGIC.to_vec();
    short_header.extend_from_slice(&[2, 0, 0]);
    assert!(matches!(decode_frame(&short_header), Err(Error::ChannelError(_))));
    // Whole header, payload shorter than declared.
    let mut short_payload = frame(b"[]", 3);
    short_payload.pop();
    assert!(matches!(decode_frame(&short_payload), Err(Error::ChannelError(_))));
}

#[test]
fn unknown_ordinal_in_frame_is_rejected() {
    let bytes = frame(b"[]", 12);
    assert!(matches!(decode_frame(&bytes), Err(Error::UnknownType)));
}

#[test]
fn error_messages_describe_each_kind() {
    assert_eq!(Error::EnvMissing.message(), "SWAYSOCK isn't set");
    assert_eq!(Error::MalformedReply.message(), "Malformed reply");
    assert_eq!(Error::UnknownType.message(), "Unknown message type received");
    assert_eq!(Error::UnexpectedType.message(), "Unexpected response kind");
    assert_eq!(Error::ChannelError("broken pipe".to_owned()).message(), "broken pipe");
    assert_eq!(Error::Serialisation("bad payload".to_owned()).message(), "bad payload");
}
