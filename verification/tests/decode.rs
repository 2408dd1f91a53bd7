use sway_ipc::client::{decode_outputs_reply, decode_reply, expect_reply, parse_payload, Response};
use sway_ipc::error::Error;
use sway_ipc::message::MessageType;
use sway_ipc::model::{decode_elements, Mode, Output, Rect};

const MAGIC: [u8; 6] = [105, 51, 45, 105, 112, 99];

fn frame(payload: &[u8], ordinal: u32) -> Vec<u8> {
    let mut bytes = MAGIC.to_vec();
    bytes.extend_from_slice(&(payload.len() as u32).to_le_bytes());
    bytes.extend_from_slice(&ordinal.to_le_bytes());
    bytes.extend_from_slice(payload);
    bytes
}

const ONE_OUTPUT: &str = "{\"active\":true,\"id\":1,\"name\":\"eDP-1\",\"modes\":[{\"width\":1920,\"height\":1080,\"refresh\":60000}],\"make\":\"X\",\"model\":\"Y\",\"serial\":\"Z\",\"scale\":1.0,\"transform\":\"normal\",\"current_mode\":{\"width\":1920,\"height\":1080,\"refresh\":60000}}";

#[test]
fn one_output_reply_decodes_end_to_end() {
    let payload = format!("[{}]", ONE_OUTPUT);
    let bytes = frame(payload.as_bytes(), 3);
    let outputs = decode_outputs_reply(&bytes).unwrap();
    assert_eq!(outputs.len(), 1);
    let o = &outputs[0];
    assert!(o.active);
    assert_eq!(o.id, 1);
    assert_eq!(o.name, "eDP-1");
    assert_eq!(o.make, "X");
    assert_eq!(o.model, "Y");
    assert_eq!(o.serial, "Z");
    assert_eq!(o.scale.as_f64(), Some(1.0));
    assert_eq!(o.transform, "normal");
    assert_eq!(o.current_mode, Mode { width: 1920, height: 1080, refresh: 60000 });
    assert_eq!(o.modes, vec![Mode { width: 1920, height: 1080, refresh: 60000 }]);
    assert_eq!(o.current_mode.refresh, 60000);
}

#[test]
fn missing_required_field_is_a_serialisation_failure() {
    // Valid structured text, but the output object lacks its name.
    let without_name = ONE_OUTPUT.replace("\"name\":\"eDP-1\",", "");
    let payload = format!("[{}]", without_name);
    let bytes = frame(payload.as_bytes(), 3);
    assert!(matches!(decode_outputs_reply(&bytes), Err(Error::Serialisation(_))));
}

#[test]
fn mistyped_field_is_a_serialisation_failure() {
    let wrong_type = ONE_OUTPUT.replace("\"id\":1,", "\"id\":\"one\",");
    let payload = format!("[{}]", wrong_type);
    let bytes = frame(payload.as_bytes(), 3);
    assert!(matches!(decode_outputs_reply(&bytes), Err(Error::Serialisation(_))));
}

#[test]
fn unknown_fields_are_ignored() {
    let extra = ONE_OUTPUT.replace("\"active\":true,", "\"active\":true,\"dpms\":false,");
    let payload = format!("[{}]", extra);
    let bytes = frame(payload.as_bytes(), 3);
    let outputs = decode_outputs_reply(&bytes).unwrap();
    assert_eq!(outputs.len(), 1);
    assert_eq!(outputs[0].name, "eDP-1");
}

#[test]
fn invalid_text_is_a_serialisation_failure() {
    let bytes = frame(b"[{not json", 3);
    assert!(matches!(decode_outputs_reply(&bytes), Err(Error::Serialisation(_))));
}

#[test]
fn empty_output_list_decodes() {
    let bytes = frame(b"[]", 3);
    let outputs = decode_outputs_reply(&bytes).unwrap();
    assert!(outputs.is_empty());
}

#[test]
fn reply_of_another_kind_is_unexpected() {
    // A well-framed, decodable reply, but tagged as a tree query's answer.
    let bytes = frame(b"[]", 4);
    assert!(matches!(decode_outputs_reply(&bytes), Err(Error::UnexpectedType)));
}

#[test]
fn expect_reply_matches_on_equal_kinds() {
    let r = Response { msg_type: MessageType::GetOutputs, content: 7u32 };
    assert_eq!(expect_reply(MessageType::GetOutputs, r).unwrap(), 7);
    let r = Response { msg_type: MessageType::GetTree, content: 7u32 };
    assert!(matches!(
        expect_reply(MessageType::GetOutputs, r),
        Err(Error::UnexpectedType)
    ));
}

#[test]
fn generic_reply_decode_resolves_the_kind() {
    let payload = format!("[{}]", ONE_OUTPUT);
    let bytes = frame(payload.as_bytes(), 3);
    let resp: Response<Vec<Output>> = decode_reply(&bytes).unwrap();
    assert_eq!(resp.msg_type, MessageType::GetOutputs);
    assert_eq!(resp.content.len(), 1);
}

#[test]
fn rect_decodes_from_a_payload() {
    let r: Rect = parse_payload(b"{\"x\":10,\"y\":20,\"width\":800,\"height\":600}").unwrap();
    assert_eq!(r.x, 10);
    assert_eq!(r.y, 20);
    assert_eq!(r.width, 800);
    assert_eq!(r.height, 600);
}

#[test]
fn rect_missing_field_fails() {
    let r: Result<Rect, Error> = parse_payload(b"{\"x\":10,\"y\":20,\"width\":800}");
    assert!(matches!(r, Err(Error::Serialisation(_))));
}

#[test]
fn mode_equality_is_exact() {
    let a = Mode { width: 1920, height: 1080, refresh: 60000 };
    let b = Mode { width: 1920, height: 1080, refresh: 60000 };
    let c = Mode { width: 1920, height: 1080, refresh: 59999 };
    assert_eq!(a, b);
    assert_ne!(a, c);
}

#[test]
fn each_array_element_becomes_one_record() {
    let text = "[{\"width\":1,\"height\":2,\"refresh\":3},{\"width\":4,\"height\":5,\"refresh\":6}]";
    let v: serde_json::Value = serde_json::from_str(text).unwrap();
    let arr = v.as_array().unwrap().clone();
    let modes: Vec<Mode> = decode_elements(&arr).unwrap();
    assert_eq!(
        modes,
        vec![
            Mode { width: 1, height: 2, refresh: 3 },
            Mode { width: 4, height: 5, refresh: 6 },
        ]
    );
}

#[test]
fn a_bad_element_fails_the_whole_array() {
    let text = "[{\"width\":1,\"height\":2,\"refresh\":3},{\"width\":4}]";
    let v: serde_json::Value = serde_json::from_str(text).unwrap();
    let arr = v.as_array().unwrap().clone();
    let r: Result<Vec<Mode>, Error> = decode_elements(&arr);
    assert!(matches!(r, Err(Error::Serialisation(_))));
}

#[test]
fn a_malformed_nested_mode_keeps_its_own_diagnostic() {
    // The modes field is present but one entry is not a whole mode: the
    // failure names the mode, not a missing output field.
    let broken = ONE_OUTPUT.replace(
        "\"modes\":[{\"width\":1920,\"height\":1080,\"refresh\":60000}],",
        "\"modes\":[{\"width\":1920}],",
    );
    let payload = format!("[{}]", broken);
    let bytes = frame(payload.as_bytes(), 3);
    match decode_outputs_reply(&bytes) {
        Err(Error::Serialisation(msg)) => assert!(msg.contains("mode")),
        other => panic!("expected a serialisation failure, got {:?}", other),
    }
}

#[test]
fn oversized_id_is_a_serialisation_failure() {
    let big = ONE_OUTPUT.replace("\"id\":1,", "\"id\":4294967296,");
    let payload = format!("[{}]", big);
    let bytes = frame(payload.as_bytes(), 3);
    assert!(matches!(decode_outputs_reply(&bytes), Err(Error::Serialisation(_))));
}
