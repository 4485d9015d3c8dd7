use base64::Engine;
use html_storage::codec::DecodeFailure;
use html_storage::tree::CapturedRecord;
use html_storage::tree::DynamicNode;
use html_storage::tree::VNode;
use html_storage::codec::decode_hydration_data;
use html_storage::codec::format_js_list_of_strings;
use html_storage::data::HTMLData;
use html_storage::tree::Scope;

fn cbor_str(s: &str) -> Vec<u8> {
    let mut out = Vec::new();
    ciborium::into_writer(&s, &mut out).unwrap();
    out
}

fn accumulator_with(records: Vec<Option<Vec<u8>>>, debug_enabled: bool) -> HTMLData {
    let mut data = HTMLData::new(debug_enabled);
    for value in records {
        data.push(value, None, None);
    }
    data
}

#[test]
fn encoded_payload_is_base64_of_cbor() {
    let records: Vec<Option<Vec<u8>>> = vec![None, Some(cbor_str("boom"))];
    let payload = accumulator_with(records.clone(), false).serialized().unwrap();
    let mut expected_bytes = Vec::new();
    ciborium::into_writer(&records, &mut expected_bytes).unwrap();
    let expected = base64::engine::general_purpose::STANDARD.encode(&expected_bytes);
    assert_eq!(payload.data, expected);
    assert_ne!(payload.data.as_bytes(), expected_bytes.as_slice());
}

#[test]
fn round_trip_preserves_records_and_order() {
    let records: Vec<Option<Vec<u8>>> =
        vec![None, Some(cbor_str("a")), Some(cbor_str("b")), None, Some(vec![])];
    let payload = accumulator_with(records.clone(), false).serialized().unwrap();
    let decoded = decode_hydration_data(payload.data.as_str()).unwrap();
    assert_eq!(decoded, records);
}

#[test]
fn round_trip_of_empty_accumulator() {
    let payload = HTMLData::new(false).serialized().unwrap();
    let decoded = decode_hydration_data(payload.data.as_str()).unwrap();
    assert_eq!(decoded, Vec::<Option<Vec<u8>>>::new());
}

#[test]
fn caught_error_survives_the_round_trip() {
    let boundary = Scope {
        error_context: Some(vec![cbor_str("boom")]),
        serialize_context: None,
        suspended_nodes: None,
        root_node: None,
    };
    let data = HTMLData::extract_from_suspense_boundary(&boundary, false);
    assert_eq!(data.data.len(), 1);
    let payload = data.serialized().unwrap();
    let decoded = decode_hydration_data(payload.data.as_str()).unwrap();
    assert_eq!(decoded.len(), 1);
    let error_bytes = decoded[0].as_ref().unwrap();
    let error: String = ciborium::from_reader(error_bytes.as_slice()).unwrap();
    assert_eq!(error, "boom");
}

#[test]
fn invalid_transport_text_is_rejected() {
    let r = decode_hydration_data("!!! not base64 !!!");
    assert!(matches!(r, Err(DecodeFailure::Transport)));
}

#[test]
fn invalid_binary_payload_is_rejected() {
    let garbage = base64::engine::general_purpose::STANDARD.encode([0xffu8, 0xff, 0xff]);
    let r = decode_hydration_data(garbage.as_str());
    assert!(matches!(r, Err(DecodeFailure::Binary)));
}

#[test]
fn metadata_lists_render_when_enabled() {
    let mut data = HTMLData::new(true);
    data.push(None, Some("u32".to_string()), Some("src/app.rs:3:5".to_string()));
    data.push(None, None, None);
    let payload = data.serialized().unwrap();
    assert_eq!(payload.debug_types.unwrap(), "[\"u32\",\"unknown\"]");
    assert_eq!(
        payload.debug_locations.unwrap(),
        "[\"src/app.rs:3:5\",\"unknown\"]"
    );
}

#[test]
fn no_metadata_renders_when_disabled() {
    let mut data = HTMLData::new(false);
    data.push(None, Some("u32".to_string()), None);
    let payload = data.serialized().unwrap();
    assert_eq!(payload.debug_types, None);
    assert_eq!(payload.debug_locations, None);
}

#[test]
fn missing_entries_render_as_unknown() {
    assert_eq!(format_js_list_of_strings(&vec![]), "[]");
    assert_eq!(format_js_list_of_strings(&vec![None]), "[\"unknown\"]");
    assert_eq!(
        format_js_list_of_strings(&vec![Some("a".to_string()), None, Some("b".to_string())]),
        "[\"a\",\"unknown\",\"b\"]"
    );
}

#[test]
fn extracted_payload_round_trips() {
    let child = Scope {
        error_context: None,
        serialize_context: Some(vec![CapturedRecord {
            value: Some(cbor_str("value")),
            debug_type: None,
            debug_location: None,
        }]),
        suspended_nodes: None,
        root_node: None,
    };
    let boundary = Scope {
        error_context: Some(vec![cbor_str("oops")]),
        serialize_context: None,
        suspended_nodes: Some(VNode {
            dynamic_nodes: vec![DynamicNode::Component(Some(Box::new(child)))],
        }),
        root_node: None,
    };
    let data = HTMLData::extract_from_suspense_boundary(&boundary, false);
    let payload = data.serialized().unwrap();
    let decoded = decode_hydration_data(payload.data.as_str()).unwrap();
    assert_eq!(decoded, data.data);
    assert_eq!(decoded, vec![Some(cbor_str("oops")), Some(cbor_str("value"))]);
}

#[test]
fn payload_text_is_embeddable_verbatim() {
    let records: Vec<Option<Vec<u8>>> = vec![None, Some(cbor_str("<script>\"&'")), Some(vec![0, 255])];
    let payload = accumulator_with(records, false).serialized().unwrap();
    assert_eq!(payload.data.len() % 4, 0);
    assert!(payload.data.chars().all(|c| {
        c.is_ascii_alphanumeric() || c == '+' || c == '/' || c == '='
    }));
}
