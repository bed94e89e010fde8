use serde_json::Value;
use std::collections::HashMap;
use wasmruntime::envelope::{build_request, frame_request};
use wasmruntime::output::decode_output;

fn sample_args() -> HashMap<String, Value> {
    let mut args = HashMap::new();
    args.insert("msg".to_string(), Value::from("hi from host"));
    args.insert("n".to_string(), Value::from(3));
    args
}

#[test]
fn empty_request_serialises_to_empty_envelope() {
    let r = build_request(&Vec::new(), &HashMap::new(), None);
    assert_eq!(r, br#"{"opts":[],"args":{}}"#.to_vec());
}

#[test]
fn request_with_options_and_arguments() {
    let opts = vec!["--demo".to_string(), "fast".to_string()];
    let r = build_request(&opts, &sample_args(), None);
    assert_eq!(
        String::from_utf8(r).unwrap(),
        r#"{"opts":["--demo","fast"],"args":{"msg":"hi from host","n":3}}"#
    );
}

#[test]
fn options_are_escaped_as_json_strings() {
    let opts = vec!["a\"b\\c\n".to_string()];
    let r = build_request(&opts, &HashMap::new(), None);
    assert_eq!(String::from_utf8(r).unwrap(), r#"{"opts":["a\"b\\c\n"],"args":{}}"#);
}

#[test]
fn payload_follows_a_newline() {
    let r = build_request(&Vec::new(), &HashMap::new(), Some(vec![0, 1, 255]));
    let mut expected = br#"{"opts":[],"args":{}}"#.to_vec();
    expected.extend_from_slice(&[b'\n', 0, 1, 255]);
    assert_eq!(r, expected);
}

#[test]
fn frame_request_places_parts() {
    let r = frame_request(b"[1]".to_vec(), b"{}".to_vec(), Some(b"xy".to_vec()));
    assert_eq!(r, b"{\"opts\":[1],\"args\":{}}\nxy".to_vec());
}

#[test]
fn echoed_request_decodes_to_the_envelope() {
    let opts = vec!["--demo".to_string(), "fast".to_string()];
    let args = sample_args();
    let echoed = build_request(&opts, &args, None);
    let value = decode_output(echoed).unwrap().unwrap();
    let mut expected = serde_json::Map::new();
    expected.insert("opts".to_string(), Value::from(opts));
    expected.insert("args".to_string(), Value::Object(args.into_iter().collect()));
    assert_eq!(value, Value::Object(expected));
}

#[test]
fn echoed_empty_request_decodes_to_the_envelope() {
    let echoed = build_request(&Vec::new(), &HashMap::new(), None);
    let value = decode_output(echoed).unwrap().unwrap();
    let mut expected = serde_json::Map::new();
    expected.insert("opts".to_string(), Value::Array(Vec::new()));
    expected.insert("args".to_string(), Value::Object(serde_json::Map::new()));
    assert_eq!(value, Value::Object(expected));
}
