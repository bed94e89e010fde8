use serde_json::Value;
use wasmruntime::error::RuntimeError;
use wasmruntime::output::decode_output;
use wasmruntime::text::is_blank;

#[test]
fn empty_output_is_null() {
    assert_eq!(decode_output(Vec::new()), Ok(None));
}

#[test]
fn blank_output_is_null() {
    assert_eq!(decode_output(b" \n\t\r ".to_vec()), Ok(None));
    assert_eq!(decode_output("\u{00A0}\u{3000}\n".as_bytes().to_vec()), Ok(None));
}

#[test]
fn malformed_output_keeps_text() {
    assert_eq!(
        decode_output(b"{\"bad json".to_vec()),
        Err(RuntimeError::MalformedOutput("{\"bad json".to_string()))
    );
}

#[test]
fn two_values_are_malformed() {
    assert_eq!(
        decode_output(b"1 2".to_vec()),
        Err(RuntimeError::MalformedOutput("1 2".to_string()))
    );
}

#[test]
fn non_utf8_output_is_malformed() {
    assert_eq!(
        decode_output(vec![b'"', 0xff, b'"']),
        Err(RuntimeError::MalformedOutput(String::new()))
    );
}

#[test]
fn value_is_decoded() {
    assert_eq!(decode_output(b" 42\n".to_vec()), Ok(Some(Value::from(42))));
    assert_eq!(decode_output(b"\"ok\"".to_vec()), Ok(Some(Value::from("ok"))));
}

#[test]
fn blank_text_detection() {
    assert!(is_blank(""));
    assert!(is_blank(" \u{2028}\u{85}"));
    assert!(!is_blank(" x "));
    assert!(!is_blank("\u{200B}"));
}
