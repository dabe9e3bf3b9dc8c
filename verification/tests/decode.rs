use asynchttp::codec::{body_to_json, body_to_string};
use asynchttp::errors::HttpError;

#[test]
fn body_to_string_decodes_utf8() {
    assert_eq!(
        body_to_string(b"response text".to_vec()),
        Ok(String::from("response text"))
    );
    assert_eq!(body_to_string(Vec::new()), Ok(String::new()));
}

#[test]
fn body_to_string_rejects_invalid_utf8() {
    assert_eq!(
        body_to_string(vec![0x80, 0x81]),
        Err(HttpError::DecodeError)
    );
}

#[test]
fn body_to_json_parses_document() {
    let v = body_to_json(b"[true, null, \"x\"]").unwrap();
    assert_eq!(v[0], serde_json::Value::from(true));
    assert_eq!(v[2], serde_json::Value::from("x"));
}

#[test]
fn body_to_json_rejects_malformed_document() {
    let r = body_to_json(b"[true, null,");
    assert!(matches!(r, Err(HttpError::DecodeError)));
}
