use elorapi::devices::Device;
use elorapi::extract::{extract_data, message_for_device};
use elorapi::messages::Message;

fn chars_to_string(v: Vec<char>) -> String {
    v.into_iter().collect()
}

#[test]
fn extracts_embedded_measurement_object() {
    let payload = "{\"applicationID\":\"1\",\"objectJSON\":\"{\\\"temperature\\\": 21}\",\"tags\":{}}";
    let out = extract_data(payload).expect("payload carries an object");
    assert_eq!(chars_to_string(out), "{\"temperature\": 21}");
}

#[test]
fn extraction_removes_backslash_escapes() {
    let payload = "{\"objectJSON\":\"{\\\"a\\\":\\\"x\\\"}\",\"tags\":{}}";
    let out = extract_data(payload).expect("payload carries an object");
    assert_eq!(chars_to_string(out), "{\"a\":\"x\"}");
}

#[test]
fn extraction_fails_without_object_key() {
    let payload = "{\"applicationID\":\"1\",\"tags\":{}}";
    assert!(extract_data(payload).is_err());
}

#[test]
fn extraction_fails_without_tags_delimiter() {
    let payload = "{\"objectJSON\":\"{}\"}";
    assert!(extract_data(payload).is_err());
}

#[test]
fn extraction_fails_on_reversed_delimiters() {
    let payload = "{\"a\":\"b\",\"tags\":{},\"objectJSON\":\"{}\"";
    assert!(extract_data(payload).is_err());
}

#[test]
fn message_for_device_picks_topic_holding_eui() {
    let a = Device::new("AAA", 1, "p");
    let msgs = vec![
        Message::new("application/1/device/BBB/event/up".to_string(), "pb".to_string()),
        Message::new("application/1/device/AAA/event/up".to_string(), "pa".to_string()),
    ];
    assert_eq!(message_for_device(&msgs, &a), "pa");
}

#[test]
fn message_for_device_without_match_is_empty() {
    let a = Device::new("AAA", 1, "p");
    let msgs = vec![Message::new("application/1/device/BBB/event/up".to_string(), "pb".to_string())];
    assert_eq!(message_for_device(&msgs, &a), "");
}
