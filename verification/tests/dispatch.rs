use elorapi::devices::{Downlink, DownlinkPayload};
use elorapi::dispatch::{build_queue_item, downlink_message, valid_configured};
use elorapi::devices::Device;
use elorapi::rules::Action;

fn action(message: &str) -> Action {
    Action::new(Device::new("AAA", 1, "prof-1"), vec![0], message.to_string(), 55)
}

#[test]
fn queue_item_encodes_hex_to_base64() {
    let item = build_queue_item(&action("080100ff")).expect("well-formed hexadecimal");
    // 080100ff stands for the bytes 8, 1, 0, 255; their base64 text:
    assert_eq!(item.data, b"CAEA/w==".to_vec());
    assert_eq!(item.dev_eui, "AAA");
    assert_eq!(item.f_port, 55);
    assert_eq!(item.confirmed, false);
    assert_eq!(item.f_cnt, 0);
    assert_eq!(item.json_object, "");
}

#[test]
fn queue_item_accepts_either_letter_case() {
    let lower = build_queue_item(&action("0a1b2c")).unwrap();
    let upper = build_queue_item(&action("0A1B2C")).unwrap();
    assert_eq!(lower.data, upper.data);
    assert_eq!(lower.data, b"Chss".to_vec());
}

#[test]
fn queue_item_base64_padding_variants() {
    // one trailing byte pads with two characters, two with one, three with none
    assert_eq!(build_queue_item(&action("08")).unwrap().data, b"CA==".to_vec());
    assert_eq!(build_queue_item(&action("0801")).unwrap().data, b"CAE=".to_vec());
    assert_eq!(build_queue_item(&action("080100")).unwrap().data, b"CAEA".to_vec());
    assert_eq!(build_queue_item(&action("")).unwrap().data, b"".to_vec());
}

#[test]
fn queue_item_refuses_malformed_hex() {
    // odd length
    assert!(build_queue_item(&action("080")).is_err());
    // a character outside the hexadecimal digits
    assert!(build_queue_item(&action("08g1")).is_err());
    assert!(build_queue_item(&action("hello")).is_err());
}

fn plain_payload(hex: &str) -> DownlinkPayload {
    DownlinkPayload::new("Open", "To open socket", false, hex)
}

fn configurable_payload(hex: &str) -> DownlinkPayload {
    DownlinkPayload::new("Set", "Set a value", true, hex)
}

#[test]
fn message_joins_header_and_chosen_commands() {
    let down = Downlink::new("aa", false, vec![plain_payload("080100ff"), plain_payload("080000ff")]);
    let msg = downlink_message(&down, &vec![1, 0], &vec![None, None]).unwrap();
    assert_eq!(msg, "aa080000ff080100ff");
}

#[test]
fn counted_message_splices_doubly_encoded_length() {
    // one command of eight digits: four bytes; the length byte 04 encodes
    // to "04", whose two characters hex-encode once more to "3034"
    let down = Downlink::new("aa", true, vec![plain_payload("080100ff")]);
    let msg = downlink_message(&down, &vec![0], &vec![None]).unwrap();
    assert_eq!(msg, "aa3034080100ff");
}

#[test]
fn configurable_command_takes_the_configured_text() {
    let down = Downlink::new("", false, vec![configurable_payload("00000000")]);
    let msg = downlink_message(&down, &vec![0], &vec![Some("12ab34cd".to_string())]).unwrap();
    assert_eq!(msg, "12ab34cd");
}

#[test]
fn configurable_command_refuses_wrong_length_or_missing_text() {
    let down = Downlink::new("", false, vec![configurable_payload("00000000")]);
    // wrong length against the template
    assert!(downlink_message(&down, &vec![0], &vec![Some("12ab".to_string())]).is_err());
    // no configured text at all
    assert!(downlink_message(&down, &vec![0], &vec![None]).is_err());
}

#[test]
fn configured_text_needs_a_hex_digit_and_the_template_length() {
    assert!(valid_configured("12ab34cd", "00000000"));
    // same length, and one hexadecimal digit suffices
    assert!(valid_configured("zzzzzzz1", "00000000"));
    // no hexadecimal digit at all
    assert!(!valid_configured("zzzzzzzz", "00000000"));
    // wrong length
    assert!(!valid_configured("12ab", "00000000"));
}
