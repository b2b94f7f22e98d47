use hmac::digest::KeyInit;
use hmac::{Hmac, Mac};
use keyboard_owner::identity::Bytes32;
use keyboard_owner::service_bridge::{
    accept_response_byte, unregister_status_accepted, verify_response, LoginItemError,
    ResponseLineStep, MAX_RESPONSE_LINE_BYTES,
};
use sha2::Sha256;

fn mac_hex(key: &[u8; 32], pid: u32, session: u32, sequence: u64, status: u64) -> String {
    let mut mac = <Hmac<Sha256> as KeyInit>::new_from_slice(key).unwrap();
    mac.update(b"talking-quill/macos-service-bridge-response/v1\0");
    mac.update(&pid.to_be_bytes());
    mac.update(&session.to_be_bytes());
    mac.update(&sequence.to_be_bytes());
    mac.update(b"unregister");
    mac.update(&status.to_be_bytes());
    mac.finalize()
        .into_bytes()
        .iter()
        .map(|byte| format!("{byte:02x}"))
        .collect()
}

#[test]
fn authentic_unregister_answer_yields_its_status() {
    let key = [21_u8; 32];
    let line = format!("44 12 7 unregister 3 {}", mac_hex(&key, 44, 12, 7, 3));
    assert_eq!(verify_response(&line, Bytes32::new(key), 44, 12, 7), Ok(3));
    assert!(unregister_status_accepted(3));
    assert!(unregister_status_accepted(0));
    assert!(!unregister_status_accepted(1));
}

#[test]
fn any_altered_field_is_rejected() {
    let key = [21_u8; 32];
    let mac = mac_hex(&key, 44, 12, 7, 0);
    let good = format!("44 12 7 unregister 0 {mac}");
    assert_eq!(verify_response(&good, Bytes32::new(key), 44, 12, 7), Ok(0));
    for line in [
        format!("45 12 7 unregister 0 {mac}"),
        format!("44 13 7 unregister 0 {mac}"),
        format!("44 12 8 unregister 0 {mac}"),
        format!("44 12 7 register 0 {mac}"),
        format!("44 12 7 unregister 1 {mac}"),
        format!("44 12 7 unregister 0 {}", mac.to_uppercase()),
        format!("44 12 7 unregister 0 {mac} extra"),
        format!("44  12 7 unregister 0 {mac}"),
        format!("44 12 7 unregister x {mac}"),
        String::new(),
    ] {
        assert_eq!(
            verify_response(&line, Bytes32::new(key), 44, 12, 7),
            Err(LoginItemError)
        );
    }
    assert_eq!(
        verify_response(&good, Bytes32::new([22; 32]), 44, 12, 7),
        Err(LoginItemError)
    );
}

#[test]
fn decimal_fields_read_as_the_standard_parser_reads_them() {
    let key = [5_u8; 32];
    let mac = mac_hex(&key, 44, 12, 7, 3);
    let line = format!("+44 012 7 unregister +3 {mac}");
    assert_eq!(verify_response(&line, Bytes32::new(key), 44, 12, 7), Ok(3));
    let overflow = format!("4294967340 12 7 unregister 3 {mac}");
    assert_eq!(
        verify_response(&overflow, Bytes32::new(key), 44, 12, 7),
        Err(LoginItemError)
    );
    let signed = format!("-44 12 7 unregister 3 {mac}");
    assert!(verify_response(&signed, Bytes32::new(key), 44, 12, 7).is_err());
}

#[test]
fn response_line_is_bounded() {
    let mut line = Vec::new();
    assert_eq!(accept_response_byte(&mut line, b'a'), ResponseLineStep::Continue);
    assert_eq!(line, b"a".to_vec());
    assert_eq!(accept_response_byte(&mut line, b'\n'), ResponseLineStep::Complete);
    let mut full = vec![b'x'; MAX_RESPONSE_LINE_BYTES];
    assert_eq!(accept_response_byte(&mut full, b'y'), ResponseLineStep::TooLong);
    assert_eq!(full.len(), MAX_RESPONSE_LINE_BYTES);
    assert_eq!(accept_response_byte(&mut full, b'\n'), ResponseLineStep::Complete);
}
