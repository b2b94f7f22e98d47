use keyboard_owner::endpoint::{
    broker_request_magic, broker_response_magic, encode_broker_header, encode_broker_request,
    parse_broker_response, probe_state_matches, purpose_from_tag, purpose_tag,
    validate_broker_header, BrokerPurpose, HandshakeStartLimiter, MacosEndpointError,
    SocketInode, BROKER_HEADER_BYTES, BROKER_RESPONSE_BYTES, BROKER_RESPONSE_PAYLOAD_BYTES,
    MAX_HANDSHAKE_STARTS_PER_SECOND,
};
use keyboard_owner::identity::Bytes32;

#[test]
fn probe_state_requires_exact_inode_before_after_and_nonce() {
    let expected = SocketInode {
        device: 1,
        inode: 2,
    };
    assert!(probe_state_matches(
        Some(expected),
        expected,
        Some(expected),
        true
    ));
    assert!(!probe_state_matches(None, expected, Some(expected), true));
    assert!(!probe_state_matches(
        Some(expected),
        expected,
        Some(SocketInode {
            device: 1,
            inode: 3
        }),
        true
    ));
    assert!(!probe_state_matches(
        Some(expected),
        expected,
        Some(expected),
        false
    ));
}

fn response_frame(nonce: &Bytes32, purpose: BrokerPurpose) -> Vec<u8> {
    let mut frame = encode_broker_header(
        &broker_response_magic(),
        purpose,
        BROKER_RESPONSE_PAYLOAD_BYTES as u32,
    );
    frame.extend_from_slice(nonce.as_bytes());
    frame.extend_from_slice(&[42; 32]);
    frame.extend_from_slice(&[43; 32]);
    frame
}

#[test]
fn broker_response_is_nonce_purpose_version_and_length_exact() {
    let nonce = Bytes32::new([41; 32]);
    let mut frame = response_frame(&nonce, BrokerPurpose::Capture);
    assert_eq!(frame.len(), BROKER_RESPONSE_BYTES);
    let parsed = parse_broker_response(&frame, BrokerPurpose::Capture, &nonce)
        .ok()
        .expect("valid response");
    assert_eq!(parsed.connection_binding.as_bytes(), &[42; 32]);
    assert_eq!(parsed.secret, [43; 32]);
    frame[8] ^= 1;
    assert!(parse_broker_response(&frame, BrokerPurpose::Capture, &nonce).is_err());
    frame[8] ^= 1;
    assert!(
        parse_broker_response(&frame, BrokerPurpose::Capture, &Bytes32::new([44; 32])).is_err()
    );
    assert!(parse_broker_response(&frame, BrokerPurpose::Observe, &nonce).is_err());
    frame[15] ^= 1;
    assert!(parse_broker_response(&frame, BrokerPurpose::Capture, &nonce).is_err());
}

#[test]
fn broker_response_rejects_zero_binding_or_secret() {
    let nonce = Bytes32::new([41; 32]);
    let mut frame = response_frame(&nonce, BrokerPurpose::Maintenance);
    for byte in &mut frame[48..80] {
        *byte = 0;
    }
    assert_eq!(
        parse_broker_response(&frame, BrokerPurpose::Maintenance, &nonce).err(),
        Some(MacosEndpointError::Handshake)
    );
    let mut frame = response_frame(&nonce, BrokerPurpose::Maintenance);
    for byte in &mut frame[80..112] {
        *byte = 0;
    }
    assert!(parse_broker_response(&frame, BrokerPurpose::Maintenance, &nonce).is_err());
}

#[test]
fn broker_request_layout_is_exact() {
    let nonce = Bytes32::new([5; 32]);
    let request = encode_broker_request(BrokerPurpose::Observe, &nonce, &[1, 2, 3])
        .ok()
        .expect("request");
    let mut expected = b"TQMBREQ1".to_vec();
    expected.extend_from_slice(&[0, 1, 1, 0, 0, 0, 0, 40]);
    expected.extend_from_slice(&[5; 32]);
    expected.extend_from_slice(&[1, 0, 0, 0, 3, 1, 2, 3]);
    assert_eq!(request, expected);
    assert_eq!(
        encode_broker_request(BrokerPurpose::Observe, &nonce, &[]).err(),
        Some(MacosEndpointError::Handshake)
    );
    assert!(encode_broker_request(BrokerPurpose::Observe, &nonce, &vec![1; 65537]).is_err());
    assert!(encode_broker_request(BrokerPurpose::Observe, &nonce, &vec![1; 65536]).is_ok());
}

#[test]
fn headers_round_trip_and_magic_is_fixed() {
    assert_eq!(&broker_request_magic(), b"TQMBREQ1");
    assert_eq!(&broker_response_magic(), b"TQMBRSP1");
    for purpose in [
        BrokerPurpose::Observe,
        BrokerPurpose::Capture,
        BrokerPurpose::Maintenance,
    ] {
        assert_eq!(purpose_from_tag(purpose_tag(purpose)), Ok(purpose));
        let header = encode_broker_header(&broker_request_magic(), purpose, 70_000);
        assert_eq!(header.len(), BROKER_HEADER_BYTES);
        assert_eq!(
            validate_broker_header(&header, &broker_request_magic(), purpose, 70_000),
            Ok(())
        );
        assert!(validate_broker_header(&header, &broker_response_magic(), purpose, 70_000).is_err());
        assert!(validate_broker_header(&header[..15], &broker_request_magic(), purpose, 70_000).is_err());
    }
    assert_eq!(purpose_from_tag(0), Err(MacosEndpointError::Handshake));
    assert_eq!(purpose_from_tag(4), Err(MacosEndpointError::Handshake));
}

#[test]
fn handshake_start_rate_is_bounded_per_window() {
    let mut limiter = HandshakeStartLimiter::new();
    let base = 10_000_u64;
    for _ in 0..MAX_HANDSHAKE_STARTS_PER_SECOND {
        assert!(limiter.permit_handshake_start_at(base));
    }
    assert!(!limiter.permit_handshake_start_at(base + 999));
    assert!(limiter.permit_handshake_start_at(base + 1000));
}
