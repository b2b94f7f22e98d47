use keyboard_owner::clipboard_hash::BoundedTextHash;
use sha2::{Digest, Sha256};

const LIMIT: usize = 64;

#[test]
fn oversized_text_is_refused_before_conversion() {
    assert!(BoundedTextHash::begin((LIMIT + 1) as i64, (LIMIT + 1) as i64 * 3, LIMIT).is_none());
    assert!(BoundedTextHash::begin(-1, 10, LIMIT).is_none());
    // The platform's UTF-8 bound can never be below the code-unit count.
    assert!(BoundedTextHash::begin(10, 9, LIMIT).is_none());
    assert!(BoundedTextHash::begin(LIMIT as i64, LIMIT as i64 * 3, LIMIT).is_some());
}

#[test]
fn chunked_conversion_hashes_the_exact_utf8() {
    let text = "bounded 🦀 clipboard";
    let units = text.encode_utf16().count();
    let bytes = text.as_bytes();
    let mut hash = BoundedTextHash::begin(units as i64, units as i64 * 3, LIMIT).unwrap();
    assert_eq!(hash.remaining_range(), (0, units));
    // "bounded " is 8 code units and 8 bytes; the crab is 2 units, 4 bytes.
    let mut buffer = [0u8; 16];
    buffer[..12].copy_from_slice(&bytes[..12]);
    assert!(hash.accept_chunk(10, 12, &buffer));
    assert!(!hash.is_complete());
    assert_eq!(hash.remaining_range(), (10, units - 10));
    let rest = &bytes[12..];
    buffer[..rest.len()].copy_from_slice(rest);
    assert!(hash.accept_chunk((units - 10) as i64, rest.len() as i64, &buffer));
    assert!(hash.is_complete());
    let expected: [u8; 32] = Sha256::digest(bytes).into();
    assert_eq!(hash.digest().as_bytes(), &expected);
}

#[test]
fn malformed_chunks_are_refused() {
    let mut hash = BoundedTextHash::begin(4, 12, 8).unwrap();
    let buffer = [b'a'; 6];
    assert!(!hash.accept_chunk(0, 1, &buffer));
    assert!(!hash.accept_chunk(5, 1, &buffer));
    assert!(!hash.accept_chunk(1, 0, &buffer));
    assert!(!hash.accept_chunk(1, 7, &buffer));
    assert!(hash.accept_chunk(2, 6, &buffer));
    // Two more bytes would pass the limit of eight.
    assert!(!hash.accept_chunk(2, 3, &buffer));
    assert!(hash.accept_chunk(2, 2, &buffer));
    assert!(hash.is_complete());
    let expected: [u8; 32] = Sha256::digest(b"aaaaaaaa").into();
    assert_eq!(hash.digest().as_bytes(), &expected);
}
