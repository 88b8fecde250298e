use web_container::codec::{decode, encode, FormatError};

#[test]
fn round_trip_small() {
    let metadata = vec![1u8, 2, 3, 4];
    let content = vec![9u8, 8, 7];
    let framed = encode(&metadata, &content);
    let (m, c) = decode(&framed).unwrap();
    assert_eq!(m, metadata);
    assert_eq!(c, content);
}

#[test]
fn round_trip_empty() {
    let framed = encode(&[], &[]);
    assert_eq!(framed, vec![0u8; 16]);
    let (m, c) = decode(&framed).unwrap();
    assert_eq!(m, Vec::<u8>::new());
    assert_eq!(c, Vec::<u8>::new());
}

#[test]
fn round_trip_max_metadata() {
    let metadata = vec![0xabu8; 1024];
    let content = vec![0xcdu8; 10];
    let framed = encode(&metadata, &content);
    let (m, c) = decode(&framed).unwrap();
    assert_eq!(m, metadata);
    assert_eq!(c, content);
}

#[test]
fn frame_layout_is_big_endian_length_prefixed() {
    let framed = encode(&[0xaa], &[0xbb, 0xcc]);
    assert_eq!(
        framed,
        vec![0, 0, 0, 0, 0, 0, 0, 1, 0xaa, 0, 0, 0, 0, 0, 0, 0, 2, 0xbb, 0xcc]
    );
}

#[test]
fn oversized_metadata_length_rejected_before_payload() {
    // Declared metadata length 2000 > 1024, with nothing behind it: the
    // oversize verdict must come before any attempt to read the payload.
    let mut state = vec![0u8; 8];
    state[6] = 0x07;
    state[7] = 0xd0;
    assert_eq!(decode(&state), Err(FormatError::OversizedField));
}

#[test]
fn oversized_content_length_rejected_before_payload() {
    // Metadata length 0, then declared content length 100 MiB + 1 with an
    // empty buffer behind it.
    let mut state = vec![0u8; 16];
    let too_big: u64 = 100 * 1024 * 1024 + 1;
    state[8..16].copy_from_slice(&too_big.to_be_bytes());
    assert_eq!(decode(&state), Err(FormatError::OversizedField));
}

#[test]
fn truncated_empty_buffer() {
    assert_eq!(decode(&[]), Err(FormatError::Truncated));
}

#[test]
fn truncated_metadata_payload() {
    // Declares 10 metadata bytes but supplies 5.
    let mut state = vec![0u8; 8];
    state[7] = 10;
    state.extend_from_slice(&[1, 2, 3, 4, 5]);
    assert_eq!(decode(&state), Err(FormatError::Truncated));
}

#[test]
fn truncated_missing_content_length() {
    // Metadata of 2 bytes present, but no content length field follows.
    let mut state = vec![0u8; 8];
    state[7] = 2;
    state.extend_from_slice(&[1, 2]);
    assert_eq!(decode(&state), Err(FormatError::Truncated));
}

#[test]
fn truncated_content_payload() {
    // Declares 4 content bytes but supplies 3.
    let mut state = vec![0u8; 8];
    state.extend_from_slice(&[0, 0, 0, 0, 0, 0, 0, 4, 0xaa, 0xbb, 0xcc]);
    assert_eq!(decode(&state), Err(FormatError::Truncated));
}

#[test]
fn trailing_bytes_are_ignored() {
    let mut framed = encode(&[1, 2], &[3, 4, 5]);
    framed.push(0xff);
    let (m, c) = decode(&framed).unwrap();
    assert_eq!(m, vec![1, 2]);
    assert_eq!(c, vec![3, 4, 5]);
}
