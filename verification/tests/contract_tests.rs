use web_container::codec::{encode, FormatError};
use web_container::contract::{build_signing_message, ContractError, UpdateData, ValidateResult,
    WebContract};
use web_container::delegate::{AppRequest, AppResponse, InboundMessage, WebDelegate};
use web_container::metadata::WebContainerMetadata;
use web_container::signer::sign_container;

fn hx(s: &str) -> Vec<u8> {
    let digits: Vec<u8> = s
        .chars()
        .map(|c| c.to_digit(16).expect("hex digit") as u8)
        .collect();
    digits.chunks(2).map(|p| (p[0] << 4) | p[1]).collect()
}

// Test vector 1 of RFC 8032, section 7.1.
const RFC_SEED: &str = "9d61b19deffd5a60ba844af492ec2cc44449c5697b326919703bac031cae7f60";
const RFC_PUBLIC_KEY: &str = "d75a980182b10ab7d54bfed3c964073a0ee172f3daa62325af021a68f707511a";

#[test]
fn signing_message_is_version_prefix_then_content() {
    let message = build_signing_message(1, b"hello");
    assert_eq!(message, vec![0, 0, 0, 1, 0x68, 0x65, 0x6c, 0x6c, 0x6f]);
}

#[test]
fn signed_container_validates_against_derived_public_key() {
    let seed = hx(RFC_SEED);
    let public_key = hx(RFC_PUBLIC_KEY);
    let container = sign_container(&seed, 1, b"hello").unwrap();
    assert_eq!(
        WebContract::validate_state(&public_key, &container),
        Ok(ValidateResult::Valid)
    );
}

#[test]
fn container_layout_matches_the_framing() {
    let seed = hx(RFC_SEED);
    let container = sign_container(&seed, 1, b"hello").unwrap();
    let metadata_len = u64::from_be_bytes(container[0..8].try_into().unwrap()) as usize;
    assert!(metadata_len <= 1024);
    let content_len_at = 8 + metadata_len;
    assert_eq!(
        &container[content_len_at..content_len_at + 8],
        &[0, 0, 0, 0, 0, 0, 0, 5]
    );
    assert_eq!(&container[content_len_at + 8..], b"hello");
}

#[test]
fn tampered_last_content_byte_is_invalid() {
    let seed = hx(RFC_SEED);
    let public_key = hx(RFC_PUBLIC_KEY);
    let mut container = sign_container(&seed, 1, b"hello").unwrap();
    let last = container.len() - 1;
    container[last] = b'p';
    assert_eq!(
        WebContract::validate_state(&public_key, &container),
        Ok(ValidateResult::Invalid)
    );
}

#[test]
fn every_single_bit_flip_of_content_is_invalid() {
    let seed = hx(RFC_SEED);
    let public_key = hx(RFC_PUBLIC_KEY);
    let container = sign_container(&seed, 1, b"hello").unwrap();
    let content_start = container.len() - 5;
    for i in 0..5 {
        for bit in 0..8 {
            let mut tampered = container.clone();
            tampered[content_start + i] ^= 1 << bit;
            assert_eq!(
                WebContract::validate_state(&public_key, &tampered),
                Ok(ValidateResult::Invalid)
            );
        }
    }
}

#[test]
fn version_zero_is_invalid_even_with_a_matching_signature() {
    let seed = hx(RFC_SEED);
    let public_key = hx(RFC_PUBLIC_KEY);
    // Sign exactly the version-zero message, so that only the version rule
    // can reject the container.
    let message = build_signing_message(0, b"hello");
    let out = WebDelegate::process(
        InboundMessage::Application(AppRequest::SignContent { content: message }),
        Some(seed),
    );
    let signature = match &out.responses[0] {
        AppResponse::ContentSigned { signature, .. } => signature.clone(),
        _ => unreachable!(),
    };
    let metadata = WebContainerMetadata { version: 0, signature };
    let container = encode(&metadata.to_bytes(), b"hello");
    assert_eq!(
        WebContract::validate_state(&public_key, &container),
        Ok(ValidateResult::Invalid)
    );
}

#[test]
fn short_and_long_parameters_are_hard_errors() {
    let seed = hx(RFC_SEED);
    let container = sign_container(&seed, 1, b"hello").unwrap();
    for len in [0usize, 31, 33] {
        let parameters = vec![0u8; len];
        assert_eq!(
            WebContract::validate_state(&parameters, &container),
            Err(ContractError::InvalidParameters)
        );
    }
}

#[test]
fn oversized_declared_lengths_are_hard_errors() {
    let public_key = hx(RFC_PUBLIC_KEY);
    let mut state = vec![0u8; 8];
    state[6] = 0x07;
    state[7] = 0xd0;
    assert_eq!(
        WebContract::validate_state(&public_key, &state),
        Err(ContractError::Format(FormatError::OversizedField))
    );
    let mut state = vec![0u8; 16];
    let too_big: u64 = 100 * 1024 * 1024 + 1;
    state[8..16].copy_from_slice(&too_big.to_be_bytes());
    assert_eq!(
        WebContract::validate_state(&public_key, &state),
        Err(ContractError::Format(FormatError::OversizedField))
    );
}

#[test]
fn truncated_state_is_a_hard_error() {
    let public_key = hx(RFC_PUBLIC_KEY);
    assert_eq!(
        WebContract::validate_state(&public_key, &[]),
        Err(ContractError::Format(FormatError::Truncated))
    );
}

#[test]
fn empty_metadata_is_a_deserialization_error() {
    let public_key = hx(RFC_PUBLIC_KEY);
    let container = encode(&[], b"hello");
    assert_eq!(
        WebContract::validate_state(&public_key, &container),
        Err(ContractError::Deserialization)
    );
}

#[test]
fn wrong_signature_length_in_metadata_is_a_deserialization_error() {
    let public_key = hx(RFC_PUBLIC_KEY);
    let metadata = WebContainerMetadata { version: 1, signature: vec![7u8; 10] };
    let container = encode(&metadata.to_bytes(), b"hello");
    assert_eq!(
        WebContract::validate_state(&public_key, &container),
        Err(ContractError::Deserialization)
    );
}

#[test]
fn update_takes_the_first_full_state_verbatim() {
    let new_state = vec![1u8, 2, 3];
    let updates = vec![UpdateData::State(new_state.clone()), UpdateData::Delta(vec![9])];
    assert_eq!(
        WebContract::update_state(&[], &[0u8; 4], updates),
        Ok(new_state)
    );
}

#[test]
fn update_rejects_deltas_and_empty_updates() {
    assert_eq!(
        WebContract::update_state(&[], &[], vec![UpdateData::Delta(vec![1])]),
        Err(ContractError::InvalidUpdate)
    );
    assert_eq!(
        WebContract::update_state(&[], &[], Vec::new()),
        Err(ContractError::InvalidUpdate)
    );
}

#[test]
fn summary_is_the_sha256_of_the_state() {
    let digest = WebContract::summarize_state(&[], b"abc").unwrap();
    assert_eq!(
        digest,
        hx("ba7816bf8f01cfea414140de5dae2223b00361a396177a9cb410ff61f20015ad")
    );
}

#[test]
fn summary_is_deterministic_and_change_sensitive() {
    let state = b"some stored container bytes";
    let first = WebContract::summarize_state(&[], state).unwrap();
    let second = WebContract::summarize_state(&[], state).unwrap();
    assert_eq!(first, second);
    let mut changed = state.to_vec();
    changed[0] ^= 1;
    let third = WebContract::summarize_state(&[], &changed).unwrap();
    assert_ne!(first, third);
}

#[test]
fn delta_is_the_full_state_whatever_the_summary() {
    let state = vec![5u8, 6, 7, 8];
    assert_eq!(
        WebContract::get_state_delta(&[], &state, &[]).unwrap(),
        state
    );
    assert_eq!(
        WebContract::get_state_delta(&[], &state, &[0xde, 0xad]).unwrap(),
        state
    );
}
