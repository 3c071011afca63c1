//! Exact wire bytes of the request encoder.

use confidential_markets::encoder::{encode_arguments, Argument, ArgumentEncoder};
use confidential_markets::record::Principal;

#[test]
fn scalars_encode_tagged_little_endian() {
    let args = ArgumentEncoder::new()
        .plaintext_bool(true)
        .plaintext_u16(0x0102)
        .plaintext_u64(0x0A0B0C0D)
        .build();
    let bytes = encode_arguments(&args);
    let mut expected = vec![0u8, 1];
    expected.extend_from_slice(&[1, 0x02, 0x01]);
    expected.extend_from_slice(&[2, 0x0D, 0x0C, 0x0B, 0x0A, 0, 0, 0, 0]);
    assert_eq!(bytes, expected);
}

#[test]
fn nonce_encodes_as_sixteen_bytes() {
    let args = ArgumentEncoder::new().plaintext_u128(7).build();
    let bytes = encode_arguments(&args);
    let mut expected = vec![3u8, 7];
    expected.extend_from_slice(&[0; 15]);
    assert_eq!(bytes, expected);
}

#[test]
fn ciphertexts_and_keys_pass_verbatim() {
    let word = [0xC3u8; 32];
    let args = ArgumentEncoder::new()
        .encrypted_u16(word)
        .encrypted_u64(word)
        .encrypted_u128(word)
        .x25519_pubkey([0x7Fu8; 32])
        .build();
    let bytes = encode_arguments(&args);
    assert_eq!(bytes.len(), 4 * 33);
    assert_eq!(bytes[0], 4);
    assert_eq!(&bytes[1..33], &[0xC3; 32]);
    assert_eq!(bytes[33], 5);
    assert_eq!(bytes[66], 6);
    assert_eq!(bytes[99], 7);
    assert_eq!(&bytes[100..132], &[0x7F; 32]);
}

#[test]
fn record_refs_carry_address_offset_and_length() {
    let address = Principal { lo: 0x01, hi: 0x02 };
    let args = ArgumentEncoder::new().account(address, 76, 160).build();
    let bytes = encode_arguments(&args);
    let mut expected = vec![8u8];
    expected.push(0x01);
    expected.extend_from_slice(&[0; 15]);
    expected.push(0x02);
    expected.extend_from_slice(&[0; 15]);
    expected.extend_from_slice(&[76, 0, 0, 0]);
    expected.extend_from_slice(&[160, 0, 0, 0]);
    assert_eq!(bytes, expected);
}

#[test]
fn encoding_preserves_build_order() {
    let args = ArgumentEncoder::new()
        .plaintext_u16(1)
        .plaintext_u16(2)
        .build();
    assert_eq!(args, vec![Argument::PlaintextU16(1), Argument::PlaintextU16(2)]);
    let swapped = ArgumentEncoder::new()
        .plaintext_u16(2)
        .plaintext_u16(1)
        .build();
    assert_ne!(encode_arguments(&args), encode_arguments(&swapped));
}
