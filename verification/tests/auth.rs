//! The authorization payload check: a well-formed payload binding the right
//! key, message digest and signature passes, and flipping any bit of the key,
//! the message or the signature makes it fail.

use payment::errors::ErrorCode;
use payment::utils::{get_ata_owner, verify_ed25519_instruction};
use sha2::Digest;

const KEY: [u8; 32] = [11u8; 32];
const SIG: [u8; 64] = [7u8; 64];

fn payload(signer: &[u8; 32], message: &[u8], signature: &[u8; 64]) -> Vec<u8> {
    let mut data = vec![1u8, 0u8];
    let offsets: [u16; 7] = [16, 0, 80, 0, 112, 32, 0];
    for o in offsets {
        data.extend_from_slice(&o.to_le_bytes());
    }
    data.extend_from_slice(signature);
    data.extend_from_slice(signer);
    let digest = sha2::Sha256::digest(message);
    data.extend_from_slice(&digest);
    data
}

#[test]
fn well_formed_payload_passes() {
    let msg = b"canonical message".to_vec();
    let data = payload(&KEY, &msg, &SIG);
    assert!(verify_ed25519_instruction(Some(&data), &KEY, &msg, &SIG).is_ok());
}

#[test]
fn missing_payload_rejected() {
    let msg = b"canonical message".to_vec();
    assert_eq!(
        verify_ed25519_instruction(None, &KEY, &msg, &SIG).unwrap_err(),
        ErrorCode::MissingEd25519Instruction
    );
}

#[test]
fn tampered_signature_rejected() {
    let msg = b"canonical message".to_vec();
    let data = payload(&KEY, &msg, &SIG);
    for bit in 0..8 {
        let mut sig = SIG;
        sig[20] ^= 1u8 << bit;
        assert_eq!(
            verify_ed25519_instruction(Some(&data), &KEY, &msg, &sig).unwrap_err(),
            ErrorCode::InvalidSignature
        );
    }
}

#[test]
fn tampered_key_rejected() {
    let msg = b"canonical message".to_vec();
    let data = payload(&KEY, &msg, &SIG);
    for bit in 0..8 {
        let mut key = KEY;
        key[0] ^= 1u8 << bit;
        assert_eq!(
            verify_ed25519_instruction(Some(&data), &key, &msg, &SIG).unwrap_err(),
            ErrorCode::InvalidPublicKey
        );
    }
}

#[test]
fn tampered_message_rejected() {
    let msg = b"canonical message".to_vec();
    let data = payload(&KEY, &msg, &SIG);
    for bit in 0..8 {
        let mut tampered = msg.clone();
        tampered[5] ^= 1u8 << bit;
        assert_eq!(
            verify_ed25519_instruction(Some(&data), &KEY, &tampered, &SIG).unwrap_err(),
            ErrorCode::InvalidMessage
        );
    }
}

#[test]
fn digest_is_checked_not_copied() {
    // a payload embedding the message itself instead of its digest must fail:
    // the verifier recomputes the digest locally
    let msg = [42u8; 32].to_vec();
    let mut data = vec![1u8, 0u8];
    let offsets: [u16; 7] = [16, 0, 80, 0, 112, 32, 0];
    for o in offsets {
        data.extend_from_slice(&o.to_le_bytes());
    }
    data.extend_from_slice(&SIG);
    data.extend_from_slice(&KEY);
    data.extend_from_slice(&msg);
    assert_eq!(
        verify_ed25519_instruction(Some(&data), &KEY, &msg, &SIG).unwrap_err(),
        ErrorCode::InvalidMessage
    );
}

#[test]
fn malformed_payloads_rejected() {
    let msg = b"canonical message".to_vec();
    // too short to hold the header
    assert_eq!(
        verify_ed25519_instruction(Some(&[1u8]), &KEY, &msg, &SIG).unwrap_err(),
        ErrorCode::InvalidEd25519Instruction
    );
    assert_eq!(
        verify_ed25519_instruction(Some(&[1u8, 0, 0, 0]), &KEY, &msg, &SIG).unwrap_err(),
        ErrorCode::InvalidEd25519Instruction
    );
    // a payload declaring two signatures
    let mut data = payload(&KEY, &msg, &SIG);
    data[0] = 2;
    assert_eq!(
        verify_ed25519_instruction(Some(&data), &KEY, &msg, &SIG).unwrap_err(),
        ErrorCode::InvalidEd25519Instruction
    );
    // a payload whose offsets point past its end
    let mut data = payload(&KEY, &msg, &SIG);
    data.truncate(100);
    assert_eq!(
        verify_ed25519_instruction(Some(&data), &KEY, &msg, &SIG).unwrap_err(),
        ErrorCode::InvalidEd25519Instruction
    );
}

#[test]
fn ata_owner_read_from_image() {
    let mut image = vec![0u8; 165];
    for i in 0..32 {
        image[32 + i] = i as u8;
    }
    let owner = get_ata_owner(&image).unwrap();
    for i in 0..32 {
        assert_eq!(owner[i], i as u8);
    }
    // an image too short to carry an owner
    assert_eq!(
        get_ata_owner(&image[..63]).unwrap_err(),
        ErrorCode::InvalidATAOwner
    );
}
