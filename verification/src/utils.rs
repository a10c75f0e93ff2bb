//! Authorization checking. A request arrives together with a detached-signature
//! payload produced by the host's signature-verification facility; this module
//! checks that the payload binds the configured signer key, the hash of the
//! canonical message, and the declared signature, byte for byte.

use vstd::prelude::*;
use vstd::bytes::{spec_u16_from_le_bytes, u16_from_le_bytes};
use vstd::slice::slice_subrange;
use crate::codec::bytes_eq;
use crate::errors::ErrorCode;

verus! {

/// The SHA-256 digest of a byte string; what it is on given bytes is known
/// only to the hash function itself.
pub uninterp spec fn sha256_of(data: Seq<u8>) -> Seq<u8>;

/// Relies on sha2::Sha256 (the one-shot `Digest::digest`): the digest is a
/// pure function of the input bytes and is 32 bytes long.
#[verifier::external_body]
fn hash_sha256(data: &[u8]) -> (r: Vec<u8>)
    ensures
        r@ == sha256_of(data@),
        r@.len() == 32,
{
    let digest = <sha2::Sha256 as sha2::Digest>::digest(data);
    digest.to_vec()
}

/// The error of a `Result`, if any.
pub open spec fn err_of<T>(r: Result<T, ErrorCode>) -> Option<ErrorCode> {
    match r {
        Ok(_) => None,
        Err(e) => Some(e),
    }
}

/// The view of an optional byte slice.
pub open spec fn opt_bytes(a: Option<&[u8]>) -> Option<Seq<u8>> {
    match a {
        Some(d) => Some(d@),
        None => None,
    }
}

/// What checking a detached-signature payload returns. The payload's first
/// byte counts the signatures (exactly one is accepted), bytes 2..16 hold the
/// little-endian offsets of the signature, the public key, and the message
/// data inside the payload, and the referenced segments must equal the
/// expected key, the SHA-256 digest of the canonical message, and the declared
/// signature, in that order of checking.
pub open spec fn spec_verify_payload(
    data: Seq<u8>,
    key: Seq<u8>,
    msg: Seq<u8>,
    sig: Seq<u8>,
) -> Option<ErrorCode> {
    if data.len() < 2 {
        Some(ErrorCode::InvalidEd25519Instruction)
    } else if data[0] != 1u8 {
        Some(ErrorCode::InvalidEd25519Instruction)
    } else if data.len() < 16 {
        Some(ErrorCode::InvalidEd25519Instruction)
    } else {
        let sig_off = spec_u16_from_le_bytes(data.subrange(2, 4)) as int;
        let pub_off = spec_u16_from_le_bytes(data.subrange(6, 8)) as int;
        let msg_off = spec_u16_from_le_bytes(data.subrange(10, 12)) as int;
        let msg_size = spec_u16_from_le_bytes(data.subrange(12, 14)) as int;
        if pub_off + 32 > data.len() {
            Some(ErrorCode::InvalidEd25519Instruction)
        } else if data.subrange(pub_off, pub_off + 32) != key {
            Some(ErrorCode::InvalidPublicKey)
        } else if msg_off + msg_size > data.len() {
            Some(ErrorCode::InvalidEd25519Instruction)
        } else if data.subrange(msg_off, msg_off + msg_size) != sha256_of(msg) {
            Some(ErrorCode::InvalidMessage)
        } else if sig_off + 64 > data.len() {
            Some(ErrorCode::InvalidEd25519Instruction)
        } else if data.subrange(sig_off, sig_off + 64) != sig {
            Some(ErrorCode::InvalidSignature)
        } else {
            None
        }
    }
}

/// What verifying a request's authorization returns: a missing payload is
/// rejected outright, a present one is checked byte for byte.
pub open spec fn spec_verify(
    auth: Option<Seq<u8>>,
    key: Seq<u8>,
    msg: Seq<u8>,
    sig: Seq<u8>,
) -> Option<ErrorCode> {
    match auth {
        None => Some(ErrorCode::MissingEd25519Instruction),
        Some(data) => spec_verify_payload(data, key, msg, sig),
    }
}

/// Checks that the authorization payload accompanying a request binds the
/// expected public key, the SHA-256 digest of the canonical message, and the
/// declared signature. `instruction_data` is `None` when no payload preceded
/// the request.
pub fn verify_ed25519_instruction(
    instruction_data: Option<&[u8]>,
    expected_public_key: &[u8; 32],
    message: &[u8],
    signature: &[u8; 64],
) -> (r: Result<(), ErrorCode>)
    ensures
        err_of(r) == spec_verify(
            opt_bytes(instruction_data),
            expected_public_key@,
            message@,
            signature@,
        ),
{
    let data: &[u8] = match instruction_data {
        None => {
            return Err(ErrorCode::MissingEd25519Instruction);
        },
        Some(d) => d,
    };
    if data.len() < 2 {
        return Err(ErrorCode::InvalidEd25519Instruction);
    }
    if data[0] != 1u8 {
        return Err(ErrorCode::InvalidEd25519Instruction);
    }
    if data.len() < 16 {
        return Err(ErrorCode::InvalidEd25519Instruction);
    }
    let sig_off = u16_from_le_bytes(slice_subrange(data, 2, 4)) as usize;
    let pub_off = u16_from_le_bytes(slice_subrange(data, 6, 8)) as usize;
    let msg_off = u16_from_le_bytes(slice_subrange(data, 10, 12)) as usize;
    let msg_size = u16_from_le_bytes(slice_subrange(data, 12, 14)) as usize;
    if pub_off + 32 > data.len() {
        return Err(ErrorCode::InvalidEd25519Instruction);
    }
    if !bytes_eq(slice_subrange(data, pub_off, pub_off + 32), expected_public_key.as_slice()) {
        return Err(ErrorCode::InvalidPublicKey);
    }
    if msg_off + msg_size > data.len() {
        return Err(ErrorCode::InvalidEd25519Instruction);
    }
    let digest = hash_sha256(message);
    if !bytes_eq(slice_subrange(data, msg_off, msg_off + msg_size), digest.as_slice()) {
        return Err(ErrorCode::InvalidMessage);
    }
    if sig_off + 64 > data.len() {
        return Err(ErrorCode::InvalidEd25519Instruction);
    }
    if !bytes_eq(slice_subrange(data, sig_off, sig_off + 64), signature.as_slice()) {
        return Err(ErrorCode::InvalidSignature);
    }
    Ok(())
}

/// Reads the owner key out of a token-account image: bytes 32..64 of the
/// account data. An image too short to carry an owner is rejected.
pub fn get_ata_owner(data: &[u8]) -> (r: Result<[u8; 32], ErrorCode>)
    ensures
        match r {
            Ok(owner) => data@.len() >= 64 && owner@ == data@.subrange(32, 64),
            Err(e) => e == ErrorCode::InvalidATAOwner && data@.len() < 64,
        },
{
    if data.len() < 64 {
        return Err(ErrorCode::InvalidATAOwner);
    }
    let mut owner: [u8; 32] = [0u8; 32];
    let mut i: usize = 0;
    while i < 32
        invariant
            i <= 32,
            data@.len() >= 64,
            forall|j: int| 0 <= j < i ==> owner@[j] == data@[32 + j],
        decreases 32 - i,
    {
        owner[i] = data[32 + i];
        i = i + 1;
    }
    proof {
        assert(owner@ =~= data@.subrange(32, 64));
    }
    Ok(owner)
}

} // verus!
