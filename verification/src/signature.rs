//! Signature-based authentication.
//!
//! A signer proves control of an address by signing the framed pair of a
//! bound address and an action label. The registry prepares that message and
//! checks the signature's shape. Recovering the signer's public key from
//! message and signature, and hashing the key, is the caller's part. The
//! caller reports what it ran the recovery on and what came of it as a
//! [`Recovery`]. The registry accepts a report on the very message and
//! signature at hand, derives the signer's address from it and compares the
//! address with the expected one.

use crate::account::{AccountError, Address};
use crate::framing::{
    bytes_equal, frame, lemma_frame_injective, message_bytes, prepare_hash_multiple,
};
use vstd::prelude::*;
use vstd::utf8::*;

verus! {

/// The number of bytes of a signature: a 64-byte recovery value and a
/// 1-byte recovery id.
pub const SIGNATURE_LENGTH: usize = 65;

/// A public-key recovery, as the caller reports it.
#[derive(Debug)]
pub struct Recovery {
    /// The message that the recovery ran on.
    pub message: Vec<u8>,
    /// The signature that the recovery ran on.
    pub signature: Vec<u8>,
    /// The Keccak-256 digest of the recovered public key, or `None` where no
    /// key could be recovered.
    pub key_digest: Option<[u8; 32]>,
}

/// The canonical message for `address` and `label`: the framed pair of the
/// address bytes and the UTF-8 bytes of the label.
pub open spec fn signed_bytes(address: Seq<u8>, label: Seq<char>) -> Seq<u8> {
    frame(seq![address, encode_utf8(label)])
}

/// The address that belongs to a public key with the given Keccak-256
/// digest: the last 20 of its 32 bytes.
pub open spec fn digest_address(digest: Seq<u8>) -> Seq<u8> {
    digest.subrange(12, 32)
}

/// The signer that a recovery names: none where its signature does not have
/// 65 bytes or no key was recovered.
pub open spec fn recovered_signer(recovery: Recovery) -> Option<Seq<u8>> {
    if recovery.signature@.len() == 65 && recovery.key_digest is Some {
        Some(digest_address(recovery.key_digest->0@))
    } else {
        None
    }
}

/// True when `signature` is accepted for `signer`: the recovery ran on the
/// canonical message for `address` and `label` and on `signature`, and the
/// signer it names is `signer`.
pub open spec fn signature_accepted(
    signer: Seq<u8>,
    address: Seq<u8>,
    label: Seq<char>,
    signature: Seq<u8>,
    recovery: Recovery,
) -> bool {
    &&& recovery.message@ == signed_bytes(address, label)
    &&& recovery.signature@ == signature
    &&& recovered_signer(recovery) == Some(signer)
}

/// The canonical message determines the address and the label it was built
/// for, so a signature over it speaks for no other pair.
pub proof fn lemma_signed_bytes_injective(
    address: Seq<u8>,
    label: Seq<char>,
    other_address: Seq<u8>,
    other_label: Seq<char>,
)
    requires
        address.len() <= u64::MAX,
        other_address.len() <= u64::MAX,
        encode_utf8(label).len() <= u64::MAX,
        encode_utf8(other_label).len() <= u64::MAX,
        signed_bytes(address, label) == signed_bytes(other_address, other_label),
    ensures
        address == other_address,
        label == other_label,
{
    let parts = seq![address, encode_utf8(label)];
    let other_parts = seq![other_address, encode_utf8(other_label)];
    lemma_frame_injective(parts, other_parts);
    encode_utf8_decode_utf8(label);
    encode_utf8_decode_utf8(other_label);
}

/// Builds the canonical message to sign for `address` and `label`.
pub fn signing_message(address: &Address, label: &str) -> (message: Vec<u8>)
    ensures
        message@ == signed_bytes(address@, label@),
{
    let parts: [&[u8]; 2] = [address.as_slice(), label.as_bytes()];
    assert(message_bytes(parts@) =~= seq![address@, encode_utf8(label@)]);
    prepare_hash_multiple(parts.as_slice())
}

/// Splits a signature into its 64-byte recovery value and its recovery id.
/// A signature that does not have exactly 65 bytes is malformed.
pub fn split_signature(signature: &[u8]) -> (res: Result<([u8; 64], u8), AccountError>)
    ensures
        res is Ok <==> signature@.len() == 65,
        res matches Ok(parts) ==> parts.0@ == signature@.subrange(0, 64) && parts.1
            == signature@[64],
        res matches Err(e) ==> e == AccountError::MalformedSignature,
{
    if signature.len() != SIGNATURE_LENGTH {
        return Err(AccountError::MalformedSignature);
    }
    let mut value: [u8; 64] = [0u8; 64];
    let mut i: usize = 0;
    while i < 64
        invariant
            i <= 64,
            signature@.len() == 65,
            forall|j: int| 0 <= j < i ==> value@[j] == signature@[j],
        decreases 64 - i,
    {
        value[i] = signature[i];
        i = i + 1;
    }
    Ok((value, signature[64]))
}

/// Derives the address of a public key from the key's Keccak-256 digest.
pub fn signer_address(digest: &[u8; 32]) -> (address: Address)
    ensures
        address@ == digest_address(digest@),
{
    let mut address: Address = [0u8; 20];
    let mut i: usize = 0;
    while i < 20
        invariant
            i <= 20,
            forall|j: int| 0 <= j < i ==> address@[j] == digest@[12 + j],
        decreases 20 - i,
    {
        address[i] = digest[12 + i];
        i = i + 1;
    }
    address
}

/// Names the signer of a recovery. The signature is malformed where it does
/// not have 65 bytes or no public key could be recovered from it.
pub fn recover_signer(recovery: &Recovery) -> (res: Result<Address, AccountError>)
    ensures
        match res {
            Ok(signer) => recovered_signer(*recovery) == Some(signer@),
            Err(e) => e == AccountError::MalformedSignature && recovered_signer(*recovery) is None,
        },
{
    match split_signature(recovery.signature.as_slice()) {
        Ok(_) => match &recovery.key_digest {
            Some(digest) => Ok(signer_address(digest)),
            None => Err(AccountError::MalformedSignature),
        },
        Err(e) => Err(e),
    }
}

/// Decides whether `signature` proves that `signer` signed the canonical
/// message for `address` and `label`. A malformed signature, a failed
/// recovery and a recovery that ran on another message or another signature
/// are all refused.
pub fn verify(
    signer: &Address,
    address: &Address,
    label: &str,
    signature: &[u8],
    recovery: &Recovery,
) -> (accepted: bool)
    ensures
        accepted == signature_accepted(signer@, address@, label@, signature@, *recovery),
{
    let message = signing_message(address, label);
    if !bytes_equal(recovery.message.as_slice(), message.as_slice()) {
        return false;
    }
    if !bytes_equal(recovery.signature.as_slice(), signature) {
        return false;
    }
    match recover_signer(recovery) {
        Ok(found) => bytes_equal(found.as_slice(), signer.as_slice()),
        Err(_) => false,
    }
}

} // verus!
