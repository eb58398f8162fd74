//! An in-memory proving backend: the `setup -> prove -> verify -> decode`
//! lifecycle over plain bytes, without cryptography.
//!
//! A proof artifact is the encoded output record, followed by the guest
//! identity of the key that produced it (eight little-endian bytes) and a
//! binding seal (four little-endian bytes holding the byte sum of everything
//! before it).  The seal is what makes verification fail closed: any
//! single-byte change to a well-formed artifact is rejected.  Being an
//! additive sum and no cryptographic digest, it does not reject coordinated
//! edits to several bytes that cancel out; a real proving backend is trusted
//! for that, this one only mimics the lifecycle.

use vstd::bytes::lemma_auto_spec_u32_to_from_le_bytes;
use vstd::bytes::lemma_auto_spec_u64_to_from_le_bytes;
use vstd::bytes::spec_u32_from_le_bytes;
use vstd::bytes::spec_u32_to_le_bytes;
use vstd::bytes::spec_u64_from_le_bytes;
use vstd::bytes::spec_u64_to_le_bytes;
use vstd::bytes::u32_from_le_bytes;
use vstd::bytes::u32_to_le_bytes;
use vstd::bytes::u64_from_le_bytes;
use vstd::bytes::u64_to_le_bytes;
use vstd::prelude::*;
use vstd::seq_lib::*;
use vstd::slice::slice_subrange;

use crate::codec::DecodeError;
use crate::codec::decode_output;
use crate::codec::decoded_output;
use crate::codec::encode_output;
use crate::codec::encoded_output;
use crate::codec::lemma_encode_decode_round_trip;
use crate::codec::push_all;
use crate::moves::MoveInput;
use crate::moves::MoveOutput;
use crate::moves::validate;
use crate::moves::validated;

verus! {

/// Byte offset of the guest identity inside an artifact.
pub const GUEST_ID_OFFSET: usize = 11;

/// Byte offset of the binding seal inside an artifact.
pub const SEAL_OFFSET: usize = 19;

/// Total length in bytes of a proof artifact.
pub const ARTIFACT_LEN: usize = 23;

/// A proving key: bound to one guest computation's identity.
#[derive(Clone, Copy, PartialEq, Eq, Structural, Debug)]
pub struct ProvingKey {
    pub guest_id: u64,
}

/// A verifying key: bound to the same guest identity as its proving key.
#[derive(Clone, Copy, PartialEq, Eq, Structural, Debug)]
pub struct VerifyingKey {
    pub guest_id: u64,
}

/// An opaque proof artifact: owned bytes, verified and decoded but never
/// mutated after creation.
#[derive(Clone, PartialEq, Eq, Debug)]
pub struct ProofArtifact {
    pub bytes: Vec<u8>,
}

/// Why an artifact failed verification.
#[derive(Clone, Copy, PartialEq, Eq, Structural, Debug)]
pub enum VerifyError {
    /// The artifact does not have the fixed artifact length.
    MalformedArtifact,
    /// The artifact was produced under a different guest identity than the
    /// verifying key's.
    KeyMismatch,
    /// The binding seal does not match the artifact's contents.
    SealMismatch,
}

/// The sum of a byte sequence, over the unbounded integers.
pub open spec fn byte_sum(s: Seq<u8>) -> int
    decreases s.len(),
{
    if s.len() == 0 {
        0
    } else {
        byte_sum(s.drop_last()) + s.last()
    }
}

/// A byte sum is non-negative and at most 255 per byte.
pub proof fn lemma_byte_sum_bounds(s: Seq<u8>)
    ensures
        0 <= byte_sum(s) <= 255 * s.len(),
    decreases s.len(),
{
    if s.len() > 0 {
        lemma_byte_sum_bounds(s.drop_last());
    }
}

/// Replacing one byte moves the sum by exactly the difference of the bytes.
pub proof fn lemma_byte_sum_update(s: Seq<u8>, i: int, b: u8)
    requires
        0 <= i < s.len(),
    ensures
        byte_sum(s.update(i, b)) == byte_sum(s) - s[i] + b,
    decreases s.len(),
{
    let t = s.update(i, b);
    if i == s.len() - 1 {
        assert_seqs_equal!(t.drop_last() == s.drop_last());
    } else {
        assert_seqs_equal!(t.drop_last() == s.drop_last().update(i, b));
        lemma_byte_sum_update(s.drop_last(), i, b);
    }
}

/// The guest identity that `setup` derives from a guest binary: its byte sum,
/// reduced modulo `2^64`.
pub open spec fn guest_id_of(guest: Seq<u8>) -> u64 {
    (byte_sum(guest) % 0x1_0000_0000_0000_0000) as u64
}

/// The binding seal over an artifact body: its byte sum, reduced modulo
/// `2^32`.
pub open spec fn seal_of(body: Seq<u8>) -> u32 {
    (byte_sum(body) % 0x1_0000_0000) as u32
}

/// The sealed part of an artifact: the encoded output record followed by the
/// guest identity.
pub open spec fn sealed_body(id: u64, input: MoveInput) -> Seq<u8> {
    encoded_output(validated(input)) + spec_u64_to_le_bytes(id)
}

/// The full byte form of the artifact that proving a given input under a
/// given guest identity produces.
pub open spec fn artifact_bytes(id: u64, input: MoveInput) -> Seq<u8> {
    sealed_body(id, input) + spec_u32_to_le_bytes(seal_of(sealed_body(id, input)))
}

/// What verifying a byte sequence against a key yields: `Ok` exactly when the
/// length, the guest identity and the binding seal all check out.
pub open spec fn verification_of(bytes: Seq<u8>, vk_id: u64) -> Result<(), VerifyError> {
    if bytes.len() != 23 {
        Err(VerifyError::MalformedArtifact)
    } else if spec_u64_from_le_bytes(bytes.subrange(11, 19)) != vk_id {
        Err(VerifyError::KeyMismatch)
    } else if spec_u32_from_le_bytes(bytes.subrange(19, 23)) != seal_of(bytes.subrange(0, 19)) {
        Err(VerifyError::SealMismatch)
    } else {
        Ok(())
    }
}

/// What decoding an artifact yields: the output record carried in its first
/// eleven bytes, or the defect of a malformed artifact.
pub open spec fn decoded_artifact(bytes: Seq<u8>) -> Result<MoveOutput, DecodeError> {
    if bytes.len() != 23 {
        Err(DecodeError::WrongLength)
    } else {
        decoded_output(bytes.subrange(0, 11))
    }
}

/// Sum the bytes of a slice.
fn sum_of_bytes(bytes: &[u8]) -> (s: u128)
    ensures
        s == byte_sum(bytes@),
{
    let mut acc: u128 = 0;
    let mut i: usize = 0;
    while i < bytes.len()
        invariant
            0 <= i <= bytes@.len(),
            acc == byte_sum(bytes@.take(i as int)),
        decreases bytes@.len() - i,
    {
        proof {
            lemma_byte_sum_bounds(bytes@.take(i as int));
            assert_seqs_equal!(bytes@.take(i + 1).drop_last() == bytes@.take(i as int));
        }
        acc = acc + bytes[i] as u128;
        i = i + 1;
    }
    proof {
        assert_seqs_equal!(bytes@.take(bytes@.len() as int) == bytes@);
    }
    acc
}

/// Derive the key pair for a guest binary.
///
/// The derivation is a pure function of the bytes, so setting up twice from
/// the same binary yields the same keys, and proving and verifying keys of
/// one setup always share their guest identity.
pub fn setup(guest: &Vec<u8>) -> (keys: (ProvingKey, VerifyingKey))
    ensures
        keys.0.guest_id == guest_id_of(guest@),
        keys.1.guest_id == guest_id_of(guest@),
{
    let sum = sum_of_bytes(guest.as_slice());
    proof {
        lemma_byte_sum_bounds(guest@);
    }
    let id = (sum % 0x1_0000_0000_0000_0000u128) as u64;
    (ProvingKey { guest_id: id }, VerifyingKey { guest_id: id })
}

/// Run the validator on the input and seal its committed output record into
/// an artifact bound to the proving key's guest identity.
pub fn prove(pk: &ProvingKey, input: &MoveInput) -> (artifact: ProofArtifact)
    ensures
        artifact.bytes@ == artifact_bytes(pk.guest_id, *input),
        artifact.bytes@.len() == 23,
{
    proof {
        lemma_auto_spec_u64_to_from_le_bytes();
    }
    let out = validate(input);
    let mut bytes = encode_output(&out);
    let id_bytes = u64_to_le_bytes(pk.guest_id);
    push_all(&mut bytes, &id_bytes);
    proof {
        assert_seqs_equal!(bytes@ == sealed_body(pk.guest_id, *input));
        lemma_byte_sum_bounds(bytes@);
    }
    let sum = sum_of_bytes(bytes.as_slice());
    let seal = (sum % 0x1_0000_0000u128) as u32;
    let seal_bytes = u32_to_le_bytes(seal);
    push_all(&mut bytes, &seal_bytes);
    proof {
        assert_seqs_equal!(bytes@ == artifact_bytes(pk.guest_id, *input));
    }
    ProofArtifact { bytes }
}

/// Check an artifact against a verifying key: its length, its guest identity
/// and its binding seal.  Nothing of the artifact is trusted before this
/// passes.
pub fn verify(artifact: &ProofArtifact, vk: &VerifyingKey) -> (r: Result<(), VerifyError>)
    ensures
        r == verification_of(artifact.bytes@, vk.guest_id),
{
    if artifact.bytes.len() != ARTIFACT_LEN {
        return Err(VerifyError::MalformedArtifact);
    }
    let s = artifact.bytes.as_slice();
    let id = u64_from_le_bytes(slice_subrange(s, GUEST_ID_OFFSET, SEAL_OFFSET));
    if id != vk.guest_id {
        return Err(VerifyError::KeyMismatch);
    }
    let body = slice_subrange(s, 0, SEAL_OFFSET);
    let sum = sum_of_bytes(body);
    proof {
        lemma_byte_sum_bounds(artifact.bytes@.subrange(0, 19));
    }
    let seal = (sum % 0x1_0000_0000u128) as u32;
    let stored = u32_from_le_bytes(slice_subrange(s, SEAL_OFFSET, ARTIFACT_LEN));
    if stored != seal {
        return Err(VerifyError::SealMismatch);
    }
    Ok(())
}

/// Extract the committed output record from an artifact.
pub fn decode(artifact: &ProofArtifact) -> (r: Result<MoveOutput, DecodeError>)
    ensures
        r == decoded_artifact(artifact.bytes@),
{
    if artifact.bytes.len() != ARTIFACT_LEN {
        return Err(DecodeError::WrongLength);
    }
    decode_output(slice_subrange(artifact.bytes.as_slice(), 0, GUEST_ID_OFFSET))
}

/// A freshly proved artifact has the fixed artifact length.
pub proof fn lemma_artifact_len(id: u64, input: MoveInput)
    ensures
        artifact_bytes(id, input).len() == 23,
{
    lemma_auto_spec_u32_to_from_le_bytes();
    lemma_auto_spec_u64_to_from_le_bytes();
}

/// Proof round trip: decoding a freshly proved artifact yields exactly the
/// record the validator commits for that input.
pub proof fn lemma_prove_decode_round_trip(id: u64, input: MoveInput)
    ensures
        decoded_artifact(artifact_bytes(id, input)) == Ok::<MoveOutput, DecodeError>(
            validated(input),
        ),
{
    lemma_auto_spec_u32_to_from_le_bytes();
    lemma_auto_spec_u64_to_from_le_bytes();
    lemma_artifact_len(id, input);
    assert_seqs_equal!(artifact_bytes(id, input).subrange(0, 11) == encoded_output(validated(input)));
    lemma_encode_decode_round_trip(validated(input));
}

/// Completeness: a freshly proved artifact verifies against the verifying key
/// of the guest identity it was proved under.
pub proof fn lemma_fresh_artifact_verifies(id: u64, input: MoveInput)
    ensures
        verification_of(artifact_bytes(id, input), id) == Ok::<(), VerifyError>(()),
{
    lemma_auto_spec_u32_to_from_le_bytes();
    lemma_auto_spec_u64_to_from_le_bytes();
    lemma_artifact_len(id, input);
    let a = artifact_bytes(id, input);
    assert_seqs_equal!(a.subrange(11, 19) == spec_u64_to_le_bytes(id));
    assert_seqs_equal!(a.subrange(0, 19) == sealed_body(id, input));
    assert_seqs_equal!(a.subrange(19, 23) == spec_u32_to_le_bytes(seal_of(sealed_body(id, input))));
}

/// Soundness against tampering: changing any single byte of a freshly proved
/// artifact makes verification fail.
pub proof fn lemma_tampered_artifact_rejected(id: u64, input: MoveInput, i: int, b: u8)
    requires
        0 <= i < artifact_bytes(id, input).len(),
        b != artifact_bytes(id, input)[i],
    ensures
        verification_of(artifact_bytes(id, input).update(i, b), id) is Err,
{
    lemma_auto_spec_u32_to_from_le_bytes();
    lemma_auto_spec_u64_to_from_le_bytes();
    lemma_artifact_len(id, input);
    let a = artifact_bytes(id, input);
    let t = a.update(i, b);
    let body = a.subrange(0, 19);
    assert_seqs_equal!(body == sealed_body(id, input));
    assert_seqs_equal!(a.subrange(11, 19) == spec_u64_to_le_bytes(id));
    assert_seqs_equal!(a.subrange(19, 23) == spec_u32_to_le_bytes(seal_of(body)));
    lemma_byte_sum_bounds(body);
    if 11 <= i < 19 {
        // The guest identity bytes changed, so the key check fails: two
        // distinct eight-byte sequences cannot decode to the same identity.
        let k2 = t.subrange(11, 19);
        assert(k2[i - 11] == b && a.subrange(11, 19)[i - 11] == a[i]);
        if spec_u64_from_le_bytes(k2) == id {
            assert(spec_u64_to_le_bytes(spec_u64_from_le_bytes(k2)) == k2);
            assert(false);
        }
    } else if i < 11 {
        // The identity bytes are untouched, but the sealed body changed, so
        // the stored seal no longer matches the body's byte sum.
        assert_seqs_equal!(t.subrange(11, 19) == a.subrange(11, 19));
        assert_seqs_equal!(t.subrange(19, 23) == a.subrange(19, 23));
        let body2 = t.subrange(0, 19);
        assert_seqs_equal!(body2 == body.update(i, b));
        lemma_byte_sum_update(body, i, b);
        lemma_byte_sum_bounds(body2);
        assert(byte_sum(body2) != byte_sum(body));
        assert(seal_of(body2) != seal_of(body));
    } else {
        // Only the stored seal changed, so it no longer matches the body.
        assert_seqs_equal!(t.subrange(11, 19) == a.subrange(11, 19));
        assert_seqs_equal!(t.subrange(0, 19) == body);
        let s2 = t.subrange(19, 23);
        assert(s2[i - 19] == b && a.subrange(19, 23)[i - 19] == a[i]);
        if spec_u32_from_le_bytes(s2) == seal_of(body) {
            assert(spec_u32_to_le_bytes(spec_u32_from_le_bytes(s2)) == s2);
            assert(false);
        }
    }
}

} // verus!
