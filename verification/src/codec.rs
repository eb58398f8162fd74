//! Byte codec for the committed public-output record.
//!
//! The wire layout is part of the contract: `is_valid` (one byte, 0 or 1),
//! `from`, `to` (one byte each), then `move_number` and `checksum` as
//! little-endian 32-bit words — eleven bytes in all, in exactly that order.
//! Decoding a record of any other length, or with a flag byte that is neither
//! 0 nor 1, fails rather than defaulting any field.

use vstd::bytes::lemma_auto_spec_u32_to_from_le_bytes;
use vstd::bytes::spec_u32_from_le_bytes;
use vstd::bytes::spec_u32_to_le_bytes;
use vstd::bytes::u32_from_le_bytes;
use vstd::bytes::u32_to_le_bytes;
use vstd::prelude::*;
use vstd::seq_lib::*;
use vstd::slice::slice_subrange;

use crate::moves::MoveOutput;

verus! {

/// Length in bytes of an encoded output record.
pub const OUTPUT_RECORD_LEN: usize = 11;

/// Why a byte sequence failed to decode as an output record.
#[derive(Clone, Copy, PartialEq, Eq, Structural, Debug)]
pub enum DecodeError {
    /// The record is not exactly eleven bytes long.
    WrongLength,
    /// The validity flag byte is neither 0 nor 1.
    InvalidFlag,
}

/// The encoding of an output record: field after field, in schema order.
pub open spec fn encoded_output(out: MoveOutput) -> Seq<u8> {
    seq![if out.is_valid { 1u8 } else { 0u8 }, out.from, out.to]
        + spec_u32_to_le_bytes(out.move_number) + spec_u32_to_le_bytes(out.checksum)
}

/// What decoding a byte sequence yields: the unique record it encodes, or the
/// error that names the defect.
pub open spec fn decoded_output(bytes: Seq<u8>) -> Result<MoveOutput, DecodeError> {
    if bytes.len() != 11 {
        Err(DecodeError::WrongLength)
    } else if bytes[0] != 0 && bytes[0] != 1 {
        Err(DecodeError::InvalidFlag)
    } else {
        Ok(
            MoveOutput {
                is_valid: bytes[0] == 1,
                from: bytes[1],
                to: bytes[2],
                move_number: spec_u32_from_le_bytes(bytes.subrange(3, 7)),
                checksum: spec_u32_from_le_bytes(bytes.subrange(7, 11)),
            },
        )
    }
}

/// Append every byte of `src` to `dst`, in order.
pub(crate) fn push_all(dst: &mut Vec<u8>, src: &Vec<u8>)
    ensures
        final(dst)@ == old(dst)@ + src@,
{
    let mut i: usize = 0;
    while i < src.len()
        invariant
            0 <= i <= src.len(),
            dst@ == old(dst)@ + src@.take(i as int),
        decreases src.len() - i,
    {
        dst.push(src[i]);
        proof {
            assert_seqs_equal!(old(dst)@ + src@.take(i + 1) == (old(dst)@ + src@.take(i as int)).push(src@[i as int]));
        }
        i = i + 1;
    }
    proof {
        assert_seqs_equal!(src@.take(src@.len() as int) == src@);
    }
}

/// Encode an output record into its eleven-byte wire form.
pub fn encode_output(out: &MoveOutput) -> (bytes: Vec<u8>)
    ensures
        bytes@ == encoded_output(*out),
        bytes@.len() == 11,
{
    proof {
        lemma_auto_spec_u32_to_from_le_bytes();
    }
    let mut bytes: Vec<u8> = Vec::new();
    bytes.push(if out.is_valid { 1 } else { 0 });
    bytes.push(out.from);
    bytes.push(out.to);
    let move_number_bytes = u32_to_le_bytes(out.move_number);
    push_all(&mut bytes, &move_number_bytes);
    let checksum_bytes = u32_to_le_bytes(out.checksum);
    push_all(&mut bytes, &checksum_bytes);
    proof {
        assert_seqs_equal!(bytes@ == encoded_output(*out));
    }
    bytes
}

/// Decode an eleven-byte wire record back into an output record.
pub fn decode_output(bytes: &[u8]) -> (r: Result<MoveOutput, DecodeError>)
    ensures
        r == decoded_output(bytes@),
{
    if bytes.len() != OUTPUT_RECORD_LEN {
        return Err(DecodeError::WrongLength);
    }
    let flag = bytes[0];
    if flag != 0 && flag != 1 {
        return Err(DecodeError::InvalidFlag);
    }
    let move_number = u32_from_le_bytes(slice_subrange(bytes, 3, 7));
    let checksum = u32_from_le_bytes(slice_subrange(bytes, 7, 11));
    Ok(
        MoveOutput {
            is_valid: flag == 1,
            from: bytes[1],
            to: bytes[2],
            move_number,
            checksum,
        },
    )
}

/// Round trip: every output record decodes back from its own encoding, so the
/// wire form loses nothing and pins every field.
pub proof fn lemma_encode_decode_round_trip(out: MoveOutput)
    ensures
        decoded_output(encoded_output(out)) == Ok::<MoveOutput, DecodeError>(out),
{
    lemma_auto_spec_u32_to_from_le_bytes();
    let bytes = encoded_output(out);
    assert(bytes.len() == 11);
    assert_seqs_equal!(bytes.subrange(3, 7) == spec_u32_to_le_bytes(out.move_number));
    assert_seqs_equal!(bytes.subrange(7, 11) == spec_u32_to_le_bytes(out.checksum));
}

} // verus!
