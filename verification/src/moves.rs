//! The move validator: a pure predicate over a single half-move, together
//! with the committed output record it produces.

use vstd::prelude::*;

verus! {

/// A single half-move: two board squares and a 1-based move number.
///
/// Squares index the 64 cells of the board; the validator itself classifies
/// out-of-range values rather than rejecting them, so no invariant is imposed
/// here.
#[derive(Clone, Copy, PartialEq, Eq, Structural, Debug)]
pub struct MoveInput {
    pub from: u8,
    pub to: u8,
    pub move_number: u32,
}

/// The committed public output record of the validator.
///
/// `checksum` binds the echoed inputs together: it equals
/// `from + to + move_number` reduced modulo `2^32`.
#[derive(Clone, Copy, PartialEq, Eq, Structural, Debug)]
pub struct MoveOutput {
    pub is_valid: bool,
    pub from: u8,
    pub to: u8,
    pub move_number: u32,
    pub checksum: u32,
}

/// The validation predicate: both squares on the board, distinct, and a
/// positive move number.
pub open spec fn move_allowed(from: u8, to: u8, move_number: u32) -> bool {
    from < 64 && to < 64 && from != to && move_number >= 1
}

/// The binding checksum of an output record: the sum of the echoed fields,
/// reduced modulo `2^32`.
pub open spec fn checksum_of(from: u8, to: u8, move_number: u32) -> u32 {
    ((from + to + move_number) % 0x1_0000_0000) as u32
}

/// The full output record the validator commits for a given input.
pub open spec fn validated(input: MoveInput) -> MoveOutput {
    MoveOutput {
        is_valid: move_allowed(input.from, input.to, input.move_number),
        from: input.from,
        to: input.to,
        move_number: input.move_number,
        checksum: checksum_of(input.from, input.to, input.move_number),
    }
}

/// Classify a half-move and produce the committed output record.
///
/// Every input yields an output: validity is a value in the record, not an
/// error path, so the computation is total and replayable.
pub fn validate(input: &MoveInput) -> (out: MoveOutput)
    ensures
        out == validated(*input),
        out.is_valid <==> (input.from < 64 && input.to < 64 && input.from != input.to
            && input.move_number >= 1),
        input.from + input.to + input.move_number <= u32::MAX ==> out.checksum == input.from
            + input.to + input.move_number,
{
    let is_valid = input.from < 64 && input.to < 64 && input.from != input.to
        && input.move_number >= 1;
    let sum: u64 = input.from as u64 + input.to as u64 + input.move_number as u64;
    let checksum: u32 = (sum % 0x1_0000_0000) as u32;
    MoveOutput {
        is_valid,
        from: input.from,
        to: input.to,
        move_number: input.move_number,
        checksum,
    }
}

/// Determinism: the committed record is a function of the input alone, so any
/// two validation results for the same input are bit-identical.
pub proof fn lemma_validate_deterministic(input: MoveInput, a: MoveOutput, b: MoveOutput)
    requires
        a == validated(input),
        b == validated(input),
    ensures
        a == b,
{
}

} // verus!
