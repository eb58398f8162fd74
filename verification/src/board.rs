//! Board-aware validation: a 64-cell board of signed piece codes travels with
//! the move, and a valid move relocates the piece from its source square.

use vstd::prelude::*;

use crate::moves::MoveInput;
use crate::moves::MoveOutput;
use crate::moves::validate;
use crate::moves::validated;

verus! {

/// A half-move together with a snapshot of the board: 64 signed piece codes
/// (0 = empty square), the two squares, the move number and whose turn it is.
#[derive(Clone, Copy, PartialEq, Eq, Debug)]
pub struct ChessMoveInput {
    pub board_state: [i8; 64],
    pub move_from: u8,
    pub move_to: u8,
    pub move_number: u32,
    pub player_turn: u8,
}

/// The result of board-aware validation: the verdict, the board after the
/// move, and the game status (0 = ongoing, 1 = checkmate, 2 = draw).
#[derive(Clone, Copy, PartialEq, Eq, Debug)]
pub struct ChessMoveOutput {
    pub is_valid: bool,
    pub new_board_state: [i8; 64],
    pub game_status: u8,
}

/// The basic legality predicate: both squares on the board, distinct, and a
/// positive move number — the same minimum policy the plain validator
/// applies.
pub open spec fn basic_move_ok(input: ChessMoveInput) -> bool {
    input.move_from < 64 && input.move_to < 64 && input.move_from != input.move_to
        && input.move_number >= 1
}

/// The plain half-move carried inside a board-aware input.
pub open spec fn move_input_of(input: ChessMoveInput) -> MoveInput {
    MoveInput { from: input.move_from, to: input.move_to, move_number: input.move_number }
}

/// The board after relocating the piece at `from` to `to`: the source square
/// is cleared and the destination receives its piece code.
pub open spec fn board_after_move(board: Seq<i8>, from: int, to: int) -> Seq<i8>
    recommends
        board.len() == 64,
        0 <= from < 64,
        0 <= to < 64,
{
    board.update(from, 0).update(to, board[from])
}

/// Decide basic legality of a board-aware move.
pub fn basic_move_validation(input: &ChessMoveInput) -> (r: bool)
    ensures
        r == basic_move_ok(*input),
{
    input.move_from < 64 && input.move_to < 64 && input.move_from != input.move_to
        && input.move_number >= 1
}

/// Relocate the moving piece on a copy of the board; the input is untouched.
pub fn apply_move(input: &ChessMoveInput) -> (new_board: [i8; 64])
    requires
        input.move_from < 64,
        input.move_to < 64,
    ensures
        new_board@ == board_after_move(
            input.board_state@,
            input.move_from as int,
            input.move_to as int,
        ),
{
    let mut new_board = input.board_state;
    let piece = new_board[input.move_from as usize];
    new_board[input.move_from as usize] = 0;
    new_board[input.move_to as usize] = piece;
    new_board
}

/// Validate a board-aware move and produce the resulting board.
///
/// Every input yields an output: an illegal move is reported with
/// `is_valid == false` and the board unchanged, never as an error.
pub fn validate_chess_move(input: ChessMoveInput) -> (out: ChessMoveOutput)
    ensures
        out.is_valid == basic_move_ok(input),
        out.game_status == 0,
        basic_move_ok(input) ==> out.new_board_state@ == board_after_move(
            input.board_state@,
            input.move_from as int,
            input.move_to as int,
        ),
        !basic_move_ok(input) ==> out.new_board_state@ == input.board_state@,
{
    let is_valid = basic_move_validation(&input);
    let new_board_state = if is_valid {
        apply_move(&input)
    } else {
        input.board_state
    };
    ChessMoveOutput { is_valid, new_board_state, game_status: 0 }
}

/// Board-aware validation together with the committed base record.
///
/// Board awareness extends the committed record, it does not replace it: the
/// first component is exactly what the plain validator commits for the same
/// squares and move number (verdict, echoed inputs and binding checksum), the
/// second the board extension, and the two verdicts agree.
pub fn validate_chess_move_with_record(input: ChessMoveInput) -> (r: (MoveOutput, ChessMoveOutput))
    ensures
        r.0 == validated(move_input_of(input)),
        r.0.is_valid == r.1.is_valid,
        r.1.is_valid == basic_move_ok(input),
        r.1.game_status == 0,
        basic_move_ok(input) ==> r.1.new_board_state@ == board_after_move(
            input.board_state@,
            input.move_from as int,
            input.move_to as int,
        ),
        !basic_move_ok(input) ==> r.1.new_board_state@ == input.board_state@,
{
    let record = validate(
        &MoveInput { from: input.move_from, to: input.move_to, move_number: input.move_number },
    );
    let board_output = validate_chess_move(input);
    (record, board_output)
}

} // verus!
