use chess_validator::board::apply_move;
use chess_validator::board::basic_move_validation;
use chess_validator::board::validate_chess_move;
use chess_validator::board::validate_chess_move_with_record;
use chess_validator::board::ChessMoveInput;
use chess_validator::moves::validate;
use chess_validator::moves::MoveInput;

#[test]
fn test_basic_validation() {
    let input = ChessMoveInput {
        board_state: [0; 64],
        move_from: 0,
        move_to: 8,
        move_number: 1,
        player_turn: 0,
    };

    assert!(basic_move_validation(&input));
}

#[test]
fn test_valid_move_scenario() {
    let out = validate(&MoveInput { from: 52, to: 36, move_number: 1 });
    assert!(out.is_valid);
    assert_eq!(out.from, 52);
    assert_eq!(out.to, 36);
    assert_eq!(out.move_number, 1);
    assert_eq!(out.checksum, 89);
}

#[test]
fn test_same_square_invalid() {
    let out = validate(&MoveInput { from: 10, to: 10, move_number: 5 });
    assert!(!out.is_valid);
}

#[test]
fn test_out_of_range_invalid() {
    let out = validate(&MoveInput { from: 64, to: 0, move_number: 1 });
    assert!(!out.is_valid);
}

#[test]
fn test_zero_move_number_invalid() {
    let out = validate(&MoveInput { from: 0, to: 8, move_number: 0 });
    assert!(!out.is_valid);
}

#[test]
fn test_checksum_binds_fields() {
    let out = validate(&MoveInput { from: 1, to: 2, move_number: 7 });
    assert_eq!(out.checksum, 10);
    let out = validate(&MoveInput { from: 63, to: 0, move_number: 1000 });
    assert_eq!(out.checksum, 1063);
}

#[test]
fn test_checksum_wraps_modulo_u32() {
    let out = validate(&MoveInput { from: 63, to: 62, move_number: u32::MAX });
    assert_eq!(out.checksum, 124);
}

#[test]
fn test_validator_deterministic() {
    let input = MoveInput { from: 12, to: 28, move_number: 3 };
    let first = validate(&input);
    let second = validate(&input);
    assert_eq!(first, second);
}

#[test]
fn test_board_aware_move() {
    let mut board: [i8; 64] = [0; 64];
    board[0] = 5;
    let input = ChessMoveInput {
        board_state: board,
        move_from: 0,
        move_to: 8,
        move_number: 1,
        player_turn: 0,
    };
    let out = validate_chess_move(input);
    assert!(out.is_valid);
    assert_eq!(out.new_board_state[0], 0);
    assert_eq!(out.new_board_state[8], 5);
    assert_eq!(out.game_status, 0);
}

#[test]
fn test_invalid_board_move_keeps_board() {
    let mut board: [i8; 64] = [0; 64];
    board[3] = -4;
    let input = ChessMoveInput {
        board_state: board,
        move_from: 3,
        move_to: 3,
        move_number: 2,
        player_turn: 1,
    };
    let out = validate_chess_move(input);
    assert!(!out.is_valid);
    assert_eq!(out.new_board_state, board);
    assert_eq!(out.game_status, 0);
}

#[test]
fn test_zero_move_number_board_move_invalid() {
    let mut board: [i8; 64] = [0; 64];
    board[0] = 5;
    let input = ChessMoveInput {
        board_state: board,
        move_from: 0,
        move_to: 8,
        move_number: 0,
        player_turn: 0,
    };
    let out = validate_chess_move(input);
    assert!(!out.is_valid);
    assert_eq!(out.new_board_state, board);
    assert!(!basic_move_validation(&input));
}

#[test]
fn test_board_move_commits_base_record() {
    let input = ChessMoveInput {
        board_state: [0; 64],
        move_from: 52,
        move_to: 36,
        move_number: 1,
        player_turn: 0,
    };
    let (record, board_out) = validate_chess_move_with_record(input);
    assert!(record.is_valid);
    assert_eq!(record.from, 52);
    assert_eq!(record.to, 36);
    assert_eq!(record.move_number, 1);
    assert_eq!(record.checksum, 89);
    assert_eq!(board_out.is_valid, record.is_valid);
    assert_eq!(board_out.new_board_state, [0; 64]);
    assert_eq!(board_out.game_status, 0);
}

#[test]
fn test_board_move_record_agrees_on_rejection() {
    let mut board: [i8; 64] = [0; 64];
    board[10] = 3;
    let input = ChessMoveInput {
        board_state: board,
        move_from: 10,
        move_to: 10,
        move_number: 5,
        player_turn: 1,
    };
    let (record, board_out) = validate_chess_move_with_record(input);
    assert!(!record.is_valid);
    assert!(!board_out.is_valid);
    assert_eq!(record.checksum, 25);
    assert_eq!(board_out.new_board_state, board);
}

#[test]
fn test_apply_move_relocates_piece() {
    let mut board: [i8; 64] = [0; 64];
    board[52] = 1;
    board[36] = -1;
    let input = ChessMoveInput {
        board_state: board,
        move_from: 52,
        move_to: 36,
        move_number: 9,
        player_turn: 0,
    };
    let new_board = apply_move(&input);
    assert_eq!(new_board[52], 0);
    assert_eq!(new_board[36], 1);
    for square in 0..64 {
        if square != 52 && square != 36 {
            assert_eq!(new_board[square], board[square]);
        }
    }
}
