use chess_rust::game::Board;
use chess_rust::types::{Color, Move, Piece, PieceKind, Square};
use chess_rust::ui::UI;

fn mv(f1: u8, r1: u8, f2: u8, r2: u8) -> Move {
    Move { from: Square(f1, r1), to: Square(f2, r2) }
}

fn empty_board() -> Board {
    let mut b = Board::new();
    for rank in 0..8u8 {
        for file in 0..8u8 {
            b.set(Square(file, rank), None);
        }
    }
    b
}

fn piece(kind: PieceKind, color: Color) -> Option<Piece> {
    Some(Piece { kind, color })
}

#[test]
fn out_of_range_squares_are_never_legal() {
    let b = Board::new();
    assert!(!b.is_legal_move(mv(8, 0, 0, 0), Color::White));
    assert!(!b.is_legal_move(mv(0, 8, 0, 0), Color::White));
    assert!(!b.is_legal_move(mv(4, 1, 8, 2), Color::White));
    assert!(!b.is_legal_move(mv(4, 1, 4, 8), Color::White));
    assert!(!b.is_legal_move(mv(255, 255, 255, 255), Color::White));
}

#[test]
fn rejected_move_leaves_board_identical() {
    let mut b = Board::new();
    let before = b;
    assert!(!b.make_move(mv(0, 1, 0, 4)));
    assert_eq!(b, before);
    assert!(!b.make_move(mv(8, 0, 0, 0)));
    assert_eq!(b, before);
}

#[test]
fn self_check_veto_leaves_board_identical() {
    // After 1. e4 e5 2. Bb5, the black d7 pawn shields its king from the
    // bishop: pushing it would expose the king, so the push is vetoed.
    let mut b = Board::new();
    assert!(b.make_move(mv(4, 1, 4, 3))); // e2e4
    assert!(b.make_move(mv(4, 6, 4, 4))); // e7e5
    assert!(b.make_move(mv(5, 0, 1, 4))); // f1b5
    let before = b;
    assert!(!b.make_move(mv(3, 6, 3, 4))); // d7d5 exposes the king
    assert_eq!(b, before);
    assert!(b.make_move(mv(2, 6, 2, 5))); // c7c6 blocks the line instead
}

#[test]
fn opening_pawn_push_switches_turn_and_sets_en_passant() {
    let mut b = Board::new();
    assert!(b.make_move(mv(4, 1, 4, 3))); // e2e4
    assert_eq!(b.turn, Color::Black);
    assert_eq!(b.en_passant_target, Some(Square(4, 2)));
    assert!(b.make_move(mv(6, 7, 5, 5))); // g8f6, no double pawn push
    assert_eq!(b.turn, Color::White);
    assert_eq!(b.en_passant_target, None);
}

#[test]
fn overreaching_pawn_is_rejected() {
    let mut b = Board::new();
    let before = b;
    assert!(!b.make_move(mv(0, 1, 0, 4))); // a2a5
    assert_eq!(b, before);
    assert_eq!(b.turn, Color::White);
}

#[test]
fn fools_mate_ends_in_checkmate() {
    let mut b = Board::new();
    assert!(b.make_move(mv(5, 1, 5, 2))); // f2f3
    assert!(b.make_move(mv(4, 6, 4, 4))); // e7e5
    assert!(b.make_move(mv(6, 1, 6, 3))); // g2g4
    assert!(b.make_move(mv(3, 7, 7, 3))); // d8h4
    assert!(b.is_in_check(Color::White));
    assert!(b.is_checkmate(Color::White));
    assert!(!b.is_stalemate(Color::White));
    assert!(b.generate_legal_moves(Color::White).is_empty());
}

#[test]
fn kingside_castle_moves_king_and_rook_and_clears_rights() {
    let mut b = Board::new();
    assert!(b.make_move(mv(4, 1, 4, 3))); // e2e4
    assert!(b.make_move(mv(4, 6, 4, 4))); // e7e5
    assert!(b.make_move(mv(6, 0, 5, 2))); // g1f3
    assert!(b.make_move(mv(1, 7, 2, 5))); // b8c6
    assert!(b.make_move(mv(5, 0, 4, 1))); // f1e2
    assert!(b.make_move(mv(6, 7, 5, 5))); // g8f6
    assert!(b.white_kingside);
    assert!(b.make_move(mv(4, 0, 6, 0))); // e1g1, castle
    assert_eq!(b.get(Square(6, 0)), piece(PieceKind::King, Color::White));
    assert_eq!(b.get(Square(5, 0)), piece(PieceKind::Rook, Color::White));
    assert_eq!(b.get(Square(4, 0)), None);
    assert_eq!(b.get(Square(7, 0)), None);
    assert!(!b.white_kingside);
    assert!(!b.white_queenside);
}

#[test]
fn castle_rejected_while_path_occupied() {
    let mut b = Board::new();
    let before = b;
    assert!(!b.make_move(mv(4, 0, 6, 0))); // f1 and g1 still occupied
    assert_eq!(b, before);
}

#[test]
fn castle_rejected_without_rook_on_corner() {
    let mut b = Board::new();
    assert!(b.make_move(mv(4, 1, 4, 3))); // e2e4
    assert!(b.make_move(mv(4, 6, 4, 4))); // e7e5
    assert!(b.make_move(mv(6, 0, 5, 2))); // g1f3
    assert!(b.make_move(mv(1, 7, 2, 5))); // b8c6
    assert!(b.make_move(mv(5, 0, 4, 1))); // f1e2
    assert!(b.make_move(mv(6, 7, 5, 5))); // g8f6
    b.set(Square(7, 0), None); // rook gone, right still set
    assert!(b.white_kingside);
    assert!(!b.make_move(mv(4, 0, 6, 0)));
}

#[test]
fn castle_rejected_after_right_revoked() {
    let mut b = Board::new();
    assert!(b.make_move(mv(4, 1, 4, 3))); // e2e4
    assert!(b.make_move(mv(4, 6, 4, 4))); // e7e5
    assert!(b.make_move(mv(6, 0, 5, 2))); // g1f3
    assert!(b.make_move(mv(1, 7, 2, 5))); // b8c6
    assert!(b.make_move(mv(5, 0, 4, 1))); // f1e2
    assert!(b.make_move(mv(6, 7, 5, 5))); // g8f6
    assert!(b.make_move(mv(7, 0, 6, 0))); // h1g1: rook move revokes the right
    assert!(b.make_move(mv(0, 6, 0, 5))); // a7a6
    assert!(b.make_move(mv(6, 0, 7, 0))); // g1h1: rook returns
    assert!(b.make_move(mv(0, 5, 0, 4))); // a6a5
    assert!(!b.white_kingside);
    assert!(!b.make_move(mv(4, 0, 6, 0)));
}

#[test]
fn pawn_promotes_to_queen_by_push() {
    let mut b = Board::new();
    b.set(Square(0, 7), None); // clear a8
    b.set(Square(0, 6), piece(PieceKind::Pawn, Color::White)); // a7
    assert!(b.make_move(mv(0, 6, 0, 7)));
    assert_eq!(b.get(Square(0, 7)), piece(PieceKind::Queen, Color::White));
    assert_eq!(b.get(Square(0, 6)), None);
}

#[test]
fn pawn_promotes_to_queen_by_capture() {
    let mut b = Board::new();
    b.set(Square(1, 6), piece(PieceKind::Pawn, Color::White)); // b7
    assert!(b.make_move(mv(1, 6, 0, 7))); // bxa8, taking the rook
    assert_eq!(b.get(Square(0, 7)), piece(PieceKind::Queen, Color::White));
    assert_eq!(b.get(Square(1, 6)), None);
}

#[test]
fn en_passant_capture_removes_the_passed_pawn() {
    let mut b = Board::new();
    assert!(b.make_move(mv(4, 1, 4, 3))); // e2e4
    assert!(b.make_move(mv(0, 6, 0, 5))); // a7a6
    assert!(b.make_move(mv(4, 3, 4, 4))); // e4e5
    assert!(b.make_move(mv(3, 6, 3, 4))); // d7d5, double push past e5
    assert_eq!(b.en_passant_target, Some(Square(3, 5)));
    assert!(b.make_move(mv(4, 4, 3, 5))); // exd6 en passant
    assert_eq!(b.get(Square(3, 5)), piece(PieceKind::Pawn, Color::White));
    assert_eq!(b.get(Square(3, 4)), None); // the passed pawn is gone
    assert_eq!(b.en_passant_target, None);
}

#[test]
fn en_passant_expires_after_one_move() {
    let mut b = Board::new();
    assert!(b.make_move(mv(4, 1, 4, 3))); // e2e4
    assert!(b.make_move(mv(0, 6, 0, 5))); // a7a6
    assert!(b.make_move(mv(4, 3, 4, 4))); // e4e5
    assert!(b.make_move(mv(3, 6, 3, 4))); // d7d5
    assert!(b.make_move(mv(1, 1, 1, 2))); // b2b3: white declines the capture
    assert!(b.make_move(mv(0, 5, 0, 4))); // a6a5
    assert!(!b.make_move(mv(4, 4, 3, 5))); // exd6 no longer available
}

#[test]
fn stalemate_detected_with_no_moves_and_no_check() {
    let mut b = empty_board();
    b.set(Square(0, 7), piece(PieceKind::King, Color::Black)); // a8
    b.set(Square(2, 6), piece(PieceKind::Queen, Color::White)); // c7
    b.set(Square(4, 0), piece(PieceKind::King, Color::White)); // e1
    b.turn = Color::Black;
    assert!(!b.is_in_check(Color::Black));
    assert!(b.generate_legal_moves(Color::Black).is_empty());
    assert!(b.is_stalemate(Color::Black));
    assert!(!b.is_checkmate(Color::Black));
}

#[test]
fn missing_king_is_never_in_check() {
    let mut b = empty_board();
    b.set(Square(0, 0), piece(PieceKind::Queen, Color::White));
    assert!(!b.is_in_check(Color::Black));
}

#[test]
fn square_attack_scan_matches_piece_geometry() {
    let b = Board::new();
    // e3 is covered by the d2 and f2 pawns.
    assert!(b.is_square_attacked(Square(4, 2), Color::White));
    // a3 is covered by the b1 knight.
    assert!(b.is_square_attacked(Square(0, 2), Color::White));
    // e5 is reached by nothing white at the start.
    assert!(!b.is_square_attacked(Square(4, 4), Color::White));
    // e6 is covered by the d7 and f7 pawns.
    assert!(b.is_square_attacked(Square(4, 5), Color::Black));
}

#[test]
fn sliding_attack_requires_clear_path() {
    let mut b = empty_board();
    b.set(Square(0, 0), piece(PieceKind::Rook, Color::White));
    b.set(Square(0, 3), piece(PieceKind::Pawn, Color::Black));
    assert!(b.is_square_attacked(Square(0, 2), Color::White));
    assert!(b.is_square_attacked(Square(0, 3), Color::White));
    assert!(!b.is_square_attacked(Square(0, 5), Color::White)); // blocked by the pawn
}

#[test]
fn queen_attack_requires_clear_path_on_files_too() {
    let mut b = empty_board();
    b.set(Square(0, 0), piece(PieceKind::Queen, Color::White));
    b.set(Square(0, 3), piece(PieceKind::Pawn, Color::Black));
    assert!(b.is_square_attacked(Square(0, 2), Color::White));
    assert!(!b.is_square_attacked(Square(0, 5), Color::White)); // blocked by the pawn
    assert!(b.is_square_attacked(Square(5, 5), Color::White)); // open diagonal
}

#[test]
fn castle_may_pass_through_an_attacked_square() {
    // Deliberate rule choice, kept from the observed engine behavior: the
    // castling test never examines the square the king passes through; only
    // the general self-check veto constrains the king's destination. Here
    // f1 is attacked by the f8 rook, yet the kingside castle is accepted.
    let mut b = empty_board();
    b.set(Square(4, 0), piece(PieceKind::King, Color::White));
    b.set(Square(7, 0), piece(PieceKind::Rook, Color::White));
    b.set(Square(5, 7), piece(PieceKind::Rook, Color::Black));
    b.set(Square(0, 7), piece(PieceKind::King, Color::Black));
    assert!(b.is_square_attacked(Square(5, 0), Color::Black));
    assert!(b.make_move(mv(4, 0, 6, 0)));
    assert_eq!(b.get(Square(6, 0)), piece(PieceKind::King, Color::White));
    assert_eq!(b.get(Square(5, 0)), piece(PieceKind::Rook, Color::White));
}

#[test]
fn out_of_range_accessors_read_empty_and_ignore_writes() {
    let mut b = Board::new();
    assert_eq!(b.get(Square(8, 0)), None);
    assert_eq!(b.get(Square(0, 8)), None);
    let before = b;
    b.set(Square(8, 8), piece(PieceKind::Queen, Color::White));
    assert_eq!(b, before);
}

#[test]
fn legal_move_generation_from_start() {
    let b = Board::new();
    let moves = b.generate_legal_moves(Color::White);
    // 16 pawn moves and 4 knight moves.
    assert_eq!(moves.len(), 20);
    // The opposing side is not to move, so nothing is generated for it.
    assert!(b.generate_legal_moves(Color::Black).is_empty());
}

#[test]
fn move_history_string_is_empty() {
    let b = Board::new();
    assert_eq!(b.moveHistoryString(), String::new());
}

#[test]
fn parse_move_accepts_well_formed_text() {
    assert_eq!(UI::parseMove("e2e4"), Some(mv(4, 1, 4, 3)));
    assert_eq!(UI::parseMove("a1h8"), Some(mv(0, 0, 7, 7)));
    assert_eq!(UI::parseMove("h8a1"), Some(mv(7, 7, 0, 0)));
}

#[test]
fn parse_move_rejects_malformed_text() {
    assert_eq!(UI::parseMove(""), None);
    assert_eq!(UI::parseMove("e2e"), None);
    assert_eq!(UI::parseMove("e2e4e"), None);
    assert_eq!(UI::parseMove("E2E4"), None); // callers lowercase first
    assert_eq!(UI::parseMove("i2e4"), None);
    assert_eq!(UI::parseMove("e9e4"), None);
    assert_eq!(UI::parseMove("e2i4"), None);
    assert_eq!(UI::parseMove("e2e9"), None);
    assert_eq!(UI::parseMove("e2é4"), None);
}

#[test]
fn move_text_round_trip() {
    for text in ["a1a1", "e2e4", "g8f6", "h8a1", "b1c3"] {
        let parsed = UI::parseMove(text).unwrap();
        assert_eq!(UI::move_to_string(parsed), text);
    }
    for f1 in 0..8u8 {
        for r1 in 0..8u8 {
            let m = mv(f1, r1, 7 - f1, 7 - r1);
            let text = UI::move_to_string(m);
            assert_eq!(UI::parseMove(&text), Some(m));
        }
    }
}

#[test]
fn piece_glyphs_distinguish_color_and_kind() {
    let wp = UI::piece_char(Piece { kind: PieceKind::Pawn, color: Color::White });
    let bp = UI::piece_char(Piece { kind: PieceKind::Pawn, color: Color::Black });
    let wk = UI::piece_char(Piece { kind: PieceKind::King, color: Color::White });
    assert_ne!(wp, bp);
    assert_ne!(wp, wk);
    assert_eq!(wp, '♟');
    assert_eq!(bp, '♙');
}
