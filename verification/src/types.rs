//! Core value types of the chess engine: colors, piece kinds, squares, moves.

use vstd::prelude::*;

verus! {

/// The two sides of a chess game.
#[derive(Copy, Clone, Debug, PartialEq, Eq, Structural)]
pub enum Color {
    White,
    Black,
}

/// The six kinds of chess pieces.
#[derive(Copy, Clone, Debug, PartialEq, Eq, Structural)]
pub enum PieceKind {
    Pawn,
    Rook,
    Knight,
    Bishop,
    Queen,
    King,
}

/// A piece is a kind together with the color that owns it.
#[derive(Copy, Clone, Debug, PartialEq, Eq, Structural)]
pub struct Piece {
    pub kind: PieceKind,
    pub color: Color,
}

/// A board coordinate: file then rank, each meaningful in `[0, 7]`
/// (file 0 is the a-file, rank 0 is the first rank).
///
/// Construction is not guarded; every consumer treats a square with a
/// coordinate above 7 as empty or ignores writes to it.
#[derive(Copy, Clone, Debug, PartialEq, Eq, Structural)]
pub struct Square(pub u8, pub u8);

/// A candidate move: origin and destination square. Special moves
/// (castling, en passant, promotion) carry no extra annotation; they are
/// recognized from geometry and board context alone.
#[derive(Copy, Clone, Debug, PartialEq, Eq, Structural)]
pub struct Move {
    pub from: Square,
    pub to: Square,
}

/// True when both coordinates of the square lie on the board.
pub open spec fn in_range(s: Square) -> bool {
    s.0 <= 7 && s.1 <= 7
}

/// The side opposing `c`.
pub open spec fn spec_opposite(c: Color) -> Color {
    match c {
        Color::White => Color::Black,
        Color::Black => Color::White,
    }
}

/// The side opposing `c`.
pub fn opposite_color(c: Color) -> (r: Color)
    ensures
        r == spec_opposite(c),
{
    match c {
        Color::White => Color::Black,
        Color::Black => Color::White,
    }
}

} // verus!
