//! Coordinate-notation move text: parsing and formatting, plus the piece
//! glyphs a front end draws the board with.

use crate::types::{in_range, Color, Move, Piece, PieceKind, Square};
use vstd::prelude::*;

verus! {

/// The file index encoded by `c`: 0 to 7 for 'a' to 'h', nothing otherwise.
pub open spec fn file_index_of(c: char) -> Option<u8> {
    if 'a' as int <= c as int && c as int <= 'h' as int {
        Some((c as int - 'a' as int) as u8)
    } else {
        None
    }
}

/// The rank index encoded by `c`: 0 to 7 for '1' to '8', nothing otherwise.
pub open spec fn rank_index_of(c: char) -> Option<u8> {
    if '1' as int <= c as int && c as int <= '8' as int {
        Some((c as int - '1' as int) as u8)
    } else {
        None
    }
}

/// The move encoded by `s`: exactly four characters, origin file and rank
/// then destination file and rank; anything else encodes no move.
pub open spec fn spec_parse_move(s: Seq<char>) -> Option<Move> {
    if s.len() == 4 {
        match (file_index_of(s[0]), rank_index_of(s[1]), file_index_of(s[2]), rank_index_of(
            s[3],
        )) {
            (Some(f1), Some(r1), Some(f2), Some(r2)) => Some(
                Move { from: Square(f1, r1), to: Square(f2, r2) },
            ),
            _ => None,
        }
    } else {
        None
    }
}

/// The lowercase letter of file `f`.
pub open spec fn file_char_of(f: u8) -> char {
    (f + 'a' as int) as char
}

/// The digit of rank `r`.
pub open spec fn rank_char_of(r: u8) -> char {
    (r + '1' as int) as char
}

/// The four-character text of `m`: origin file and rank, destination file
/// and rank, lowercase.
pub open spec fn spec_move_string(m: Move) -> Seq<char> {
    seq![
        file_char_of(m.from.0),
        rank_char_of(m.from.1),
        file_char_of(m.to.0),
        rank_char_of(m.to.1),
    ]
}

/// The glyph a front end draws `p` with.
pub open spec fn spec_piece_char(p: Piece) -> char {
    match (p.color, p.kind) {
        (Color::White, PieceKind::Pawn) => '♟',
        (Color::White, PieceKind::Rook) => '♜',
        (Color::White, PieceKind::Knight) => '♞',
        (Color::White, PieceKind::Bishop) => '♝',
        (Color::White, PieceKind::Queen) => '♛',
        (Color::White, PieceKind::King) => '♚',
        (Color::Black, PieceKind::Pawn) => '♙',
        (Color::Black, PieceKind::Rook) => '♖',
        (Color::Black, PieceKind::Knight) => '♘',
        (Color::Black, PieceKind::Bishop) => '♗',
        (Color::Black, PieceKind::Queen) => '♕',
        (Color::Black, PieceKind::King) => '♔',
    }
}

/// Relies on String::push: appends exactly one character at the end.
#[verifier::external_body]
fn push_char(s: &mut String, c: char)
    ensures
        final(s)@ == old(s)@.push(c),
{
    s.push(c);
}

/// Namespace for the textual move boundary.
pub struct UI;

impl UI {
    /// Parses a move from coordinate text: four lowercase characters,
    /// `[a-h][1-8][a-h][1-8]`. Any other text gives `None`.
    #[allow(non_snake_case)]
    pub fn parseMove(text: &str) -> (r: Option<Move>)
        ensures
            r == spec_parse_move(text@),
    {
        if text.unicode_len() != 4 {
            return None;
        }

        let f1 = match Self::file_to_index(text.get_char(0)) {
            Some(v) => v,
            None => {
                return None;
            },
        };
        let r1 = match Self::rank_to_index(text.get_char(1)) {
            Some(v) => v,
            None => {
                return None;
            },
        };
        let f2 = match Self::file_to_index(text.get_char(2)) {
            Some(v) => v,
            None => {
                return None;
            },
        };
        let r2 = match Self::rank_to_index(text.get_char(3)) {
            Some(v) => v,
            None => {
                return None;
            },
        };

        Some(Move { from: Square(f1, r1), to: Square(f2, r2) })
    }

    fn file_to_index(c: char) -> (r: Option<u8>)
        ensures
            r == file_index_of(c),
    {
        let v: u32 = c as u32;
        if 97 <= v && v <= 104 {
            Some((v - 97) as u8)
        } else {
            None
        }
    }

    fn rank_to_index(c: char) -> (r: Option<u8>)
        ensures
            r == rank_index_of(c),
    {
        let v: u32 = c as u32;
        if 49 <= v && v <= 56 {
            Some((v - 49) as u8)
        } else {
            None
        }
    }

    /// The glyph a front end draws `piece` with.
    pub fn piece_char(piece: Piece) -> (c: char)
        ensures
            c == spec_piece_char(piece),
    {
        match (piece.color, piece.kind) {
            (Color::White, PieceKind::Pawn) => '♟',
            (Color::White, PieceKind::Rook) => '♜',
            (Color::White, PieceKind::Knight) => '♞',
            (Color::White, PieceKind::Bishop) => '♝',
            (Color::White, PieceKind::Queen) => '♛',
            (Color::White, PieceKind::King) => '♚',
            (Color::Black, PieceKind::Pawn) => '♙',
            (Color::Black, PieceKind::Rook) => '♖',
            (Color::Black, PieceKind::Knight) => '♘',
            (Color::Black, PieceKind::Bishop) => '♗',
            (Color::Black, PieceKind::Queen) => '♕',
            (Color::Black, PieceKind::King) => '♔',
        }
    }

    /// The four-character coordinate text of `m`, lowercase.
    pub fn move_to_string(m: Move) -> (r: String)
        requires
            in_range(m.from),
            in_range(m.to),
        ensures
            r@ == spec_move_string(m),
    {
        let c1: char = (m.from.0 + 97) as char;
        let c2: char = (m.from.1 + 49) as char;
        let c3: char = (m.to.0 + 97) as char;
        let c4: char = (m.to.1 + 49) as char;
        let mut s = String::new();
        push_char(&mut s, c1);
        push_char(&mut s, c2);
        push_char(&mut s, c3);
        push_char(&mut s, c4);
        proof {
            assert(s@ =~= spec_move_string(m));
        }
        s
    }
}

/// A successfully parsed move lies on the board, and formatting it gives
/// back exactly the text it was parsed from.
pub proof fn lemma_parse_format_round_trip(s: Seq<char>)
    requires
        spec_parse_move(s) is Some,
    ensures
        in_range(spec_parse_move(s).unwrap().from),
        in_range(spec_parse_move(s).unwrap().to),
        spec_move_string(spec_parse_move(s).unwrap()) == s,
{
    assert(spec_move_string(spec_parse_move(s).unwrap()) =~= s);
}

} // verus!
