//! The board: an 8x8 grid of optional pieces plus side to move,
//! castling rights and the en-passant target, with the move rules.

use crate::types::{in_range, opposite_color, spec_opposite, Color, Move, Piece, PieceKind, Square};
use vstd::prelude::*;

verus! {

/// Mathematical model of a position: the grid as a sequence of 64 cells
/// (index `rank * 8 + file`) together with the bookkeeping fields.
#[verifier::ext_equal]
pub ghost struct BoardModel {
    pub grid: Seq<Option<Piece>>,
    pub turn: Color,
    pub white_kingside: bool,
    pub white_queenside: bool,
    pub black_kingside: bool,
    pub black_queenside: bool,
    pub en_passant_target: Option<Square>,
}

/// A chess position: grid, side to move, castling rights, en-passant target.
#[derive(Clone, Copy, Debug, PartialEq, Eq)]
pub struct Board {
    pub squares: [Option<Piece>; 64],
    pub turn: Color,
    pub white_kingside: bool,
    pub white_queenside: bool,
    pub black_kingside: bool,
    pub black_queenside: bool,
    pub en_passant_target: Option<Square>,
}

impl View for Board {
    type V = BoardModel;

    open spec fn view(&self) -> BoardModel {
        BoardModel {
            grid: self.squares@,
            turn: self.turn,
            white_kingside: self.white_kingside,
            white_queenside: self.white_queenside,
            black_kingside: self.black_kingside,
            black_queenside: self.black_queenside,
            en_passant_target: self.en_passant_target,
        }
    }
}

/// The piece on cell (file `f`, rank `r`) of the model, both in `[0, 8)`.
pub open spec fn piece_at(m: BoardModel, f: int, r: int) -> Option<Piece> {
    m.grid[r * 8 + f]
}

/// What `Board::get` returns: the cell's content on the board,
/// `None` off the board.
pub open spec fn spec_get(m: BoardModel, s: Square) -> Option<Piece> {
    if in_range(s) {
        piece_at(m, s.0 as int, s.1 as int)
    } else {
        None
    }
}

/// What `Board::set` does to the model: overwrite the cell when the square
/// is on the board, change nothing otherwise.
pub open spec fn spec_set(m: BoardModel, s: Square, p: Option<Piece>) -> BoardModel {
    if in_range(s) {
        BoardModel { grid: m.grid.update(s.1 * 8 + s.0, p), ..m }
    } else {
        m
    }
}

/// The kind standing on `f` in each side's back rank at the start.
pub open spec fn back_rank_kind(f: int) -> PieceKind {
    if f == 0 || f == 7 {
        PieceKind::Rook
    } else if f == 1 || f == 6 {
        PieceKind::Knight
    } else if f == 2 || f == 5 {
        PieceKind::Bishop
    } else if f == 3 {
        PieceKind::Queen
    } else {
        PieceKind::King
    }
}

/// The piece on cell `i` of the standard starting position.
pub open spec fn starting_piece(i: int) -> Option<Piece> {
    let f = i % 8;
    let r = i / 8;
    if r == 0 {
        Some(Piece { kind: back_rank_kind(f), color: Color::White })
    } else if r == 1 {
        Some(Piece { kind: PieceKind::Pawn, color: Color::White })
    } else if r == 6 {
        Some(Piece { kind: PieceKind::Pawn, color: Color::Black })
    } else if r == 7 {
        Some(Piece { kind: back_rank_kind(f), color: Color::Black })
    } else {
        None
    }
}

/// The standard starting grid.
pub open spec fn starting_grid() -> Seq<Option<Piece>> {
    Seq::new(64, |i: int| starting_piece(i))
}

/// The standard starting position: White to move, all castling rights set,
/// no en-passant target.
pub open spec fn initial_model() -> BoardModel {
    BoardModel {
        grid: starting_grid(),
        turn: Color::White,
        white_kingside: true,
        white_queenside: true,
        black_kingside: true,
        black_queenside: true,
        en_passant_target: None,
    }
}

/// The absolute value of `x`.
pub open spec fn iabs(x: int) -> int {
    if x < 0 {
        -x
    } else {
        x
    }
}

/// The sign of `x`: -1, 0 or 1.
pub open spec fn isgn(x: int) -> int {
    if x > 0 {
        1
    } else if x < 0 {
        -1
    } else {
        0
    }
}

/// The rank direction a pawn of color `c` advances in.
pub open spec fn forward_dir(c: Color) -> int {
    match c {
        Color::White => 1,
        Color::Black => -1,
    }
}

/// The rank a pawn of color `c` starts on (where the double step is allowed).
pub open spec fn pawn_start_rank(c: Color) -> int {
    match c {
        Color::White => 1,
        Color::Black => 6,
    }
}

/// The far rank for color `c`, where a pawn promotes.
pub open spec fn last_rank(c: Color) -> int {
    match c {
        Color::White => 7,
        Color::Black => 0,
    }
}

/// The back rank of color `c`, holding king and rooks at the start.
pub open spec fn home_rank(c: Color) -> int {
    match c {
        Color::White => 0,
        Color::Black => 7,
    }
}

/// The larger of the two absolute coordinate deltas of `mv`: the number of
/// king steps from origin to destination along an aligned line.
pub open spec fn max_delta(mv: Move) -> int {
    let adx = iabs(mv.to.0 - mv.from.0);
    let ady = iabs(mv.to.1 - mv.from.1);
    if adx > ady {
        adx
    } else {
        ady
    }
}

/// The `n` cells starting at (`x`, `y`) and stepping by (`dx`, `dy`) are
/// all empty.
pub open spec fn path_clear_from(
    m: BoardModel,
    x: int,
    y: int,
    dx: int,
    dy: int,
    n: nat,
) -> bool
    decreases n,
{
    n == 0 || (piece_at(m, x, y) is None && path_clear_from(
        m,
        x + dx,
        y + dy,
        dx,
        dy,
        (n - 1) as nat,
    ))
}

/// Every cell strictly between origin and destination of `mv` (exclusive of
/// both ends), along the straight or diagonal line from one to the other,
/// is empty. Trivially true when the squares are identical or adjacent.
pub open spec fn path_clear(m: BoardModel, mv: Move) -> bool {
    let steps = max_delta(mv);
    let dx = isgn(mv.to.0 - mv.from.0);
    let dy = isgn(mv.to.1 - mv.from.1);
    if steps <= 1 {
        true
    } else {
        path_clear_from(m, mv.from.0 + dx, mv.from.1 + dy, dx, dy, (steps - 1) as nat)
    }
}

/// Pawn move geometry: single push onto an empty square, double push from
/// the start rank over an empty intervening square onto an empty square, or
/// a diagonal step onto an occupied square or the en-passant target.
pub open spec fn pawn_move_ok(m: BoardModel, c: Color, mv: Move) -> bool {
    let dx = mv.to.0 - mv.from.0;
    let dy = mv.to.1 - mv.from.1;
    let fwd = forward_dir(c);
    if dx == 0 && dy == fwd {
        spec_get(m, mv.to) is None
    } else if dx == 0 && dy == 2 * fwd && mv.from.1 == pawn_start_rank(c) {
        piece_at(m, mv.from.0 as int, mv.from.1 + fwd) is None && spec_get(m, mv.to) is None
    } else if dy == fwd && iabs(dx) == 1 {
        spec_get(m, mv.to) is Some || m.en_passant_target == Some(mv.to)
    } else {
        false
    }
}

/// Knight move geometry: the (1, 2) / (2, 1) offset pattern.
pub open spec fn knight_move_ok(mv: Move) -> bool {
    let adx = iabs(mv.to.0 - mv.from.0);
    let ady = iabs(mv.to.1 - mv.from.1);
    (adx == 1 && ady == 2) || (adx == 2 && ady == 1)
}

/// Bishop move geometry: equal absolute deltas and a clear path between.
pub open spec fn bishop_move_ok(m: BoardModel, mv: Move) -> bool {
    iabs(mv.to.0 - mv.from.0) == iabs(mv.to.1 - mv.from.1) && path_clear(m, mv)
}

/// Rook move geometry: zero delta on one axis and a clear path between.
pub open spec fn rook_move_ok(m: BoardModel, mv: Move) -> bool {
    (mv.to.0 == mv.from.0 || mv.to.1 == mv.from.1) && path_clear(m, mv)
}

/// Queen move geometry: the union of bishop and rook rules.
pub open spec fn queen_move_ok(m: BoardModel, mv: Move) -> bool {
    (iabs(mv.to.0 - mv.from.0) == iabs(mv.to.1 - mv.from.1) || mv.to.0 == mv.from.0 || mv.to.1
        == mv.from.1) && path_clear(m, mv)
}

/// The kingside castling flag of color `c`.
pub open spec fn kingside_flag(m: BoardModel, c: Color) -> bool {
    match c {
        Color::White => m.white_kingside,
        Color::Black => m.black_kingside,
    }
}

/// The queenside castling flag of color `c`.
pub open spec fn queenside_flag(m: BoardModel, c: Color) -> bool {
    match c {
        Color::White => m.white_queenside,
        Color::Black => m.black_queenside,
    }
}

/// Kingside castling is available to `c`: the flag is set, the two squares
/// between king and rook columns are empty, and a rook of `c` still stands
/// on its original corner.
pub open spec fn can_castle_kingside_spec(m: BoardModel, c: Color) -> bool {
    let r = home_rank(c);
    &&& kingside_flag(m, c)
    &&& piece_at(m, 5, r) is None
    &&& piece_at(m, 6, r) is None
    &&& piece_at(m, 7, r) == Some(Piece { kind: PieceKind::Rook, color: c })
}

/// Queenside castling is available to `c`: the flag is set, the three
/// squares between king and rook columns are empty, and a rook of `c` still
/// stands on its original corner.
pub open spec fn can_castle_queenside_spec(m: BoardModel, c: Color) -> bool {
    let r = home_rank(c);
    &&& queenside_flag(m, c)
    &&& piece_at(m, 1, r) is None
    &&& piece_at(m, 2, r) is None
    &&& piece_at(m, 3, r) is None
    &&& piece_at(m, 0, r) == Some(Piece { kind: PieceKind::Rook, color: c })
}

/// King move geometry: a one-square step in any direction, or a two-square
/// horizontal step to file 6 or 2 when the matching castling conditions
/// hold. Transit-square safety is deliberately not part of this rule: only
/// the general self-check veto constrains castling further.
pub open spec fn king_move_ok(m: BoardModel, c: Color, mv: Move) -> bool {
    let adx = iabs(mv.to.0 - mv.from.0);
    let ady = iabs(mv.to.1 - mv.from.1);
    if adx <= 1 && ady <= 1 {
        true
    } else if adx == 2 && ady == 0 {
        (mv.to.0 == 6 && can_castle_kingside_spec(m, c)) || (mv.to.0 == 2
            && can_castle_queenside_spec(m, c))
    } else {
        false
    }
}

/// Piece `p`, standing on (`f`, `r`), threatens `sq` by its own capture
/// geometry: pawns by the diagonal step alone, knights and kings by their
/// offset patterns, sliders by an aligned line with a clear path.
pub open spec fn attacks_from(m: BoardModel, f: int, r: int, p: Piece, sq: Square) -> bool {
    let dx = sq.0 - f;
    let dy = sq.1 - r;
    let mv = Move { from: Square(f as u8, r as u8), to: sq };
    match p.kind {
        PieceKind::Pawn => dy == forward_dir(p.color) && iabs(dx) == 1,
        PieceKind::Knight => knight_move_ok(mv),
        PieceKind::Bishop => iabs(dx) == iabs(dy) && path_clear(m, mv),
        PieceKind::Rook => (dx == 0 || dy == 0) && path_clear(m, mv),
        PieceKind::Queen => (iabs(dx) == iabs(dy) || dx == 0 || dy == 0) && path_clear(m, mv),
        PieceKind::King => iabs(dx) <= 1 && iabs(dy) <= 1,
    }
}

/// Cell (`f`, `r`) holds a piece of color `by` that threatens `sq`.
pub open spec fn attacker_at(m: BoardModel, f: int, r: int, by: Color, sq: Square) -> bool {
    &&& 0 <= f < 8
    &&& 0 <= r < 8
    &&& match piece_at(m, f, r) {
        Some(p) => p.color == by && attacks_from(m, f, r, p, sq),
        None => false,
    }
}

/// Some piece of color `by` threatens `sq`.
pub open spec fn square_attacked(m: BoardModel, sq: Square, by: Color) -> bool {
    exists|f: int, r: int| attacker_at(m, f, r, by, sq)
}

/// The first cell in row-major scan order (rank by rank, file by file),
/// starting at cell `i`, that holds a king of color `c`.
pub open spec fn find_king_from(m: BoardModel, c: Color, i: int) -> Option<Square>
    decreases 64 - i,
{
    if i < 0 || i >= 64 {
        None
    } else if m.grid[i] == Some(Piece { kind: PieceKind::King, color: c }) {
        Some(Square((i % 8) as u8, (i / 8) as u8))
    } else {
        find_king_from(m, c, i + 1)
    }
}

/// The square of the first king of color `c` in scan order, if any.
pub open spec fn king_square(m: BoardModel, c: Color) -> Option<Square> {
    find_king_from(m, c, 0)
}

/// Color `c` is in check: it has a king (the first one found, if several)
/// and the opposing side threatens its square. A side without a king is
/// never in check.
pub open spec fn in_check(m: BoardModel, c: Color) -> bool {
    match king_square(m, c) {
        Some(k) => square_attacked(m, k, spec_opposite(c)),
        None => false,
    }
}

/// A king square reported by the scan lies on the board.
proof fn lemma_find_king_from_in_range(m: BoardModel, c: Color, i: int)
    ensures
        find_king_from(m, c, i) is Some ==> in_range(find_king_from(m, c, i).unwrap()),
    decreases 64 - i,
{
    if 0 <= i < 64 && m.grid[i] != Some(Piece { kind: PieceKind::King, color: c }) {
        lemma_find_king_from_in_range(m, c, i + 1);
    }
}

/// A move is pseudo-legal: both squares on the board, the origin holds a
/// piece of the side to move, the destination holds no piece of the same
/// color, and the piece's own geometry and path rules admit the move.
/// Whether the move exposes the mover's king is not considered here.
pub open spec fn pseudo_legal(m: BoardModel, mv: Move) -> bool {
    &&& in_range(mv.from)
    &&& in_range(mv.to)
    &&& match piece_at(m, mv.from.0 as int, mv.from.1 as int) {
        Some(p) => {
            &&& p.color == m.turn
            &&& match piece_at(m, mv.to.0 as int, mv.to.1 as int) {
                Some(d) => d.color != p.color,
                None => true,
            }
            &&& match p.kind {
                PieceKind::Pawn => pawn_move_ok(m, p.color, mv),
                PieceKind::Knight => knight_move_ok(mv),
                PieceKind::Bishop => bishop_move_ok(m, mv),
                PieceKind::Rook => rook_move_ok(m, mv),
                PieceKind::Queen => queen_move_ok(m, mv),
                PieceKind::King => king_move_ok(m, p.color, mv),
            }
        },
        None => false,
    }
}

/// Clear both castling rights of color `c`.
pub open spec fn revoke_both(m: BoardModel, c: Color) -> BoardModel {
    match c {
        Color::White => BoardModel { white_kingside: false, white_queenside: false, ..m },
        Color::Black => BoardModel { black_kingside: false, black_queenside: false, ..m },
    }
}

/// Clear the castling rights of `c` matching a rook leaving (or taken on)
/// its original corner square `s`.
pub open spec fn revoke_rook_corner(m: BoardModel, c: Color, s: Square) -> BoardModel {
    match c {
        Color::White => {
            let m1 = if s == Square(0, 0) {
                BoardModel { white_queenside: false, ..m }
            } else {
                m
            };
            if s == Square(7, 0) {
                BoardModel { white_kingside: false, ..m1 }
            } else {
                m1
            }
        },
        Color::Black => {
            let m1 = if s == Square(0, 7) {
                BoardModel { black_queenside: false, ..m }
            } else {
                m
            };
            if s == Square(7, 7) {
                BoardModel { black_kingside: false, ..m1 }
            } else {
                m1
            }
        },
    }
}

/// Clear the rights of the captured side when the piece standing on `to`
/// is a rook on its original corner square.
pub open spec fn revoke_captured_rook(m: BoardModel, to: Square) -> BoardModel {
    match spec_get(m, to) {
        Some(cap) => if cap.kind == PieceKind::Rook {
            revoke_rook_corner(m, cap.color, to)
        } else {
            m
        },
        None => m,
    }
}

/// The castling branch of the move applier: relocate the king, clear both
/// of the mover's rights, and relocate the matching rook from its corner to
/// its post-castle square.
pub open spec fn apply_castle(m: BoardModel, mv: Move, p: Piece) -> BoardModel {
    let m1 = spec_set(spec_set(m, mv.from, None), mv.to, Some(p));
    let m2 = revoke_both(m1, p.color);
    let hr = home_rank(p.color) as u8;
    let kingside = mv.to.0 > mv.from.0;
    let rook_from = if kingside {
        Square(7, hr)
    } else {
        Square(0, hr)
    };
    let rook_to = if kingside {
        Square(5, hr)
    } else {
        Square(3, hr)
    };
    let rook = spec_get(m2, rook_from);
    spec_set(spec_set(m2, rook_from, None), rook_to, rook)
}

/// What `apply_move` does to the model: the raw state transition for a move
/// assumed pseudo-legal, in order: clear the en-passant target; castle and
/// stop; remove the pawn taken en passant; promote and stop; record a new
/// en-passant target after a double pawn push; revoke castling rights for a
/// king or corner-rook move and for a rook captured on its corner; vacate
/// the origin and place the piece on the destination.
pub open spec fn apply(m: BoardModel, mv: Move) -> BoardModel {
    match spec_get(m, mv.from) {
        None => m,
        Some(p) => {
            let ep_prior = m.en_passant_target;
            let m0 = BoardModel { en_passant_target: None, ..m };
            let dx = mv.to.0 - mv.from.0;
            let dy = mv.to.1 - mv.from.1;
            if p.kind == PieceKind::King && mv.from.1 == mv.to.1 && iabs(dx) == 2 {
                apply_castle(m0, mv, p)
            } else {
                let m1 = if p.kind == PieceKind::Pawn && iabs(dx) == 1 && dy == forward_dir(
                    p.color,
                ) && ep_prior == Some(mv.to) {
                    spec_set(m0, Square(mv.to.0, mv.from.1), None)
                } else {
                    m0
                };
                if p.kind == PieceKind::Pawn && mv.to.1 == last_rank(p.color) {
                    spec_set(
                        spec_set(m1, mv.from, None),
                        mv.to,
                        Some(Piece { kind: PieceKind::Queen, color: p.color }),
                    )
                } else {
                    let m2 = if p.kind == PieceKind::Pawn && dx == 0 && iabs(dy) == 2 {
                        BoardModel {
                            en_passant_target: Some(
                                Square(mv.from.0, ((mv.from.1 + mv.to.1) / 2) as u8),
                            ),
                            ..m1
                        }
                    } else {
                        m1
                    };
                    let m3 = if p.kind == PieceKind::King {
                        revoke_both(m2, p.color)
                    } else if p.kind == PieceKind::Rook {
                        revoke_rook_corner(m2, p.color, mv.from)
                    } else {
                        m2
                    };
                    let m4 = revoke_captured_rook(m3, mv.to);
                    spec_set(spec_set(m4, mv.from, None), mv.to, Some(p))
                }
            }
        },
    }
}

/// Applying `mv` would leave `c`'s king under attack.
pub open spec fn causes_self_check(m: BoardModel, mv: Move, c: Color) -> bool {
    in_check(apply(m, mv), c)
}

/// A move is accepted by `make_move`: pseudo-legal and free of self-check.
pub open spec fn move_allowed(m: BoardModel, mv: Move) -> bool {
    pseudo_legal(m, mv) && !causes_self_check(m, mv, m.turn)
}

/// Hand the move to the other side.
pub open spec fn flip_turn(m: BoardModel) -> BoardModel {
    BoardModel { turn: spec_opposite(m.turn), ..m }
}

/// The full effect of an accepted move: the applier's transition followed
/// by the turn flip.
pub open spec fn commit_move(m: BoardModel, mv: Move) -> BoardModel {
    flip_turn(apply(m, mv))
}

/// The candidate move at scan position `i` of the move generator: origins
/// run rank by rank and file by file, and for each origin the destinations
/// run in the same row-major order.
pub open spec fn move_of_index(i: int) -> Move {
    Move {
        from: Square(((i / 64) % 8) as u8, (i / 512) as u8),
        to: Square((i % 8) as u8, ((i / 8) % 8) as u8),
    }
}

/// A candidate move the generator keeps for color `c`: the origin holds a
/// piece of `c`, the move is pseudo-legal, and it passes the self-check
/// veto. (Pseudo-legality also checks the origin piece against the live
/// side to move, so for `c` other than the side to move nothing is kept.)
pub open spec fn candidate_ok(m: BoardModel, c: Color, mv: Move) -> bool {
    &&& match spec_get(m, mv.from) {
        Some(p) => p.color == c,
        None => false,
    }
    &&& pseudo_legal(m, mv)
    &&& !causes_self_check(m, mv, c)
}

/// The legal moves of color `c` among the first `n` scan positions, in
/// scan order.
pub open spec fn legal_moves_upto(m: BoardModel, c: Color, n: int) -> Seq<Move>
    decreases n,
{
    if n <= 0 {
        Seq::empty()
    } else {
        legal_moves_upto(m, c, n - 1) + (if candidate_ok(m, c, move_of_index(n - 1)) {
            seq![move_of_index(n - 1)]
        } else {
            Seq::empty()
        })
    }
}

/// All legal moves of color `c`, in scan order.
pub open spec fn legal_moves(m: BoardModel, c: Color) -> Seq<Move> {
    legal_moves_upto(m, c, 4096)
}

/// The move holds a pawn advancing two ranks along its file.
pub open spec fn is_double_pawn_advance(m: BoardModel, mv: Move) -> bool {
    match spec_get(m, mv.from) {
        Some(p) => p.kind == PieceKind::Pawn && mv.to.0 == mv.from.0 && iabs(mv.to.1 - mv.from.1)
            == 2,
        None => false,
    }
}

impl Board {
    /// A board in the standard starting position.
    pub fn new() -> (b: Board)
        ensures
            b@ == initial_model(),
    {
        let b = Board {
            squares: Self::starting_position(),
            turn: Color::White,
            white_kingside: true,
            white_queenside: true,
            black_kingside: true,
            black_queenside: true,
            en_passant_target: None,
        };
        b
    }

    fn back_rank_piece(f: u8) -> (k: PieceKind)
        requires
            f <= 7,
        ensures
            k == back_rank_kind(f as int),
    {
        if f == 0 || f == 7 {
            PieceKind::Rook
        } else if f == 1 || f == 6 {
            PieceKind::Knight
        } else if f == 2 || f == 5 {
            PieceKind::Bishop
        } else if f == 3 {
            PieceKind::Queen
        } else {
            PieceKind::King
        }
    }

    fn starting_piece_at(i: u8) -> (p: Option<Piece>)
        requires
            i < 64,
        ensures
            p == starting_piece(i as int),
    {
        let f: u8 = i % 8;
        let r: u8 = i / 8;
        if r == 0 {
            Some(Piece { kind: Self::back_rank_piece(f), color: Color::White })
        } else if r == 1 {
            Some(Piece { kind: PieceKind::Pawn, color: Color::White })
        } else if r == 6 {
            Some(Piece { kind: PieceKind::Pawn, color: Color::Black })
        } else if r == 7 {
            Some(Piece { kind: Self::back_rank_piece(f), color: Color::Black })
        } else {
            None
        }
    }

    fn starting_position() -> (r: [Option<Piece>; 64])
        ensures
            r@ == starting_grid(),
    {
        let mut board: [Option<Piece>; 64] = [None; 64];
        let mut i: usize = 0;
        while i < 64
            invariant
                i <= 64,
                forall|j: int| 0 <= j < i ==> board@[j] == starting_piece(j),
            decreases 64 - i,
        {
            board[i] = Self::starting_piece_at(i as u8);
            i = i + 1;
        }
        proof {
            assert(board@ =~= starting_grid());
        }
        board
    }

    /// The piece on `sq`; `None` both for an empty square and for
    /// coordinates off the board.
    pub fn get(&self, sq: Square) -> (r: Option<Piece>)
        ensures
            r == spec_get(self@, sq),
    {
        if sq.0 > 7 || sq.1 > 7 {
            return None;
        }
        let idx: usize = (sq.1 as usize) * 8 + (sq.0 as usize);
        self.squares[idx]
    }

    /// Overwrite `sq` with `piece`; silently a no-op for coordinates off
    /// the board.
    pub fn set(&mut self, sq: Square, piece: Option<Piece>)
        ensures
            final(self)@ == spec_set(old(self)@, sq, piece),
    {
        if sq.0 <= 7 && sq.1 <= 7 {
            let idx: usize = (sq.1 as usize) * 8 + (sq.0 as usize);
            self.squares[idx] = piece;
        }
    }

    /// Walks the cells strictly between the two squares of `mv` along their
    /// shared line and reports whether all of them are empty.
    #[verifier::loop_isolation(false)]
    fn clear_path(&self, mv: Move) -> (r: bool)
        requires
            in_range(mv.from),
            in_range(mv.to),
            mv.from.0 == mv.to.0 || mv.from.1 == mv.to.1 || iabs(mv.to.0 - mv.from.0) == iabs(
                mv.to.1 - mv.from.1,
            ),
        ensures
            r == path_clear(self@, mv),
    {
        let x1: i16 = mv.from.0 as i16;
        let y1: i16 = mv.from.1 as i16;
        let x2: i16 = mv.to.0 as i16;
        let y2: i16 = mv.to.1 as i16;
        let dx: i16 = if x2 > x1 {
            1
        } else if x2 < x1 {
            -1
        } else {
            0
        };
        let dy: i16 = if y2 > y1 {
            1
        } else if y2 < y1 {
            -1
        } else {
            0
        };
        let adx: i16 = if x2 >= x1 {
            x2 - x1
        } else {
            x1 - x2
        };
        let ady: i16 = if y2 >= y1 {
            y2 - y1
        } else {
            y1 - y2
        };
        let steps: i16 = if adx > ady {
            adx
        } else {
            ady
        };
        if steps <= 1 {
            return true;
        }
        let mut x: i16 = x1 + dx;
        let mut y: i16 = y1 + dy;
        let mut k: i16 = 1;
        while k < steps
            invariant
                1 <= k <= steps,
                dx == 1 ==> x == x1 + k,
                dx == -1 ==> x == x1 - k,
                dx == 0 ==> x == x1,
                dy == 1 ==> y == y1 + k,
                dy == -1 ==> y == y1 - k,
                dy == 0 ==> y == y1,
                path_clear(self@, mv) <==> path_clear_from(
                    self@,
                    x as int,
                    y as int,
                    dx as int,
                    dy as int,
                    (steps - k) as nat,
                ),
            decreases steps - k,
        {
            assert(0 <= x < 8 && 0 <= y < 8);
            let idx: usize = (y as usize) * 8 + (x as usize);
            if self.squares[idx].is_some() {
                return false;
            }
            x = x + dx;
            y = y + dy;
            k = k + 1;
        }
        true
    }

    /// Path test for rank- or file-aligned moves.
    fn clear_straight(&self, mv: Move) -> (r: bool)
        requires
            in_range(mv.from),
            in_range(mv.to),
            mv.from.0 == mv.to.0 || mv.from.1 == mv.to.1,
        ensures
            r == path_clear(self@, mv),
    {
        self.clear_path(mv)
    }

    /// Path test for diagonally aligned moves.
    fn clear_diagonal(&self, mv: Move) -> (r: bool)
        requires
            in_range(mv.from),
            in_range(mv.to),
            iabs(mv.to.0 - mv.from.0) == iabs(mv.to.1 - mv.from.1),
        ensures
            r == path_clear(self@, mv),
    {
        self.clear_path(mv)
    }

    fn legal_pawn_move(&self, color: Color, mv: Move) -> (r: bool)
        requires
            in_range(mv.from),
            in_range(mv.to),
        ensures
            r == pawn_move_ok(self@, color, mv),
    {
        let dx: i16 = mv.to.0 as i16 - mv.from.0 as i16;
        let dy: i16 = mv.to.1 as i16 - mv.from.1 as i16;
        let forward: i16 = match color {
            Color::White => 1,
            Color::Black => -1,
        };

        if dx == 0 && dy == forward {
            return self.get(mv.to).is_none();
        }

        if dx == 0 && dy == 2 * forward {
            let start_rank: u8 = match color {
                Color::White => 1,
                Color::Black => 6,
            };
            if mv.from.1 == start_rank {
                let middle_rank: u8 = match color {
                    Color::White => mv.from.1 + 1,
                    Color::Black => mv.from.1 - 1,
                };
                let middle = Square(mv.from.0, middle_rank);
                return self.get(middle).is_none() && self.get(mv.to).is_none();
            }
            return false;
        }

        if dy == forward && (dx == 1 || dx == -1) {
            if self.get(mv.to).is_some() {
                return true;
            }
            if let Some(ep) = self.en_passant_target {
                if mv.to.0 == ep.0 && mv.to.1 == ep.1 {
                    return true;
                }
            }
        }

        false
    }

    fn legal_knight_move(&self, mv: Move) -> (r: bool)
        ensures
            r == knight_move_ok(mv),
    {
        let dx: i16 = mv.to.0 as i16 - mv.from.0 as i16;
        let dy: i16 = mv.to.1 as i16 - mv.from.1 as i16;
        let adx: i16 = if dx >= 0 {
            dx
        } else {
            -dx
        };
        let ady: i16 = if dy >= 0 {
            dy
        } else {
            -dy
        };
        (adx == 1 && ady == 2) || (adx == 2 && ady == 1)
    }

    fn legal_bishop_move(&self, mv: Move) -> (r: bool)
        requires
            in_range(mv.from),
            in_range(mv.to),
        ensures
            r == bishop_move_ok(self@, mv),
    {
        let dx: i16 = mv.to.0 as i16 - mv.from.0 as i16;
        let dy: i16 = mv.to.1 as i16 - mv.from.1 as i16;
        let adx: i16 = if dx >= 0 {
            dx
        } else {
            -dx
        };
        let ady: i16 = if dy >= 0 {
            dy
        } else {
            -dy
        };
        if adx != ady {
            return false;
        }
        self.clear_diagonal(mv)
    }

    fn legal_rook_move(&self, mv: Move) -> (r: bool)
        requires
            in_range(mv.from),
            in_range(mv.to),
        ensures
            r == rook_move_ok(self@, mv),
    {
        let dx: i16 = mv.to.0 as i16 - mv.from.0 as i16;
        let dy: i16 = mv.to.1 as i16 - mv.from.1 as i16;
        if dx != 0 && dy != 0 {
            return false;
        }
        self.clear_straight(mv)
    }

    fn legal_queen_move(&self, mv: Move) -> (r: bool)
        requires
            in_range(mv.from),
            in_range(mv.to),
        ensures
            r == queen_move_ok(self@, mv),
    {
        let dx: i16 = mv.to.0 as i16 - mv.from.0 as i16;
        let dy: i16 = mv.to.1 as i16 - mv.from.1 as i16;
        let adx: i16 = if dx >= 0 {
            dx
        } else {
            -dx
        };
        let ady: i16 = if dy >= 0 {
            dy
        } else {
            -dy
        };
        if adx == ady {
            self.clear_diagonal(mv)
        } else if dx == 0 || dy == 0 {
            self.clear_straight(mv)
        } else {
            false
        }
    }

    fn can_castle_kingside(&self, color: Color) -> (r: bool)
        ensures
            r == can_castle_kingside_spec(self@, color),
    {
        let rank: u8 = match color {
            Color::White => 0,
            Color::Black => 7,
        };
        let flag = match color {
            Color::White => self.white_kingside,
            Color::Black => self.black_kingside,
        };
        if !flag {
            return false;
        }
        if self.get(Square(5, rank)).is_some() {
            return false;
        }
        if self.get(Square(6, rank)).is_some() {
            return false;
        }
        if let Some(r) = self.get(Square(7, rank)) {
            if r.kind != PieceKind::Rook || r.color != color {
                return false;
            }
        } else {
            return false;
        }
        true
    }

    fn can_castle_queenside(&self, color: Color) -> (r: bool)
        ensures
            r == can_castle_queenside_spec(self@, color),
    {
        let rank: u8 = match color {
            Color::White => 0,
            Color::Black => 7,
        };
        let flag = match color {
            Color::White => self.white_queenside,
            Color::Black => self.black_queenside,
        };
        if !flag {
            return false;
        }
        if self.get(Square(1, rank)).is_some() {
            return false;
        }
        if self.get(Square(2, rank)).is_some() {
            return false;
        }
        if self.get(Square(3, rank)).is_some() {
            return false;
        }
        if let Some(r) = self.get(Square(0, rank)) {
            if r.kind != PieceKind::Rook || r.color != color {
                return false;
            }
        } else {
            return false;
        }
        true
    }

    fn legal_king_move(&self, mv: Move) -> (r: bool)
        requires
            in_range(mv.from),
            in_range(mv.to),
            spec_get(self@, mv.from) is Some,
            spec_get(self@, mv.from).unwrap().kind == PieceKind::King,
        ensures
            r == king_move_ok(self@, spec_get(self@, mv.from).unwrap().color, mv),
    {
        let dx: i16 = mv.to.0 as i16 - mv.from.0 as i16;
        let dy: i16 = mv.to.1 as i16 - mv.from.1 as i16;
        let adx: i16 = if dx >= 0 {
            dx
        } else {
            -dx
        };
        let ady: i16 = if dy >= 0 {
            dy
        } else {
            -dy
        };
        if adx <= 1 && ady <= 1 {
            true
        } else if adx == 2 && ady == 0 {
            let p = self.get(mv.from).unwrap();
            (self.can_castle_kingside(p.color) && mv.to.0 == 6) || (self.can_castle_queenside(
                p.color,
            ) && mv.to.0 == 2)
        } else {
            false
        }
    }

    /// Decides whether `mv` is pseudo-legal in the current position. The
    /// `color` argument does not enter the decision: the origin piece is
    /// checked against the live side to move, which is what every caller
    /// passes.
    #[allow(unused_variables)]
    pub fn is_legal_move(&self, mv: Move, color: Color) -> (r: bool)
        ensures
            r == pseudo_legal(self@, mv),
    {
        if mv.from.0 > 7 || mv.from.1 > 7 || mv.to.0 > 7 || mv.to.1 > 7 {
            return false;
        }

        let piece = match self.get(mv.from) {
            Some(p) => p,
            None => {
                return false;
            },
        };

        if piece.color != self.turn {
            return false;
        }

        if let Some(dest) = self.get(mv.to) {
            if dest.color == piece.color {
                return false;
            }
        }

        match piece.kind {
            PieceKind::Pawn => self.legal_pawn_move(piece.color, mv),
            PieceKind::Knight => self.legal_knight_move(mv),
            PieceKind::Bishop => self.legal_bishop_move(mv),
            PieceKind::Rook => self.legal_rook_move(mv),
            PieceKind::Queen => self.legal_queen_move(mv),
            PieceKind::King => self.legal_king_move(mv),
        }
    }

    /// Scans the whole board and reports whether any piece of `by_color`
    /// threatens `sq`.
    #[verifier::loop_isolation(false)]
    pub fn is_square_attacked(&self, sq: Square, by_color: Color) -> (r: bool)
        requires
            in_range(sq),
        ensures
            r == square_attacked(self@, sq, by_color),
    {
        let mut y: u8 = 0;
        while y < 8
            invariant
                y <= 8,
                forall|f: int, r: int| r < y ==> !attacker_at(self@, f, r, by_color, sq),
            decreases 8 - y,
        {
            let mut x: u8 = 0;
            while x < 8
                invariant
                    x <= 8,
                    forall|f: int, r: int| r < y ==> !attacker_at(self@, f, r, by_color, sq),
                    forall|f: int| f < x ==> !attacker_at(self@, f, y as int, by_color, sq),
                decreases 8 - x,
            {
                let from = Square(x, y);
                if let Some(p) = self.get(from) {
                    if p.color == by_color {
                        let mv = Move { from, to: sq };
                        let dx: i16 = sq.0 as i16 - x as i16;
                        let dy: i16 = sq.1 as i16 - y as i16;
                        let adx: i16 = if dx >= 0 {
                            dx
                        } else {
                            -dx
                        };
                        let ady: i16 = if dy >= 0 {
                            dy
                        } else {
                            -dy
                        };
                        match p.kind {
                            PieceKind::Pawn => {
                                let forward: i16 = if by_color == Color::White {
                                    1
                                } else {
                                    -1
                                };
                                if dy == forward && adx == 1 {
                                    assert(attacker_at(self@, x as int, y as int, by_color, sq));
                                    return true;
                                }
                            },
                            PieceKind::Knight => {
                                if self.legal_knight_move(mv) {
                                    assert(attacker_at(self@, x as int, y as int, by_color, sq));
                                    return true;
                                }
                            },
                            PieceKind::Bishop => {
                                if adx == ady {
                                    if self.clear_diagonal(mv) {
                                        assert(attacker_at(
                                            self@,
                                            x as int,
                                            y as int,
                                            by_color,
                                            sq,
                                        ));
                                        return true;
                                    }
                                }
                            },
                            PieceKind::Rook => {
                                if dx == 0 || dy == 0 {
                                    if self.clear_straight(mv) {
                                        assert(attacker_at(
                                            self@,
                                            x as int,
                                            y as int,
                                            by_color,
                                            sq,
                                        ));
                                        return true;
                                    }
                                }
                            },
                            PieceKind::Queen => {
                                if adx == ady {
                                    if self.clear_diagonal(mv) {
                                        assert(attacker_at(
                                            self@,
                                            x as int,
                                            y as int,
                                            by_color,
                                            sq,
                                        ));
                                        return true;
                                    }
                                } else if dx == 0 || dy == 0 {
                                    if self.clear_straight(mv) {
                                        assert(attacker_at(
                                            self@,
                                            x as int,
                                            y as int,
                                            by_color,
                                            sq,
                                        ));
                                        return true;
                                    }
                                }
                            },
                            PieceKind::King => {
                                if adx <= 1 && ady <= 1 {
                                    assert(attacker_at(self@, x as int, y as int, by_color, sq));
                                    return true;
                                }
                            },
                        }
                    }
                }
                assert(!attacker_at(self@, x as int, y as int, by_color, sq));
                x = x + 1;
            }
            y = y + 1;
        }
        false
    }

    /// The square of the first king of `color` in scan order, if any.
    #[verifier::loop_isolation(false)]
    pub(crate) fn find_king(&self, color: Color) -> (r: Option<Square>)
        ensures
            r == king_square(self@, color),
    {
        let mut i: usize = 0;
        while i < 64
            invariant
                i <= 64,
                king_square(self@, color) == find_king_from(self@, color, i as int),
            decreases 64 - i,
        {
            if let Some(p) = self.squares[i] {
                if p.kind == PieceKind::King && p.color == color {
                    return Some(Square((i % 8) as u8, (i / 8) as u8));
                }
            }
            i = i + 1;
        }
        None
    }

    /// Whether `color`'s king (the first one found) is threatened by the
    /// opposing side; false when `color` has no king at all.
    pub fn is_in_check(&self, color: Color) -> (r: bool)
        ensures
            r == in_check(self@, color),
    {
        let king_sq = self.find_king(color);
        if king_sq.is_none() {
            return false;
        }
        let king_sq = king_sq.unwrap();
        proof {
            lemma_find_king_from_in_range(self@, color, 0);
        }
        self.is_square_attacked(king_sq, opposite_color(color))
    }

    /// Raw mutation for a move assumed pseudo-legal; see `apply`.
    #[verifier::rlimit(50)]
    fn apply_move(&mut self, mv: Move)
        ensures
            final(self)@ == apply(old(self)@, mv),
    {
        let piece_opt = self.get(mv.from);
        if piece_opt.is_none() {
            return ;
        }
        let piece = piece_opt.unwrap();

        let ep_prior = self.en_passant_target;
        self.en_passant_target = None;

        if piece.kind == PieceKind::King && mv.from.1 == mv.to.1 {
            let dx: i16 = mv.to.0 as i16 - mv.from.0 as i16;
            if dx == 2 || dx == -2 {
                self.set(mv.from, None);
                self.set(mv.to, Some(piece));
                match piece.color {
                    Color::White => {
                        self.white_kingside = false;
                        self.white_queenside = false;
                    },
                    Color::Black => {
                        self.black_kingside = false;
                        self.black_queenside = false;
                    },
                }
                let home: u8 = match piece.color {
                    Color::White => 0,
                    Color::Black => 7,
                };
                let rook_from = if dx > 0 {
                    Square(7, home)
                } else {
                    Square(0, home)
                };
                let rook_to = if dx > 0 {
                    Square(5, home)
                } else {
                    Square(3, home)
                };
                let rook = self.get(rook_from);
                self.set(rook_from, None);
                self.set(rook_to, rook);
                return ;
            }
        }

        if piece.kind == PieceKind::Pawn {
            let dx: i16 = mv.to.0 as i16 - mv.from.0 as i16;
            let dy: i16 = mv.to.1 as i16 - mv.from.1 as i16;
            let forward: i16 = match piece.color {
                Color::White => 1,
                Color::Black => -1,
            };

            if (dx == 1 || dx == -1) && dy == forward {
                if let Some(ep) = ep_prior {
                    if ep.0 == mv.to.0 && ep.1 == mv.to.1 {
                        let captured_pawn_sq = Square(mv.to.0, mv.from.1);
                        self.set(captured_pawn_sq, None);
                    }
                }
            }

            let far_rank: u8 = match piece.color {
                Color::White => 7,
                Color::Black => 0,
            };
            if mv.to.1 == far_rank {
                self.set(mv.from, None);
                self.set(mv.to, Some(Piece { kind: PieceKind::Queen, color: piece.color }));
                return ;
            }

            if dx == 0 && (dy == 2 || dy == -2) {
                let ep_rank: u8 = ((mv.from.1 as i16 + mv.to.1 as i16) / 2) as u8;
                self.en_passant_target = Some(Square(mv.from.0, ep_rank));
            }
        }

        if piece.kind == PieceKind::King {
            match piece.color {
                Color::White => {
                    self.white_kingside = false;
                    self.white_queenside = false;
                },
                Color::Black => {
                    self.black_kingside = false;
                    self.black_queenside = false;
                },
            }
        }

        if piece.kind == PieceKind::Rook {
            match piece.color {
                Color::White => {
                    if mv.from == Square(0, 0) {
                        self.white_queenside = false;
                    }
                    if mv.from == Square(7, 0) {
                        self.white_kingside = false;
                    }
                },
                Color::Black => {
                    if mv.from == Square(0, 7) {
                        self.black_queenside = false;
                    }
                    if mv.from == Square(7, 7) {
                        self.black_kingside = false;
                    }
                },
            }
        }

        if let Some(captured) = self.get(mv.to) {
            if captured.kind == PieceKind::Rook {
                match captured.color {
                    Color::White => {
                        if mv.to == Square(0, 0) {
                            self.white_queenside = false;
                        }
                        if mv.to == Square(7, 0) {
                            self.white_kingside = false;
                        }
                    },
                    Color::Black => {
                        if mv.to == Square(0, 7) {
                            self.black_queenside = false;
                        }
                        if mv.to == Square(7, 7) {
                            self.black_kingside = false;
                        }
                    },
                }
            }
        }

        self.set(mv.from, None);
        self.set(mv.to, Some(piece));
    }

    /// Applies `mv` to a throwaway copy and reports whether `color`'s king
    /// would then be under attack.
    fn would_cause_self_check(&self, mv: Move, color: Color) -> (r: bool)
        ensures
            r == causes_self_check(self@, mv, color),
    {
        let mut cloned = *self;
        cloned.apply_move(mv);
        cloned.is_in_check(color)
    }

    /// Validates `mv` against the live side to move and the self-check
    /// veto. A rejected move leaves the position untouched and yields
    /// false; an accepted one is applied and the turn flips.
    pub fn make_move(&mut self, mv: Move) -> (r: bool)
        ensures
            r == move_allowed(old(self)@, mv),
            r ==> final(self)@ == commit_move(old(self)@, mv),
            !r ==> *final(self) == *old(self),
    {
        if !self.is_legal_move(mv, self.turn) {
            return false;
        }

        if self.would_cause_self_check(mv, self.turn) {
            return false;
        }

        self.apply_move(mv);

        self.turn = match self.turn {
            Color::White => Color::Black,
            Color::Black => Color::White,
        };

        true
    }

    /// Every move of `color` that is pseudo-legal and passes the self-check
    /// veto, enumerated over all origin/destination pairs in row-major scan
    /// order. The sequence is built fresh on every call.
    #[verifier::loop_isolation(false)]
    pub fn generate_legal_moves(&self, color: Color) -> (moves: Vec<Move>)
        ensures
            moves@ == legal_moves(self@, color),
    {
        let mut moves: Vec<Move> = Vec::new();
        let mut i: usize = 0;
        while i < 4096
            invariant
                i <= 4096,
                moves@ == legal_moves_upto(self@, color, i as int),
            decreases 4096 - i,
        {
            let from = Square(((i / 64) % 8) as u8, (i / 512) as u8);
            let to = Square((i % 8) as u8, ((i / 8) % 8) as u8);
            let mv = Move { from, to };
            assert(mv == move_of_index(i as int));

            let mut keep = false;
            if let Some(p) = self.get(from) {
                if p.color == color {
                    if self.is_legal_move(mv, color) {
                        if !self.would_cause_self_check(mv, color) {
                            keep = true;
                        }
                    }
                }
            }
            assert(keep == candidate_ok(self@, color, mv));

            if keep {
                moves.push(mv);
            }
            i = i + 1;
        }
        moves
    }

    /// Checkmate for `color`: in check with no legal move left.
    pub fn is_checkmate(&self, color: Color) -> (r: bool)
        ensures
            r == (in_check(self@, color) && legal_moves(self@, color).len() == 0),
    {
        if !self.is_in_check(color) {
            return false;
        }
        let moves = self.generate_legal_moves(color);
        moves.is_empty()
    }

    /// Stalemate for `color`: not in check yet with no legal move left.
    pub fn is_stalemate(&self, color: Color) -> (r: bool)
        ensures
            r == (!in_check(self@, color) && legal_moves(self@, color).len() == 0),
    {
        if self.is_in_check(color) {
            return false;
        }
        let moves = self.generate_legal_moves(color);
        moves.is_empty()
    }

    /// The textual move history carried by the board itself: always empty,
    /// since the board records no past moves.
    #[allow(non_snake_case)]
    pub fn moveHistoryString(&self) -> (r: String)
        ensures
            r@ == Seq::<char>::empty(),
    {
        String::new()
    }
}

/// A move with either square off the board is never legal, in any position
/// and for any side.
pub proof fn lemma_out_of_range_move_illegal(m: BoardModel, mv: Move)
    requires
        !in_range(mv.from) || !in_range(mv.to),
    ensures
        !pseudo_legal(m, mv),
{
}

/// After any move accepted by `make_move`, the side to move has flipped
/// exactly once, and the en-passant target is present exactly when that
/// move was a double pawn advance.
pub proof fn lemma_commit_flips_turn_and_tracks_ep(m: BoardModel, mv: Move)
    requires
        move_allowed(m, mv),
    ensures
        commit_move(m, mv).turn == spec_opposite(m.turn),
        commit_move(m, mv).en_passant_target is Some <==> is_double_pawn_advance(m, mv),
{
}

} // verus!
