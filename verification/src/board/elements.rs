use vstd::prelude::*;

use super::Board;

verus! {

/// Pieces of the white player, in the order pawn, rook, knight, bishop, queen, king.
pub const WHT_PCS_UTF8: &'static str = "♟︎♜♞♝♛♚";

/// Pieces of the black player, in the order pawn, rook, knight, bishop, queen, king.
pub const BLK_PCS_UTF8: &'static str = "♙♖♘♗♕♔";

/// An empty dark square.
pub const BLK_SQUARE: &'static str = "⬛";

/// An empty light square.
pub const WHT_SQUARE: &'static str = "⬜";

/// The glyph of a white pawn.
pub const WHT_PAWN: &'static str = "♟︎";

/// The glyph of a black pawn.
pub const BLK_PAWN: &'static str = "♙";

/// The two sides of a game.
#[derive(Clone, Copy, Debug, PartialEq, Eq, Structural)]
pub enum PlayerColor {
    WHITE,
    BLACK,
}

/// A pawn: its square as `(row, column)` and its side.
#[derive(Clone, Copy, Debug, PartialEq, Eq)]
pub struct Pawn {
    pub position: (usize, usize),
    pub color: PlayerColor,
}

/// Error returned when a piece is asked to go to a square it cannot reach.
pub struct IllegalMoveErr {
    pub err_msg: String,
}

/// The row on which the pawns of `color` start.
pub open spec fn home_row(color: PlayerColor) -> usize {
    match color {
        PlayerColor::WHITE => 1,
        PlayerColor::BLACK => 6,
    }
}

/// Whether a square holds a piece of the given color.
pub open spec fn holds_color(square: Option<Pawn>, color: PlayerColor) -> bool {
    match square {
        Some(p) => p.color == color,
        None => false,
    }
}

/// The squares that `check_moves` offers to a white pawn standing at `(r, c)`.
pub open spec fn white_pawn_moves(board: Board, r: usize, c: usize) -> Seq<(usize, usize)> {
    let forward: Seq<(usize, usize)> = if r != 7 {
        let step = seq![(r, (c + 1) as usize)];
        let left = if c != 0 && holds_color(board.square(r + 1, c - 1), PlayerColor::BLACK) {
            step.push(((r + 1) as usize, (c - 1) as usize))
        } else {
            step
        };
        if c != 7 && holds_color(board.square(r + 1, c + 1), PlayerColor::BLACK) {
            left.push(((r + 1) as usize, (c + 1) as usize))
        } else {
            left
        }
    } else {
        Seq::empty()
    };
    if r == 1 {
        forward.push((r, (c + 2) as usize))
    } else {
        forward
    }
}

/// The squares that `check_moves` offers to a black pawn standing at `(r, c)`.
/// The second capture looks at `(r + 1, c + 1)` and offers `(r - 1, c + 1)`.
pub open spec fn black_pawn_moves(board: Board, r: usize, c: usize) -> Seq<(usize, usize)> {
    let forward: Seq<(usize, usize)> = if r != 0 {
        let step = seq![(r, (c - 1) as usize)];
        let left = if c != 0 && holds_color(board.square(r - 1, c - 1), PlayerColor::WHITE) {
            step.push(((r - 1) as usize, (c - 1) as usize))
        } else {
            step
        };
        if c != 7 && holds_color(board.square(r + 1, c + 1), PlayerColor::WHITE) {
            left.push(((r - 1) as usize, (c + 1) as usize))
        } else {
            left
        }
    } else {
        Seq::empty()
    };
    if r == 6 {
        forward.push((r, (c - 2) as usize))
    } else {
        forward
    }
}

/// The squares that `check_moves` offers to `pawn` on `board`, in the order it lists them.
pub open spec fn pawn_moves(pawn: Pawn, board: Board) -> Seq<(usize, usize)> {
    match pawn.color {
        PlayerColor::WHITE => white_pawn_moves(board, pawn.position.0, pawn.position.1),
        PlayerColor::BLACK => black_pawn_moves(board, pawn.position.0, pawn.position.1),
    }
}

/// Whether `check_moves` can list the moves of `pawn` without leaving the board or the range
/// of `usize`. A white pawn on the last row, and a black pawn on the first, have no move to
/// list, wherever they stand. Otherwise every square looked at must lie on the board: for a
/// white pawn this means standing on it; a black pawn steps towards the first column, looks
/// one row back and, unless in column 7, one row ahead.
pub open spec fn pawn_scan_defined(pawn: Pawn) -> bool {
    let (r, c) = pawn.position;
    match pawn.color {
        PlayerColor::WHITE => r == 7 || (r < 7 && c < 8),
        PlayerColor::BLACK => r == 0 || {
            &&& 1 <= c <= 8
            &&& r <= 8
            &&& c != 7 ==> (r <= 6 && c <= 6)
            &&& r == 6 ==> c >= 2
        },
    }
}

/// Whether `pawn` stands on the board.
pub open spec fn pawn_on_board(pawn: Pawn) -> bool {
    pawn.position.0 < 8 && pawn.position.1 < 8
}

/// What a white pawn is offered, stated square by square. A white pawn on the last row is
/// offered nothing. Elsewhere every square it is offered is its step to the next column, its
/// double step from its home row, or a square one row ahead and one column aside that holds a
/// black piece; and it is offered each of these whenever it applies.
pub proof fn lemma_white_pawn_moves(pawn: Pawn, board: Board)
    requires
        pawn.color == PlayerColor::WHITE,
        pawn_scan_defined(pawn),
    ensures
        ({
            let (r, c) = pawn.position;
            let moves = pawn_moves(pawn, board);
            &&& r == 7 ==> moves.len() == 0
            &&& forall|i: int|
                0 <= i < moves.len() ==> {
                    let m = #[trigger] moves[i];
                    ||| (m.0 == r && m.1 == c + 1)
                    ||| (r == 1 && m.0 == r && m.1 == c + 2)
                    ||| (m.0 == r + 1 && (m.1 + 1 == c || m.1 == c + 1) && holds_color(
                        board.square(m.0 as int, m.1 as int),
                        PlayerColor::BLACK,
                    ))
                }
            &&& r != 7 ==> moves.contains((r, (c + 1) as usize))
            &&& r == 1 ==> moves.contains((r, (c + 2) as usize))
            &&& (r != 7 && c != 0 && holds_color(board.square(r + 1, c - 1), PlayerColor::BLACK))
                ==> moves.contains(((r + 1) as usize, (c - 1) as usize))
            &&& (r != 7 && c != 7 && holds_color(board.square(r + 1, c + 1), PlayerColor::BLACK))
                ==> moves.contains(((r + 1) as usize, (c + 1) as usize))
        }),
{
    let (r, c) = pawn.position;
    let moves = pawn_moves(pawn, board);
    if r != 7 {
        let step = seq![(r, (c + 1) as usize)];
        let left = if c != 0 && holds_color(board.square(r + 1, c - 1), PlayerColor::BLACK) {
            step.push(((r + 1) as usize, (c - 1) as usize))
        } else {
            step
        };
        let right = if c != 7 && holds_color(board.square(r + 1, c + 1), PlayerColor::BLACK) {
            left.push(((r + 1) as usize, (c + 1) as usize))
        } else {
            left
        };
        assert(right[0] == (r, (c + 1) as usize));
        assert(moves[0] == (r, (c + 1) as usize));
        if c != 0 && holds_color(board.square(r + 1, c - 1), PlayerColor::BLACK) {
            assert(moves[1] == ((r + 1) as usize, (c - 1) as usize));
        }
        if c != 7 && holds_color(board.square(r + 1, c + 1), PlayerColor::BLACK) {
            assert(moves[left.len() as int] == ((r + 1) as usize, (c + 1) as usize));
        }
        if r == 1 {
            assert(moves[right.len() as int] == (r, (c + 2) as usize));
        }
    }
}

/// What a black pawn is offered, stated square by square. A black pawn on the first row is
/// offered nothing. Elsewhere every square it is offered is its step to the previous column,
/// its double step from its home row, the square one row back and one column left when that
/// square holds a white piece, or the square one row back and one column right when the square
/// one row ahead and one column right holds a white piece; and it is offered each of these
/// whenever it applies.
pub proof fn lemma_black_pawn_moves(pawn: Pawn, board: Board)
    requires
        pawn.color == PlayerColor::BLACK,
        pawn_scan_defined(pawn),
    ensures
        ({
            let (r, c) = pawn.position;
            let moves = pawn_moves(pawn, board);
            &&& r == 0 ==> moves.len() == 0
            &&& forall|i: int|
                0 <= i < moves.len() ==> {
                    let m = #[trigger] moves[i];
                    ||| (m.0 == r && m.1 + 1 == c)
                    ||| (r == 6 && m.0 == r && m.1 + 2 == c)
                    ||| (m.0 + 1 == r && m.1 + 1 == c && holds_color(
                        board.square(r - 1, c - 1),
                        PlayerColor::WHITE,
                    ))
                    ||| (m.0 + 1 == r && m.1 == c + 1 && holds_color(
                        board.square(r + 1, c + 1),
                        PlayerColor::WHITE,
                    ))
                }
            &&& r != 0 ==> moves.contains((r, (c - 1) as usize))
            &&& r == 6 ==> moves.contains((r, (c - 2) as usize))
            &&& (r != 0 && c != 0 && holds_color(board.square(r - 1, c - 1), PlayerColor::WHITE))
                ==> moves.contains(((r - 1) as usize, (c - 1) as usize))
            &&& (r != 0 && c != 7 && holds_color(board.square(r + 1, c + 1), PlayerColor::WHITE))
                ==> moves.contains(((r - 1) as usize, (c + 1) as usize))
        }),
{
    let (r, c) = pawn.position;
    let moves = pawn_moves(pawn, board);
    if r != 0 {
        let step = seq![(r, (c - 1) as usize)];
        let left = if c != 0 && holds_color(board.square(r - 1, c - 1), PlayerColor::WHITE) {
            step.push(((r - 1) as usize, (c - 1) as usize))
        } else {
            step
        };
        let right = if c != 7 && holds_color(board.square(r + 1, c + 1), PlayerColor::WHITE) {
            left.push(((r - 1) as usize, (c + 1) as usize))
        } else {
            left
        };
        assert(moves[0] == (r, (c - 1) as usize));
        if c != 0 && holds_color(board.square(r - 1, c - 1), PlayerColor::WHITE) {
            assert(moves[1] == ((r - 1) as usize, (c - 1) as usize));
        }
        if c != 7 && holds_color(board.square(r + 1, c + 1), PlayerColor::WHITE) {
            assert(moves[left.len() as int] == ((r - 1) as usize, (c + 1) as usize));
        }
        if r == 6 {
            assert(moves[right.len() as int] == (r, (c - 2) as usize));
        }
    }
}

/// The glyph that stands for a pawn of `color`.
pub open spec fn pawn_glyph(color: PlayerColor) -> Seq<char> {
    match color {
        PlayerColor::BLACK => BLK_PAWN@,
        PlayerColor::WHITE => WHT_PAWN@,
    }
}

/// What every chess piece offers.
pub trait Piece {
    /// Whether listing the moves of this piece stays on the board.
    spec fn scan_defined(&self) -> bool;

    /// Whether this piece stands on the board.
    spec fn on_board(&self) -> bool;

    /// The squares this piece may go to on `board`, in the order `check_moves` lists them.
    spec fn legal_moves(&self, board: Board) -> Seq<(usize, usize)>;

    /// Moves the piece on `board` to `new_pos` if it is one of its moves.
    fn move_piece(&mut self, board: &mut Board, new_pos: (usize, usize)) -> (r: Result<(), IllegalMoveErr>)
        requires
            old(self).scan_defined(),
            old(self).legal_moves(*old(board)).contains(new_pos) ==> {
                &&& old(self).on_board()
                &&& new_pos.0 < 8
                &&& new_pos.1 < 8
            },
    ;

    /// The squares this piece may go to on `board`.
    fn check_moves(&self, board: &Board) -> (r: Vec<(usize, usize)>)
        requires
            self.scan_defined(),
        ensures
            r@ == self.legal_moves(*board),
    ;

    /// The glyph of this piece.
    fn getch(&self) -> &'static str;
}

impl Pawn {
    /// A pawn of `color` on its starting row, in the given column.
    pub fn new(color: PlayerColor, column: u8) -> (p: Pawn)
        ensures
            p.color == color,
            p.position == (home_row(color), column as usize),
    {
        let row: usize;
        match color {
            PlayerColor::WHITE => {
                row = 1;
            },
            PlayerColor::BLACK => {
                row = 6;
            },
        }
        Pawn { color: color, position: (row, column as usize) }
    }
}

impl Piece for Pawn {
    open spec fn scan_defined(&self) -> bool {
        pawn_scan_defined(*self)
    }

    open spec fn on_board(&self) -> bool {
        pawn_on_board(*self)
    }

    open spec fn legal_moves(&self, board: Board) -> Seq<(usize, usize)> {
        pawn_moves(*self, board)
    }

    fn check_moves(&self, board: &Board) -> (valids: Vec<(usize, usize)>) {
        let mut valids: Vec<(usize, usize)> = Vec::new();
        let r = self.position.0;
        let c = self.position.1;
        match self.color {
            PlayerColor::WHITE => {
                if r != 7 {
                    valids.push((r, c + 1));
                    if c != 0 {
                        match board.get_square(r + 1, c - 1) {
                            None => {},
                            Some(x) => if x.color == PlayerColor::BLACK {
                                valids.push((r + 1, c - 1));
                            },
                        }
                    }
                    if c != 7 {
                        match board.get_square(r + 1, c + 1) {
                            None => {},
                            Some(x) => if x.color == PlayerColor::BLACK {
                                valids.push((r + 1, c + 1));
                            },
                        }
                    }
                }
                if r == 1 {
                    valids.push((r, c + 2));
                }
            },
            PlayerColor::BLACK => {
                if r != 0 {
                    valids.push((r, c - 1));
                    if c != 0 {
                        match board.get_square(r - 1, c - 1) {
                            None => {},
                            Some(x) => if x.color == PlayerColor::WHITE {
                                valids.push((r - 1, c - 1));
                            },
                        }
                    }
                    if c != 7 {
                        match board.get_square(r + 1, c + 1) {
                            None => {},
                            Some(x) => if x.color == PlayerColor::WHITE {
                                valids.push((r - 1, c + 1));
                            },
                        }
                    }
                }
                if r == 6 {
                    valids.push((r, c - 2));
                }
            },
        }
        assert(valids@ == pawn_moves(*self, *board));
        valids
    }

    fn move_piece(&mut self, board: &mut Board, new_pos: (usize, usize)) -> (r: Result<(), IllegalMoveErr>)
        ensures
            *final(self) == *old(self),
            r is Ok <==> old(self).legal_moves(*old(board)).contains(new_pos),
            r is Ok ==> final(board).squares() == old(board).squares().update(
                old(self).position.0 * 8 + old(self).position.1,
                None,
            ).update(new_pos.0 * 8 + new_pos.1, Some(*old(self))),
            r is Err ==> final(board).squares() == old(board).squares(),
            final(board).is_white_turn() == old(board).is_white_turn(),
            final(board).player_pawns() == old(board).player_pawns(),
            final(board).player_sides() == old(board).player_sides(),
    {
        let moves = self.check_moves(board);
        let mut k: usize = 0;
        while k < moves.len()
            invariant
                0 <= k <= moves.len(),
                moves@ == self.legal_moves(*board),
                *board == *old(board),
                *self == *old(self),
                pawn_scan_defined(*self),
                moves@.contains(new_pos) ==> pawn_on_board(*self) && new_pos.0 < 8 && new_pos.1 < 8,
                forall|j: int| 0 <= j < k ==> moves@[j] != new_pos,
            decreases moves.len() - k,
        {
            let possible_pos = moves[k];
            if new_pos.0 == possible_pos.0 && new_pos.1 == possible_pos.1 {
                assert(moves@[k as int] == new_pos);
                board.set_square(self.position.0, self.position.1, None);
                board.set_square(new_pos.0, new_pos.1, Some(*self));
                return Ok(());
            }
            k = k + 1;
        }
        assert(!moves@.contains(new_pos));
        Err(IllegalMoveErr { err_msg: String::new() })
    }

    fn getch(&self) -> (s: &'static str)
        ensures
            s@ == pawn_glyph(self.color),
    {
        match self.color {
            PlayerColor::BLACK => BLK_PAWN,
            PlayerColor::WHITE => WHT_PAWN,
        }
    }
}

} // verus!
