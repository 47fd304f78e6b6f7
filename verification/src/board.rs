use vstd::prelude::*;

pub mod elements;

use elements::{home_row, Pawn, Piece, PlayerColor, BLK_SQUARE, WHT_SQUARE, pawn_glyph};

verus! {

/// One side of the game: its pawns and its color.
struct Player {
    inventory: Vec<Pawn>,
    color: PlayerColor,
}

/// An eight by eight board, the two players once they are set up, and whose turn it is.
pub struct Board {
    arr: [Option<Pawn>; 64],
    players: Option<(Player, Player)>,
    turn: bool,
}

/// The pawns a player starts with: one per column, on the player's home row.
pub open spec fn starting_pawns(color: PlayerColor) -> Seq<Pawn> {
    Seq::new(8, |k: int| Pawn { position: (home_row(color), k as usize), color })
}

/// What stands on square `(r, c)` of a new board.
pub open spec fn starting_square(r: int, c: int) -> Option<Pawn> {
    if r == home_row(PlayerColor::WHITE) {
        Some(Pawn { position: (r as usize, c as usize), color: PlayerColor::WHITE })
    } else if r == home_row(PlayerColor::BLACK) {
        Some(Pawn { position: (r as usize, c as usize), color: PlayerColor::BLACK })
    } else {
        None
    }
}

/// The text that `show` prints for square `(i, j)` holding `square`.
pub open spec fn square_symbol(square: Option<Pawn>, i: int, j: int) -> Seq<char> {
    match square {
        None => if (i % 2 == 0) != (j % 2 == 0) {
            BLK_SQUARE@
        } else {
            WHT_SQUARE@
        },
        Some(p) => pawn_glyph(p.color),
    }
}

/// A player starts with eight pawns of its color, the pawn in column `k` standing on column `k`
/// of row 1 for white and of row 6 for black.
pub proof fn lemma_starting_pawns(color: PlayerColor, k: int)
    requires
        0 <= k < 8,
    ensures
        starting_pawns(color).len() == 8,
        starting_pawns(color)[k].color == color,
        starting_pawns(color)[k].position.1 == k,
        color == PlayerColor::WHITE ==> starting_pawns(color)[k].position.0 == 1,
        color == PlayerColor::BLACK ==> starting_pawns(color)[k].position.0 == 6,
{
}

/// The empty squares form a checkerboard: square (0, 0) is light, and two empty squares side
/// by side in a row, or one above the other in a column, are shown differently; every empty
/// square is light or dark.
pub proof fn lemma_checkerboard(i: int, j: int)
    requires
        0 <= i,
        0 <= j,
    ensures
        square_symbol(None, 0, 0) == WHT_SQUARE@,
        square_symbol(None, i, j) == BLK_SQUARE@ || square_symbol(None, i, j) == WHT_SQUARE@,
        square_symbol(None, i, j) != square_symbol(None, i, j + 1),
        square_symbol(None, i, j) != square_symbol(None, i + 1, j),
{
    reveal_strlit("⬛");
    reveal_strlit("⬜");
    assert(BLK_SQUARE@ != WHT_SQUARE@) by {
        assert(BLK_SQUARE@[0] != WHT_SQUARE@[0]);
    }
}

impl Player {
    closed spec fn pawns(&self) -> Seq<Pawn> {
        self.inventory@
    }

    closed spec fn side(&self) -> PlayerColor {
        self.color
    }

    /// A player of `color` with its eight pawns, each put on its square of `board`.
    fn new(color: PlayerColor, board: &mut Board) -> (p: Player)
        ensures
            p.pawns() == starting_pawns(color),
            p.side() == color,
            final(board).squares().len() == 64,
            forall|r: int, c: int|
                0 <= r < 8 && 0 <= c < 8 ==> #[trigger] final(board).square(r, c) == if r
                    == home_row(color) {
                    Some(Pawn { position: (r as usize, c as usize), color })
                } else {
                    old(board).square(r, c)
                },
            final(board).is_white_turn() == old(board).is_white_turn(),
            final(board).player_pawns() == old(board).player_pawns(),
    {
        let mut inventory: Vec<Pawn> = Vec::with_capacity(16);
        let mut i: u8 = 0;
        while i < 8
            invariant
                0 <= i <= 8,
                inventory@ == starting_pawns(color).take(i as int),
                board.squares().len() == 64,
                forall|r: int, c: int|
                    0 <= r < 8 && 0 <= c < 8 ==> #[trigger] board.square(r, c) == if r
                        == home_row(color) && c < i {
                        Some(Pawn { position: (r as usize, c as usize), color })
                    } else {
                        old(board).square(r, c)
                    },
                board.is_white_turn() == old(board).is_white_turn(),
                board.player_pawns() == old(board).player_pawns(),
            decreases 8 - i,
        {
            inventory.push(Pawn::new(color, i));
            let placed = inventory[i as usize];
            let ghost prev = *board;
            board.set_square(placed.position.0, placed.position.1, Some(placed));
            assert forall|r: int, c: int| 0 <= r < 8 && 0 <= c < 8 implies #[trigger] board.square(r, c) == if r
                == home_row(color) && c < i + 1 {
                Some(Pawn { position: (r as usize, c as usize), color })
            } else {
                old(board).square(r, c)
            } by {
                if r == home_row(color) && c == i {
                } else {
                    assert(r * 8 + c != home_row(color) * 8 + i);
                    assert(board.square(r, c) == prev.square(r, c));
                }
            }
            i = i + 1;
            assert(inventory@ =~= starting_pawns(color).take(i as int));
        }
        assert(inventory@ =~= starting_pawns(color));
        Player { inventory: inventory, color: color }
    }
}

impl Board {
    /// The 64 squares, row after row.
    pub closed spec fn squares(&self) -> Seq<Option<Pawn>> {
        self.arr@
    }

    /// The board always has 64 squares.
    pub proof fn lemma_squares_len(&self)
        ensures
            self.squares().len() == 64,
    {
    }

    /// What stands on square `(r, c)`.
    pub open spec fn square(&self, r: int, c: int) -> Option<Pawn> {
        self.squares()[r * 8 + c]
    }

    /// Whether it is white's turn.
    pub closed spec fn is_white_turn(&self) -> bool {
        self.turn
    }

    /// The pawns of the white and of the black player, once the players are set up.
    pub closed spec fn player_pawns(&self) -> Option<(Seq<Pawn>, Seq<Pawn>)> {
        match self.players {
            Some((w, b)) => Some((w.pawns(), b.pawns())),
            None => None,
        }
    }

    /// The colors of the white and of the black player, once the players are set up.
    pub closed spec fn player_sides(&self) -> Option<(PlayerColor, PlayerColor)> {
        match self.players {
            Some((w, b)) => Some((w.side(), b.side())),
            None => None,
        }
    }

    /// A board with both players set up: white pawns on row 1, black pawns on row 6,
    /// white to play.
    pub fn new() -> (b: Board)
        ensures
            b.squares().len() == 64,
            forall|r: int, c: int| 0 <= r < 8 && 0 <= c < 8 ==> #[trigger] b.square(r, c) == starting_square(r, c),
            b.is_white_turn(),
            b.player_pawns() == Some((starting_pawns(PlayerColor::WHITE), starting_pawns(PlayerColor::BLACK))),
            b.player_sides() == Some((PlayerColor::WHITE, PlayerColor::BLACK)),
    {
        let nonarr: [Option<Pawn>; 64] = [None; 64];
        let mut b = Board { arr: nonarr, players: None, turn: true };
        assert(forall|r: int, c: int| 0 <= r < 8 && 0 <= c < 8 ==> #[trigger] b.square(r, c) is None);
        let ghost b0 = b;
        let white = Player::new(PlayerColor::WHITE, &mut b);
        let ghost b1 = b;
        let black = Player::new(PlayerColor::BLACK, &mut b);
        let ghost b2 = b;
        b.players = Some((white, black));
        assert forall|r: int, c: int| 0 <= r < 8 && 0 <= c < 8 implies #[trigger] b.square(r, c) == starting_square(r, c) by {
            assert(b0.square(r, c) is None);
            assert(b1.square(r, c) == if r == 1 { Some(Pawn { position: (r as usize, c as usize), color: PlayerColor::WHITE }) } else { b0.square(r, c) });
            assert(b2.square(r, c) == if r == 6 { Some(Pawn { position: (r as usize, c as usize), color: PlayerColor::BLACK }) } else { b1.square(r, c) });
            assert(b.squares() == b2.squares());
        }
        b
    }

    /// What stands on square `(r, c)`.
    pub fn get_square(&self, r: usize, c: usize) -> (sq: Option<Pawn>)
        requires
            r < 8,
            c < 8,
        ensures
            sq == self.square(r as int, c as int),
    {
        self.arr[r * 8 + c]
    }

    /// Puts `sq` on square `(r, c)`.
    pub fn set_square(&mut self, r: usize, c: usize, sq: Option<Pawn>)
        requires
            r < 8,
            c < 8,
        ensures
            final(self).squares() == old(self).squares().update(r * 8 + c, sq),
            final(self).is_white_turn() == old(self).is_white_turn(),
            final(self).player_pawns() == old(self).player_pawns(),
            final(self).player_sides() == old(self).player_sides(),
    {
        self.arr[r * 8 + c] = sq;
    }

    /// Whether it is white's turn.
    pub fn turn(&self) -> (t: bool)
        ensures
            t == self.is_white_turn(),
    {
        self.turn
    }

    /// The text of row `i` as `show` prints it, one entry per square.
    pub fn show_row(&self, i: usize) -> (line: Vec<&'static str>)
        requires
            i < 8,
        ensures
            line@.len() == 8,
            forall|j: int| 0 <= j < 8 ==> (#[trigger] line@[j])@ == square_symbol(self.square(i as int, j), i as int, j),
    {
        let mut line: Vec<&'static str> = Vec::with_capacity(8);
        let mut j: usize = 0;
        while j < 8
            invariant
                0 <= j <= 8,
                i < 8,
                line@.len() == j,
                forall|k: int| 0 <= k < j ==> (#[trigger] line@[k])@ == square_symbol(self.square(i as int, k), i as int, k),
            decreases 8 - j,
        {
            match self.get_square(i, j) {
                None => {
                    if (i % 2 == 0) != (j % 2 == 0) {
                        line.push(BLK_SQUARE);
                    } else {
                        line.push(WHT_SQUARE);
                    }
                },
                Some(x) => {
                    line.push(x.getch());
                },
            }
            j = j + 1;
        }
        line
    }
}

} // verus!
