use pseudo_mutex::board::elements::{Pawn, Piece, PlayerColor, BLK_PAWN, BLK_SQUARE, WHT_PAWN, WHT_SQUARE};
use pseudo_mutex::board::Board;

fn pawn(r: usize, c: usize, color: PlayerColor) -> Pawn {
    Pawn { position: (r, c), color }
}

#[test]
fn pawn_new_places_on_home_row() {
    let w = Pawn::new(PlayerColor::WHITE, 3);
    assert_eq!(w.position, (1, 3));
    assert_eq!(w.color, PlayerColor::WHITE);
    let b = Pawn::new(PlayerColor::BLACK, 0);
    assert_eq!(b.position, (6, 0));
    assert_eq!(b.color, PlayerColor::BLACK);
}

#[test]
fn new_board_has_both_rows_of_pawns() {
    let b = Board::new();
    assert!(b.turn());
    for r in 0..8 {
        for c in 0..8 {
            let sq = b.get_square(r, c);
            match r {
                1 => assert_eq!(sq, Some(pawn(1, c, PlayerColor::WHITE))),
                6 => assert_eq!(sq, Some(pawn(6, c, PlayerColor::BLACK))),
                _ => assert_eq!(sq, None),
            }
        }
    }
}

#[test]
fn white_pawn_on_home_row_moves() {
    let b = Board::new();
    let p = pawn(1, 3, PlayerColor::WHITE);
    assert_eq!(p.check_moves(&b), vec![(1, 4), (1, 5)]);
}

#[test]
fn white_pawn_captures_black_pieces() {
    let mut b = Board::new();
    b.set_square(4, 2, Some(pawn(4, 2, PlayerColor::BLACK)));
    b.set_square(4, 4, Some(pawn(4, 4, PlayerColor::BLACK)));
    let p = pawn(3, 3, PlayerColor::WHITE);
    assert_eq!(p.check_moves(&b), vec![(3, 4), (4, 2), (4, 4)]);
}

#[test]
fn white_pawn_ignores_white_pieces_and_last_row() {
    let mut b = Board::new();
    b.set_square(4, 2, Some(pawn(4, 2, PlayerColor::WHITE)));
    let p = pawn(3, 3, PlayerColor::WHITE);
    assert_eq!(p.check_moves(&b), vec![(3, 4)]);
    let last = pawn(7, 5, PlayerColor::WHITE);
    assert_eq!(last.check_moves(&b), Vec::<(usize, usize)>::new());
}

#[test]
fn white_pawn_at_edge_columns() {
    let b = Board::new();
    let p = pawn(5, 0, PlayerColor::WHITE);
    assert_eq!(p.check_moves(&b), vec![(5, 1), (6, 1)]);
    let q = pawn(5, 7, PlayerColor::WHITE);
    assert_eq!(q.check_moves(&b), vec![(5, 8), (6, 6)]);
}

#[test]
fn black_pawn_on_home_row_moves() {
    let b = Board::new();
    let p = pawn(6, 4, PlayerColor::BLACK);
    assert_eq!(p.check_moves(&b), vec![(6, 3), (6, 2)]);
}

#[test]
fn black_pawn_captures() {
    let mut b = Board::new();
    b.set_square(2, 2, Some(pawn(2, 2, PlayerColor::WHITE)));
    b.set_square(4, 4, Some(pawn(4, 4, PlayerColor::WHITE)));
    let p = pawn(3, 3, PlayerColor::BLACK);
    assert_eq!(p.check_moves(&b), vec![(3, 2), (2, 2), (2, 4)]);
}

#[test]
fn black_pawn_on_first_row_has_no_moves() {
    let b = Board::new();
    let p = pawn(0, 4, PlayerColor::BLACK);
    assert_eq!(p.check_moves(&b), Vec::<(usize, usize)>::new());
}

#[test]
fn move_piece_to_a_listed_square() {
    let mut b = Board::new();
    let mut p = b.get_square(1, 2).unwrap();
    assert!(p.move_piece(&mut b, (1, 4)).is_ok());
    assert_eq!(b.get_square(1, 2), None);
    assert_eq!(b.get_square(1, 4), Some(pawn(1, 2, PlayerColor::WHITE)));
    assert_eq!(p.position, (1, 2));
}

#[test]
fn move_piece_to_another_square_is_refused() {
    let mut b = Board::new();
    let mut p = b.get_square(1, 2).unwrap();
    let r = p.move_piece(&mut b, (3, 2));
    assert!(r.is_err());
    assert_eq!(r.err().unwrap().err_msg, "");
    assert_eq!(b.get_square(1, 2), Some(pawn(1, 2, PlayerColor::WHITE)));
    assert_eq!(b.get_square(3, 2), None);
}

#[test]
fn glyphs() {
    assert_eq!(pawn(1, 1, PlayerColor::BLACK).getch(), "♙");
    assert_eq!(pawn(1, 1, PlayerColor::WHITE).getch(), "♟︎");
    assert_eq!(BLK_PAWN, "♙");
    assert_eq!(WHT_PAWN, "♟︎");
}

#[test]
fn rows_as_shown() {
    let b = Board::new();
    let row0 = b.show_row(0);
    assert_eq!(row0, vec![WHT_SQUARE, BLK_SQUARE, WHT_SQUARE, BLK_SQUARE, WHT_SQUARE, BLK_SQUARE, WHT_SQUARE, BLK_SQUARE]);
    let row1 = b.show_row(1);
    assert_eq!(row1, vec!["♟︎"; 8]);
    let row6 = b.show_row(6);
    assert_eq!(row6, vec!["♙"; 8]);
    let row3 = b.show_row(3);
    assert_eq!(row3[0], "⬛");
    assert_eq!(row3[1], "⬜");
}

#[test]
fn pawns_at_the_far_row_have_no_moves_wherever_they_stand() {
    let b = Board::new();
    assert_eq!(pawn(7, 12, PlayerColor::WHITE).check_moves(&b), Vec::<(usize, usize)>::new());
    assert_eq!(pawn(0, 0, PlayerColor::BLACK).check_moves(&b), Vec::<(usize, usize)>::new());
    assert_eq!(pawn(0, 40, PlayerColor::BLACK).check_moves(&b), Vec::<(usize, usize)>::new());
}

#[test]
fn black_pawn_past_the_last_row_in_column_seven() {
    let mut b = Board::new();
    assert_eq!(pawn(8, 7, PlayerColor::BLACK).check_moves(&b), vec![(8, 6)]);
    b.set_square(7, 6, Some(pawn(7, 6, PlayerColor::WHITE)));
    assert_eq!(pawn(8, 7, PlayerColor::BLACK).check_moves(&b), vec![(8, 6), (7, 6)]);
}
