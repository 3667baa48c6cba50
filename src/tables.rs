use vstd::prelude::*;

use crate::board::{GameTime, Piece};

verus! {

/// Positional bonus of a pawn by square, as seen by White: row 0 is the
/// eighth rank, row 7 the first; the entry of a square is at `row * 8 + file`.
pub open spec fn pawn_table() -> Seq<int> {
    seq![
        0, 0, 0, 0, 0, 0, 0, 0,
        50, 50, 50, 50, 50, 50, 50, 50,
        10, 10, 20, 30, 30, 20, 10, 10,
        5, 5, 10, 25, 25, 10, 5, 5,
        0, 0, 0, 20, 20, 0, 0, 0,
        5, -5, -10, 0, 0, -10, -5, 5,
        5, 10, 10, -20, -20, 10, 10, 5,
        0, 0, 0, 0, 0, 0, 0, 0,
    ]
}

/// Positional bonus of a knight by square, as seen by White: row 0 is the
/// eighth rank, row 7 the first; the entry of a square is at `row * 8 + file`.
pub open spec fn knight_table() -> Seq<int> {
    seq![
        -50, -40, -30, -30, -30, -30, -40, -50,
        -40, -20, 0, 0, 0, 0, -20, -40,
        -30, 0, 10, 15, 15, 10, 0, -30,
        -30, 5, 15, 20, 20, 15, 5, -30,
        -30, 0, 15, 20, 20, 15, 0, -30,
        -30, 5, 10, 15, 15, 10, 5, -30,
        -40, -20, 0, 5, 5, 0, -20, -40,
        -50, -40, -30, -30, -30, -30, -40, -50,
    ]
}

/// Positional bonus of a bishop by square, as seen by White: row 0 is the
/// eighth rank, row 7 the first; the entry of a square is at `row * 8 + file`.
pub open spec fn bishop_table() -> Seq<int> {
    seq![
        -20, -10, -10, -10, -10, -10, -10, -20,
        -10, 0, 0, 0, 0, 0, 0, -10,
        -10, 0, 5, 10, 10, 5, 0, -10,
        -10, 5, 5, 10, 10, 5, 5, -10,
        -10, 0, 10, 10, 10, 10, 0, -10,
        -10, 10, 10, 10, 10, 10, 10, -10,
        -10, 5, 0, 0, 0, 0, 5, -10,
        -20, -10, -10, -10, -10, -10, -10, -20,
    ]
}

/// Positional bonus of a rook by square, as seen by White: row 0 is the
/// eighth rank, row 7 the first; the entry of a square is at `row * 8 + file`.
pub open spec fn rook_table() -> Seq<int> {
    seq![
        0, 0, 0, 0, 0, 0, 0, 0,
        5, 10, 10, 10, 10, 10, 10, 5,
        -5, 0, 0, 0, 0, 0, 0, -5,
        -5, 0, 0, 0, 0, 0, 0, -5,
        -5, 0, 0, 0, 0, 0, 0, -5,
        -5, 0, 0, 0, 0, 0, 0, -5,
        -5, 0, 0, 0, 0, 0, 0, -5,
        0, 0, 0, 5, 5, 0, 0, 0,
    ]
}

/// Positional bonus of a queen by square, as seen by White: row 0 is the
/// eighth rank, row 7 the first; the entry of a square is at `row * 8 + file`.
pub open spec fn queen_table() -> Seq<int> {
    seq![
        -20, -10, -10, -5, -5, -10, -10, -20,
        -10, 0, 0, 0, 0, 0, 0, -10,
        -10, 0, 5, 5, 5, 5, 0, -10,
        -5, 0, 5, 5, 5, 5, 0, -5,
        0, 0, 5, 5, 5, 5, 0, -5,
        -10, 5, 5, 5, 5, 5, 0, -10,
        -10, 0, 5, 0, 0, 0, 0, -10,
        -20, -10, -10, -5, -5, -10, -10, -20,
    ]
}

/// Positional bonus of a king in the middle game by square, as seen by White: row 0 is the
/// eighth rank, row 7 the first; the entry of a square is at `row * 8 + file`.
pub open spec fn king_middle_table() -> Seq<int> {
    seq![
        -30, -40, -40, -50, -50, -40, -40, -30,
        -30, -40, -40, -50, -50, -40, -40, -30,
        -30, -40, -40, -50, -50, -40, -40, -30,
        -30, -40, -40, -50, -50, -40, -40, -30,
        -20, -30, -30, -40, -40, -30, -30, -20,
        -10, -20, -20, -20, -20, -20, -20, -10,
        20, 20, 0, 0, 0, 0, 20, 20,
        20, 30, 10, 0, 0, 10, 30, 20,
    ]
}

/// Positional bonus of a king in the end game by square, as seen by White: row 0 is the
/// eighth rank, row 7 the first; the entry of a square is at `row * 8 + file`.
pub open spec fn king_end_table() -> Seq<int> {
    seq![
        -50, -40, -30, -20, -20, -30, -40, -50,
        -30, -20, -10, 0, 0, -10, -20, -30,
        -30, -10, 20, 30, 30, 20, -10, -30,
        -30, -10, 30, 40, 40, 30, -10, -30,
        -30, -10, 30, 40, 40, 30, -10, -30,
        -30, -10, 20, 30, 30, 20, -10, -30,
        -30, -30, 0, 0, 0, 0, -30, -30,
        -50, -30, -30, -30, -30, -30, -30, -50,
    ]
}

/// The positional table of `piece`; the king's depends on the phase of the game.
pub open spec fn table_of(piece: Piece, game: GameTime) -> Seq<int> {
    match piece {
        Piece::Pawn => pawn_table(),
        Piece::Knight => knight_table(),
        Piece::Bishop => bishop_table(),
        Piece::Rook => rook_table(),
        Piece::Queen => queen_table(),
        Piece::King => match game {
            GameTime::End => king_end_table(),
            _ => king_middle_table(),
        },
    }
}

/// Every table has 64 entries, none larger than 50 in size.
pub proof fn lemma_table_bounded(piece: Piece, game: GameTime)
    ensures
        table_of(piece, game).len() == 64,
        forall|i: int| 0 <= i < 64 ==> -50 <= #[trigger] table_of(piece, game)[i] <= 50,
{

    assert forall|i: int| 0 <= i < 64 implies -50 <= #[trigger] pawn_table()[i] <= 50 by {}
    assert forall|i: int| 0 <= i < 64 implies -50 <= #[trigger] knight_table()[i] <= 50 by {}
    assert forall|i: int| 0 <= i < 64 implies -50 <= #[trigger] bishop_table()[i] <= 50 by {}
    assert forall|i: int| 0 <= i < 64 implies -50 <= #[trigger] rook_table()[i] <= 50 by {}
    assert forall|i: int| 0 <= i < 64 implies -50 <= #[trigger] queen_table()[i] <= 50 by {}
    assert forall|i: int| 0 <= i < 64 implies -50 <= #[trigger] king_middle_table()[i] <= 50 by {}
    assert forall|i: int| 0 <= i < 64 implies -50 <= #[trigger] king_end_table()[i] <= 50 by {}
}

/// The entry of `table_of(piece, game)` at `index`.
pub fn table_entry(piece: Piece, game: GameTime, index: usize) -> (r: i64)
    requires
        index < 64,
    ensures
        r as int == table_of(piece, game)[index as int],
        -50 <= r <= 50,
{
    proof {
        lemma_table_bounded(piece, game);
    }
    let t: [i64; 64] = match piece {
        Piece::Pawn => [
            0, 0, 0, 0, 0, 0, 0, 0,
            50, 50, 50, 50, 50, 50, 50, 50,
            10, 10, 20, 30, 30, 20, 10, 10,
            5, 5, 10, 25, 25, 10, 5, 5,
            0, 0, 0, 20, 20, 0, 0, 0,
            5, -5, -10, 0, 0, -10, -5, 5,
            5, 10, 10, -20, -20, 10, 10, 5,
            0, 0, 0, 0, 0, 0, 0, 0,
        ],
        Piece::Knight => [
            -50, -40, -30, -30, -30, -30, -40, -50,
            -40, -20, 0, 0, 0, 0, -20, -40,
            -30, 0, 10, 15, 15, 10, 0, -30,
            -30, 5, 15, 20, 20, 15, 5, -30,
            -30, 0, 15, 20, 20, 15, 0, -30,
            -30, 5, 10, 15, 15, 10, 5, -30,
            -40, -20, 0, 5, 5, 0, -20, -40,
            -50, -40, -30, -30, -30, -30, -40, -50,
        ],
        Piece::Bishop => [
            -20, -10, -10, -10, -10, -10, -10, -20,
            -10, 0, 0, 0, 0, 0, 0, -10,
            -10, 0, 5, 10, 10, 5, 0, -10,
            -10, 5, 5, 10, 10, 5, 5, -10,
            -10, 0, 10, 10, 10, 10, 0, -10,
            -10, 10, 10, 10, 10, 10, 10, -10,
            -10, 5, 0, 0, 0, 0, 5, -10,
            -20, -10, -10, -10, -10, -10, -10, -20,
        ],
        Piece::Rook => [
            0, 0, 0, 0, 0, 0, 0, 0,
            5, 10, 10, 10, 10, 10, 10, 5,
            -5, 0, 0, 0, 0, 0, 0, -5,
            -5, 0, 0, 0, 0, 0, 0, -5,
            -5, 0, 0, 0, 0, 0, 0, -5,
            -5, 0, 0, 0, 0, 0, 0, -5,
            -5, 0, 0, 0, 0, 0, 0, -5,
            0, 0, 0, 5, 5, 0, 0, 0,
        ],
        Piece::Queen => [
            -20, -10, -10, -5, -5, -10, -10, -20,
            -10, 0, 0, 0, 0, 0, 0, -10,
            -10, 0, 5, 5, 5, 5, 0, -10,
            -5, 0, 5, 5, 5, 5, 0, -5,
            0, 0, 5, 5, 5, 5, 0, -5,
            -10, 5, 5, 5, 5, 5, 0, -10,
            -10, 0, 5, 0, 0, 0, 0, -10,
            -20, -10, -10, -5, -5, -10, -10, -20,
        ],
        Piece::King => match game {
            GameTime::End => [
                -50, -40, -30, -20, -20, -30, -40, -50,
                -30, -20, -10, 0, 0, -10, -20, -30,
                -30, -10, 20, 30, 30, 20, -10, -30,
                -30, -10, 30, 40, 40, 30, -10, -30,
                -30, -10, 30, 40, 40, 30, -10, -30,
                -30, -10, 20, 30, 30, 20, -10, -30,
                -30, -30, 0, 0, 0, 0, -30, -30,
                -50, -30, -30, -30, -30, -30, -30, -50,
            ],
            _ => [
                -30, -40, -40, -50, -50, -40, -40, -30,
                -30, -40, -40, -50, -50, -40, -40, -30,
                -30, -40, -40, -50, -50, -40, -40, -30,
                -30, -40, -40, -50, -50, -40, -40, -30,
                -20, -30, -30, -40, -40, -30, -30, -20,
                -10, -20, -20, -20, -20, -20, -20, -10,
                20, 20, 0, 0, 0, 0, 20, 20,
                20, 30, 10, 0, 0, 10, 30, 20,
            ],
        },
    };
    assert(t@.map_values(|x: i64| x as int) =~= table_of(piece, game));
    t[index]
}

} // verus!
