use vstd::prelude::*;

use crate::board::{Color, GameTime, Occupant, Piece, Position};
use crate::state::{ends_game, game_winner, is_game_over, winner_of, GameEnd};
use crate::tables::{table_entry, table_of};

verus! {

/// Factor by which every interpreted score is multiplied, so that the
/// statistics of a tree search stay well apart from rounding noise.
pub const SCALE: i64 = 10_000_000;

/// What a won game is worth before scaling; no material score comes near it.
pub const WIN_SCORE: i64 = 100_000;

/// Largest size of a board score that can be interpreted without overflow.
pub const MAX_EVALUATION: i64 = 100_000_000_000;

/// A static evaluator that scores positions from the point of view of one side.
pub struct ChessEvaluator(pub Color);

/// The evaluation of a state: a decided game, a drawn one, or a board score
/// from the evaluator's own side.
#[derive(Debug, Clone, Copy, PartialEq, Eq, Structural)]
pub enum ChessEvaluation {
    Winner(Color),
    Draw,
    Evaluation(i64),
}

impl ChessEvaluation {
    /// A board score small enough to be scaled.
    pub open spec fn bounded(self) -> bool {
        match self {
            ChessEvaluation::Evaluation(e) => -MAX_EVALUATION <= e <= MAX_EVALUATION,
            _ => true,
        }
    }
}

/// Material worth of a piece in centipawns.
pub open spec fn piece_worth(piece: Piece) -> int {
    match piece {
        Piece::Pawn => 100,
        Piece::Knight => 320,
        Piece::Bishop => 330,
        Piece::Rook => 500,
        Piece::Queen => 900,
        Piece::King => 200000,
    }
}

/// The row of the positional tables that square `index` reads for `color`:
/// the tables are drawn for White and mirrored vertically for Black.
pub open spec fn table_row(color: Color, index: int) -> int {
    match color {
        Color::White => 7 - index / 8,
        Color::Black => index / 8,
    }
}

/// What a `piece` of `color` on square `index` is worth: its material plus
/// its positional bonus.
pub open spec fn placement_score(piece: Piece, color: Color, game: GameTime, index: int) -> int {
    piece_worth(piece) + table_of(piece, game)[table_row(color, index) * 8 + index % 8]
}

/// The worth of the pieces of kind `piece` and side `color` on the first
/// `n` squares.
pub open spec fn piece_sum(
    color: Color,
    squares: Seq<Option<Occupant>>,
    piece: Piece,
    game: GameTime,
    n: nat,
) -> int
    decreases n,
{
    if n == 0 {
        0
    } else {
        piece_sum(color, squares, piece, game, (n - 1) as nat) + if squares[n - 1] == Some(
            Occupant { piece, color },
        ) {
            placement_score(piece, color, game, n - 1)
        } else {
            0
        }
    }
}

/// The worth of all pieces of `color` on the board.
pub open spec fn side_sum(color: Color, squares: Seq<Option<Occupant>>, game: GameTime) -> int {
    piece_sum(color, squares, Piece::Pawn, game, 64) + piece_sum(
        color,
        squares,
        Piece::Knight,
        game,
        64,
    ) + piece_sum(color, squares, Piece::Bishop, game, 64) + piece_sum(
        color,
        squares,
        Piece::Rook,
        game,
        64,
    ) + piece_sum(color, squares, Piece::Queen, game, 64) + piece_sum(
        color,
        squares,
        Piece::King,
        game,
        64,
    )
}

/// The board from `turn`'s side: its own pieces' worth minus the opponent's.
pub open spec fn board_score(turn: Color, squares: Seq<Option<Occupant>>, game: GameTime) -> int {
    side_sum(turn, squares, game) - side_sum(turn.opposite(), squares, game)
}

/// Number of pieces of kind `piece` and side `color` on the first `n` squares.
pub open spec fn piece_count(
    color: Color,
    squares: Seq<Option<Occupant>>,
    piece: Piece,
    n: nat,
) -> int
    decreases n,
{
    if n == 0 {
        0
    } else {
        piece_count(color, squares, piece, (n - 1) as nat) + if squares[n - 1] == Some(
            Occupant { piece, color },
        ) {
            1int
        } else {
            0int
        }
    }
}

/// Simple material balance for `turn`: pawn 1, knight and bishop 3, rook 5,
/// queen 9, own pieces counted up and the opponent's down.
pub open spec fn material_score(turn: Color, squares: Seq<Option<Occupant>>) -> int {
    let d = |p: Piece|
        piece_count(turn, squares, p, 64) - piece_count(turn.opposite(), squares, p, 64);
    d(Piece::Pawn) + 3 * d(Piece::Knight) + 3 * d(Piece::Bishop) + 5 * d(Piece::Rook) + 9 * d(
        Piece::Queen,
    )
}

/// The worth of the pieces of kind `piece` and side `turn`, material and
/// position together.
fn calculate_piece(turn: Color, board: &Position, piece: Piece, game: GameTime) -> (r: i64)
    requires
        board.wf(),
    ensures
        r as int == piece_sum(turn, board.squares@, piece, game, 64),
        -3200 <= r <= 64 * 200050,
{
    let mut total: i64 = 0;
    let mut i: usize = 0;
    while i < 64
        invariant
            i <= 64,
            board.wf(),
            total as int == piece_sum(turn, board.squares@, piece, game, i as nat),
            -50 * i <= total <= 200050 * i,
        decreases 64 - i,
    {
        match board.squares[i] {
            Some(o) => {
                if o.piece == piece && o.color == turn {
                    let rank = i / 8;
                    let file = i % 8;
                    let row = match turn {
                        Color::White => 7 - rank,
                        Color::Black => rank,
                    };
                    let bonus = table_entry(piece, game, row * 8 + file);
                    let worth: i64 = match piece {
                        Piece::Pawn => 100,
                        Piece::Knight => 320,
                        Piece::Bishop => 330,
                        Piece::Rook => 500,
                        Piece::Queen => 900,
                        Piece::King => 200000,
                    };
                    total = total + worth + bonus;
                }
            },
            None => {},
        }
        i = i + 1;
    }
    total
}

/// Scores the board for `turn`: the material and positional worth of its
/// own pieces minus that of the opponent's, the king's table chosen by the
/// phase of the game.
pub fn board_value(turn: Color, board: &Position, game: GameTime) -> (r: i64)
    requires
        board.wf(),
    ensures
        r as int == board_score(turn, board.squares@, game),
        -200_000_000 <= r <= 200_000_000,
{
    let them = turn.opponent();
    let mine = calculate_piece(turn, board, Piece::Pawn, game) + calculate_piece(
        turn,
        board,
        Piece::Knight,
        game,
    ) + calculate_piece(turn, board, Piece::Bishop, game) + calculate_piece(
        turn,
        board,
        Piece::Rook,
        game,
    ) + calculate_piece(turn, board, Piece::Queen, game) + calculate_piece(
        turn,
        board,
        Piece::King,
        game,
    );
    let theirs = calculate_piece(them, board, Piece::Pawn, game) + calculate_piece(
        them,
        board,
        Piece::Knight,
        game,
    ) + calculate_piece(them, board, Piece::Bishop, game) + calculate_piece(
        them,
        board,
        Piece::Rook,
        game,
    ) + calculate_piece(them, board, Piece::Queen, game) + calculate_piece(
        them,
        board,
        Piece::King,
        game,
    );
    mine - theirs
}

} // verus!

verus! {

/// Material balance of one kind of piece for `turn`: its own count minus the
/// opponent's, times `score`.
fn score_piece(turn: Color, board: &Position, piece: Piece, score: i64) -> (r: i64)
    requires
        board.wf(),
        -1_000_000 <= score <= 1_000_000,
    ensures
        r as int == (piece_count(turn, board.squares@, piece, 64) - piece_count(
            turn.opposite(),
            board.squares@,
            piece,
            64,
        )) * score,
        -64_000_000 <= r <= 64_000_000,
{
    let them = turn.opponent();
    let mut me: i64 = 0;
    let mut other: i64 = 0;
    let mut i: usize = 0;
    while i < 64
        invariant
            i <= 64,
            board.wf(),
            them == turn.opposite(),
            me as int == piece_count(turn, board.squares@, piece, i as nat),
            other as int == piece_count(them, board.squares@, piece, i as nat),
            0 <= me <= i,
            0 <= other <= i,
        decreases 64 - i,
    {
        match board.squares[i] {
            Some(o) => {
                if o.piece == piece && o.color == turn {
                    me = me + 1;
                } else if o.piece == piece && o.color == them {
                    other = other + 1;
                }
            },
            None => {},
        }
        i = i + 1;
    }
    let diff = me - other;
    assert(-64_000_000 <= diff * score <= 64_000_000) by (nonlinear_arith)
        requires
            -64 <= diff <= 64,
            -1_000_000 <= score <= 1_000_000,
    ;
    diff * score
}

/// The simple material balance of the board for `turn` (pawn 1, knight and
/// bishop 3, rook 5, queen 9).
pub fn material_value(turn: Color, board: &Position) -> (r: i64)
    requires
        board.wf(),
    ensures
        r as int == material_score(turn, board.squares@),
        -1344 <= r <= 1344,
{
    proof {
        lemma_material_bounded(turn, board.squares@);
    }
    score_piece(turn, board, Piece::Pawn, 1) + score_piece(turn, board, Piece::Knight, 3)
        + score_piece(turn, board, Piece::Bishop, 3) + score_piece(turn, board, Piece::Rook, 5)
        + score_piece(turn, board, Piece::Queen, 9)
}

/// How the game stands for the evaluator: finished (a winner, or none for a
/// draw), or still going.
pub open spec fn outcome_evaluation(
    side: Color,
    result: Option<GameEnd>,
    board: Seq<Option<Occupant>>,
) -> ChessEvaluation {
    if ends_game(result) {
        match game_winner(result) {
            Some(c) => ChessEvaluation::Winner(c),
            None => ChessEvaluation::Draw,
        }
    } else {
        ChessEvaluation::Evaluation(material_score(side, board) as i64)
    }
}

/// What `evaluation` is worth to `player` for an evaluator that scores from
/// `side`: a won game is worth `WIN_SCORE` to the winner and its negation to
/// the loser, a draw nothing, and a board score its own value to `side` and
/// its negation to the other.
pub open spec fn utility_for(side: Color, evaluation: ChessEvaluation, player: Color) -> int {
    match evaluation {
        ChessEvaluation::Winner(w) => if w == player {
            WIN_SCORE as int
        } else {
            -WIN_SCORE
        },
        ChessEvaluation::Draw => 0,
        ChessEvaluation::Evaluation(e) => if side == player {
            e as int
        } else {
            -e
        },
    }
}

impl ChessEvaluator {
    /// Evaluates a state from the way it ended (`result`, as the rules
    /// engine reports it) and its board: a won game names the winner, a
    /// drawn one is a draw, and a game still going gets the material
    /// balance from this evaluator's side.
    pub fn evaluate_outcome(&self, result: Option<GameEnd>, board: &Position) -> (r:
        ChessEvaluation)
        requires
            board.wf(),
        ensures
            r == outcome_evaluation(self.0, result, board.squares@),
            r.bounded(),
    {
        if is_game_over(result) {
            match winner_of(result) {
                Some(c) => ChessEvaluation::Winner(c),
                None => ChessEvaluation::Draw,
            }
        } else {
            ChessEvaluation::Evaluation(material_value(self.0, board))
        }
    }

    /// An evaluation is fixed when its state is created: a state seen again
    /// keeps it.
    pub fn evaluate_existing_state(&self, existing: &ChessEvaluation) -> (r: ChessEvaluation)
        ensures
            r == *existing,
    {
        *existing
    }

    /// What `evaluation` is worth to `player`.
    pub fn interpret_evaluation_for_player(&self, evaluation: &ChessEvaluation, player: &Color) -> (r: i64)
        requires
            evaluation.bounded(),
        ensures
            r as int == utility_for(self.0, *evaluation, *player),
            -MAX_EVALUATION <= r <= MAX_EVALUATION,
    {
        let v: i64 = match evaluation {
            ChessEvaluation::Winner(w) => if *w == *player {
                WIN_SCORE
            } else {
                -WIN_SCORE
            },
            ChessEvaluation::Draw => 0,
            ChessEvaluation::Evaluation(e) => if self.0 == *player {
                *e
            } else {
                -*e
            },
        };
        v
    }
}

/// Reading any evaluation for one side gives the negation of reading it for
/// the other.
pub proof fn lemma_zero_sum(side: Color, evaluation: ChessEvaluation, a: Color, b: Color)
    requires
        a != b,
    ensures
        utility_for(side, evaluation, a) == -utility_for(side, evaluation, b),
{
    assert(b == a.opposite());
}

/// Every position's material balance is far below a won game's worth.
pub proof fn lemma_material_bounded(turn: Color, squares: Seq<Option<Occupant>>)
    ensures
        -1344 <= material_score(turn, squares) <= 1344,
{
    assert forall|c: Color, p: Piece| 0 <= #[trigger] piece_count(c, squares, p, 64) <= 64 by {
        lemma_count_bounded(c, squares, p, 64);
    }
}

proof fn lemma_count_bounded(color: Color, squares: Seq<Option<Occupant>>, piece: Piece, n: nat)
    ensures
        0 <= piece_count(color, squares, piece, n) <= n,
    decreases n,
{
    if n > 0 {
        lemma_count_bounded(color, squares, piece, (n - 1) as nat);
    }
}

/// For any board, a game won by `winner` is worth more to `winner` than the
/// material evaluation of that board, and than a draw.
pub proof fn lemma_win_outranks_board(side: Color, winner: Color, squares: Seq<Option<Occupant>>)
    ensures
        utility_for(side, ChessEvaluation::Winner(winner), winner) > utility_for(
            side,
            ChessEvaluation::Evaluation(material_score(side, squares) as i64),
            winner,
        ),
        utility_for(side, ChessEvaluation::Winner(winner), winner) > utility_for(
            side,
            ChessEvaluation::Draw,
            winner,
        ),
{
    lemma_material_bounded(side, squares);
}

/// Configuration of the bot's Monte-Carlo tree search: evaluations are read
/// through `ChessEvaluator` and scaled by `SCALE`.
#[derive(Default)]
pub struct ChessMCTS;

/// The penalty put on a node while a search thread is exploring it; the
/// same magnitude as the evaluation scale.
pub const VIRTUAL_LOSS: i64 = SCALE;

impl ChessMCTS {
    pub fn virtual_loss(&self) -> (r: i64)
        ensures
            r == VIRTUAL_LOSS,
    {
        VIRTUAL_LOSS
    }

    /// What `evaluation` is worth to `player` in the tree search: the
    /// evaluator's reading times `SCALE`.
    pub fn interpret_scaled(&self, evaluator: &ChessEvaluator, evaluation: &ChessEvaluation, player: &Color) -> (r: i64)
        requires
            evaluation.bounded(),
        ensures
            r as int == utility_for(evaluator.0, *evaluation, *player) * SCALE,
    {
        let v = evaluator.interpret_evaluation_for_player(evaluation, player);
        assert(-MAX_EVALUATION * SCALE <= v * SCALE <= MAX_EVALUATION * SCALE) by (nonlinear_arith)
            requires
                -MAX_EVALUATION <= v <= MAX_EVALUATION,
        ;
        v * SCALE
    }
}

} // verus!
