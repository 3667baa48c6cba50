use vstd::prelude::*;

use crate::board::{Color, Occupant, Piece, Position};
use crate::evaluator::{outcome_evaluation, ChessEvaluation, ChessEvaluator};

verus! {

/// How a game of chess ended, as the rules engine reports it.
#[derive(Clone, Copy, Debug, PartialEq, Eq, Structural)]
pub enum GameEnd {
    WhiteCheckmates,
    WhiteResigns,
    BlackCheckmates,
    BlackResigns,
    Stalemate,
    DrawAccepted,
    DrawDeclared,
}

/// A game is over after a checkmate, a resignation, a stalemate, an
/// accepted draw or a claimed draw (threefold repetition, fifty moves).
pub open spec fn ends_game(result: Option<GameEnd>) -> bool {
    result.is_some()
}

/// The side that won: the one that checkmated, or the one whose opponent
/// resigned. Draws and games still going have none.
pub open spec fn game_winner(result: Option<GameEnd>) -> Option<Color> {
    match result {
        Some(GameEnd::WhiteCheckmates) => Some(Color::White),
        Some(GameEnd::WhiteResigns) => Some(Color::Black),
        Some(GameEnd::BlackCheckmates) => Some(Color::Black),
        Some(GameEnd::BlackResigns) => Some(Color::White),
        _ => None,
    }
}

/// Whether `result` ends the game.
pub fn is_game_over(result: Option<GameEnd>) -> (r: bool)
    ensures
        r == ends_game(result),
{
    match result {
        Some(GameEnd::WhiteCheckmates) => true,
        Some(GameEnd::WhiteResigns) => true,
        Some(GameEnd::BlackCheckmates) => true,
        Some(GameEnd::BlackResigns) => true,
        Some(GameEnd::Stalemate) => true,
        Some(GameEnd::DrawAccepted) => true,
        Some(GameEnd::DrawDeclared) => true,
        None => false,
    }
}

/// The winner of a game that ended with `result`.
pub fn winner_of(result: Option<GameEnd>) -> (r: Option<Color>)
    ensures
        r == game_winner(result),
        r.is_some() ==> ends_game(result),
{
    match result {
        Some(GameEnd::WhiteCheckmates) => Some(Color::White),
        Some(GameEnd::WhiteResigns) => Some(Color::Black),
        Some(GameEnd::BlackCheckmates) => Some(Color::Black),
        Some(GameEnd::BlackResigns) => Some(Color::White),
        _ => None,
    }
}

/// Where a move went (squares numbered from 0 for a1 to 63 for h8), and
/// the piece a pawn became, if any (pawn 0, knight 1, bishop 2, rook 3,
/// queen 4, king 5).
#[derive(Clone, Copy, Debug, PartialEq, Eq, Structural, Hash)]
pub struct MoveKey {
    pub source: u8,
    pub dest: u8,
    pub promotion: Option<u8>,
}

/// Stands for "no promotion" in the hash input.
pub const NO_PROMOTION: u64 = 100;

/// The words that one move adds to the hash input.
pub open spec fn move_words(k: MoveKey) -> Seq<u64> {
    seq![
        k.source as u64,
        k.dest as u64,
        match k.promotion {
            Some(p) => p as u64,
            None => NO_PROMOTION,
        },
    ]
}

/// The words of the moves among `actions`, in the order they were played;
/// other actions (draw offers, resignations) add nothing.
pub open spec fn history_words(actions: Seq<Option<MoveKey>>) -> Seq<u64>
    decreases actions.len(),
{
    if actions.len() == 0 {
        Seq::empty()
    } else {
        history_words(actions.drop_last()) + match actions.last() {
            Some(k) => move_words(k),
            None => Seq::empty(),
        }
    }
}

/// Number of moves among `actions`.
pub open spec fn move_count(actions: Seq<Option<MoveKey>>) -> nat
    decreases actions.len(),
{
    if actions.len() == 0 {
        0
    } else {
        move_count(actions.drop_last()) + if actions.last().is_some() {
            1nat
        } else {
            0nat
        }
    }
}

/// The full hash input of a game: its move history, the number of moves,
/// then the hash of the current position.
pub open spec fn hash_input(actions: Seq<Option<MoveKey>>, position_hash: u64) -> Seq<u64> {
    history_words(actions) + seq![move_count(actions) as u64, position_hash]
}

/// Lays out the hash input of a game from its actions and the hash of its
/// current position. Two games with different move histories give different
/// inputs even where they reach the same board.
pub fn hash_words(actions: &Vec<Option<MoveKey>>, position_hash: u64) -> (r: Vec<u64>)
    ensures
        r@ == hash_input(actions@, position_hash),
{
    let mut words: Vec<u64> = Vec::new();
    let mut count: usize = 0;
    let mut i: usize = 0;
    while i < actions.len()
        invariant
            i <= actions@.len(),
            words@ == history_words(actions@.take(i as int)),
            count as nat == move_count(actions@.take(i as int)),
            count <= i,
        decreases actions@.len() - i,
    {
        assert(actions@.take(i as int + 1).drop_last() =~= actions@.take(i as int));
        match actions[i] {
            Some(k) => {
                words.push(k.source as u64);
                words.push(k.dest as u64);
                let promotion: u64 = match k.promotion {
                    Some(p) => p as u64,
                    None => NO_PROMOTION,
                };
                words.push(promotion);
                count = count + 1;
            },
            None => {},
        }
        i = i + 1;
        assert(words@ =~= history_words(actions@.take(i as int)));
    }
    assert(actions@.take(i as int) =~= actions@);
    words.push(count as u64);
    words.push(position_hash);
    assert(words@ =~= hash_input(actions@, position_hash));
    words
}

#[verifier::external_type_specification]
#[verifier::external_body]
pub struct ExGame(chess::Game);

#[verifier::external_type_specification]
#[verifier::external_body]
pub struct ExBoard(chess::Board);

#[verifier::external_type_specification]
#[verifier::external_body]
pub struct ExChessMove(chess::ChessMove);

/// How `game` ended, as chess::Game::result reports it.
pub uninterp spec fn game_end_of(game: chess::Game) -> Option<GameEnd>;

/// The side to move in `game` (chess::Game::side_to_move).
pub uninterp spec fn side_of(game: chess::Game) -> Color;

/// The board after the moves of `game` (chess::Game::current_position).
pub uninterp spec fn board_of(game: chess::Game) -> chess::Board;

/// The legal moves on `board`, in the order chess::MoveGen::new_legal
/// yields them.
pub uninterp spec fn legal_of(board: chess::Board) -> Seq<chess::ChessMove>;

/// `game` after chess::Game::make_move was asked to play `m`.
pub uninterp spec fn game_after(game: chess::Game, m: chess::ChessMove) -> chess::Game;

/// The kind of piece on square `index` of `board` (chess::Board::piece_on).
pub uninterp spec fn piece_at(board: chess::Board, index: usize) -> Option<Piece>;

/// The side of the piece on square `index` of `board` (chess::Board::color_on).
pub uninterp spec fn color_at(board: chess::Board, index: usize) -> Option<Color>;

/// The hash of `board` (chess::Board::get_hash).
pub uninterp spec fn hash_of(board: chess::Board) -> u64;

/// The actions of `game` in order, the move of each that is a move
/// (chess::Game::actions).
pub uninterp spec fn actions_of(game: chess::Game) -> Seq<Option<chess::ChessMove>>;

/// The number of the square a move leaves (chess::ChessMove::get_source).
pub uninterp spec fn source_of(m: chess::ChessMove) -> u8;

/// The number of the square a move reaches (chess::ChessMove::get_dest).
pub uninterp spec fn dest_of(m: chess::ChessMove) -> u8;

/// The index of the piece a pawn becomes by a move, if any
/// (chess::ChessMove::get_promotion).
pub uninterp spec fn promotion_of(m: chess::ChessMove) -> Option<u8>;

/// What stands on square `index` of `board`: a piece where the board names
/// both a kind and a side, nothing otherwise.
pub open spec fn occupant_at(board: chess::Board, index: int) -> Option<Occupant> {
    match (piece_at(board, index as usize), color_at(board, index as usize)) {
        (Some(piece), Some(color)) => Some(Occupant { piece, color }),
        _ => None,
    }
}

/// The 64 squares of `board`.
pub open spec fn squares_of(board: chess::Board) -> Seq<Option<Occupant>> {
    Seq::new(64, |i: int| occupant_at(board, i))
}

/// The key of a move: its squares and promotion.
pub open spec fn key_of(m: chess::ChessMove) -> MoveKey {
    MoveKey { source: source_of(m), dest: dest_of(m), promotion: promotion_of(m) }
}

/// The actions of `game` as move keys, and nothing for an action that is
/// not a move.
pub open spec fn history_of(game: chess::Game) -> Seq<Option<MoveKey>> {
    actions_of(game).map_values(
        |a: Option<chess::ChessMove>|
            match a {
                Some(m) => Some(key_of(m)),
                None => None,
            },
    )
}

/// Relies on chess::Game::result: how the game ended, if it did.
#[verifier::external_body]
fn game_result(game: &chess::Game) -> (r: Option<GameEnd>)
    ensures
        r == game_end_of(*game),
{
    game.result().map(|result| match result {
        chess::GameResult::WhiteCheckmates => GameEnd::WhiteCheckmates,
        chess::GameResult::WhiteResigns => GameEnd::WhiteResigns,
        chess::GameResult::BlackCheckmates => GameEnd::BlackCheckmates,
        chess::GameResult::BlackResigns => GameEnd::BlackResigns,
        chess::GameResult::Stalemate => GameEnd::Stalemate,
        chess::GameResult::DrawAccepted => GameEnd::DrawAccepted,
        chess::GameResult::DrawDeclared => GameEnd::DrawDeclared,
    })
}

/// Relies on chess::Game::side_to_move: the side whose turn it is.
#[verifier::external_body]
fn side_to_move(game: &chess::Game) -> (r: Color)
    ensures
        r == side_of(*game),
{
    match game.side_to_move() {
        chess::Color::White => Color::White,
        chess::Color::Black => Color::Black,
    }
}

/// Relies on chess::Game::current_position: the board after the moves made.
#[verifier::external_body]
fn current_position(game: &chess::Game) -> (r: chess::Board)
    ensures
        r == board_of(*game),
{
    game.current_position()
}

/// Relies on chess::MoveGen::new_legal: the legal moves on a board.
#[verifier::external_body]
fn legal_moves_on(board: &chess::Board) -> (r: Vec<chess::ChessMove>)
    ensures
        r@ == legal_of(*board),
{
    chess::MoveGen::new_legal(board).collect()
}

/// Relies on chess::Game::make_move: plays a move if it is legal and the
/// game is not over, and tells whether it did.
#[verifier::external_body]
fn play(game: &mut chess::Game, m: &chess::ChessMove) -> (r: bool)
    ensures
        *final(game) == game_after(*old(game), *m),
{
    game.make_move(*m)
}

/// Relies on chess::Board::piece_on: the kind of piece on square `index`
/// (numbered as chess::ALL_SQUARES numbers them), if any.
#[verifier::external_body]
fn piece_on(board: &chess::Board, index: usize) -> (r: Option<Piece>)
    requires
        index < 64,
    ensures
        r == piece_at(*board, index),
{
    board.piece_on(chess::ALL_SQUARES[index]).map(|p| match p {
        chess::Piece::Pawn => Piece::Pawn,
        chess::Piece::Knight => Piece::Knight,
        chess::Piece::Bishop => Piece::Bishop,
        chess::Piece::Rook => Piece::Rook,
        chess::Piece::Queen => Piece::Queen,
        chess::Piece::King => Piece::King,
    })
}

/// Relies on chess::Board::color_on: the side of the piece on square
/// `index`, if any.
#[verifier::external_body]
fn color_on(board: &chess::Board, index: usize) -> (r: Option<Color>)
    requires
        index < 64,
    ensures
        r == color_at(*board, index),
{
    board.color_on(chess::ALL_SQUARES[index]).map(|c| match c {
        chess::Color::White => Color::White,
        chess::Color::Black => Color::Black,
    })
}

/// Relies on chess::Board::get_hash: the board's own hash.
#[verifier::external_body]
fn board_hash(board: &chess::Board) -> (r: u64)
    ensures
        r == hash_of(*board),
{
    board.get_hash()
}

/// Relies on chess::Game::actions: the actions of the game in order, the
/// move of each that is a move and nothing for the others.
#[verifier::external_body]
fn game_moves(game: &chess::Game) -> (r: Vec<Option<chess::ChessMove>>)
    ensures
        r@ == actions_of(*game),
{
    game.actions().iter().map(|action| match action {
        chess::Action::MakeMove(m) => Some(*m),
        _ => None,
    }).collect()
}

/// Relies on chess::ChessMove::get_source, get_dest and get_promotion, with
/// chess::Square::to_int and chess::Piece::to_index (pawn 0 to king 5): the
/// squares of a move and the piece a pawn becomes.
#[verifier::external_body]
fn move_key(m: &chess::ChessMove) -> (r: MoveKey)
    ensures
        r.source == source_of(*m),
        r.dest == dest_of(*m),
        r.promotion == promotion_of(*m),
        r.promotion matches Some(p) ==> p < 6,
{
    MoveKey {
        source: m.get_source().to_int(),
        dest: m.get_dest().to_int(),
        promotion: m.get_promotion().map(|p| p.to_index() as u8),
    }
}

/// Relies on chess::Game::new: a game from the standard starting position.
#[verifier::external_body]
fn new_game() -> (r: chess::Game) {
    chess::Game::new()
}

/// A game of chess with its whole history, as a state of the search.
pub struct GameWrapper(pub chess::Game);

impl Default for GameWrapper {
    /// A game from the standard starting position.
    fn default() -> Self {
        GameWrapper(new_game())
    }
}

impl GameWrapper {
    /// The side to move.
    pub fn current_player(&self) -> (r: Color)
        ensures
            r == side_of(self.0),
    {
        side_to_move(&self.0)
    }

    /// The legal moves in the current position.
    pub fn available_moves(&self) -> (r: Vec<chess::ChessMove>)
        ensures
            r@ == legal_of(board_of(self.0)),
    {
        legal_moves_on(&current_position(&self.0))
    }

    /// Plays `mov`; the rules engine ignores a move that is not legal.
    pub fn make_move(&mut self, mov: &chess::ChessMove)
        ensures
            final(self).0 == game_after(old(self).0, *mov),
    {
        let _ = play(&mut self.0, mov);
    }

    /// How the game ended, if it did.
    pub fn result(&self) -> (r: Option<GameEnd>)
        ensures
            r == game_end_of(self.0),
    {
        game_result(&self.0)
    }

    /// The side that checkmated, or whose opponent resigned.
    pub fn get_winner(&self) -> (r: Option<Color>)
        ensures
            r == game_winner(game_end_of(self.0)),
    {
        let res = game_result(&self.0);
        winner_of(res)
    }

    /// Whether the game is over: checkmate, resignation, stalemate, or an
    /// accepted or claimed draw.
    pub fn is_terminal(&self) -> (r: bool)
        ensures
            r == ends_game(game_end_of(self.0)),
    {
        let res = game_result(&self.0);
        is_game_over(res)
    }

    /// The pieces on the current board.
    pub fn position(&self) -> (r: Position)
        ensures
            r.wf(),
            r.squares@ == squares_of(board_of(self.0)),
    {
        let board = current_position(&self.0);
        let mut squares: Vec<Option<Occupant>> = Vec::new();
        let mut i: usize = 0;
        while i < 64
            invariant
                i <= 64,
                board == board_of(self.0),
                squares@.len() == i,
                forall|j: int| 0 <= j < i ==> #[trigger] squares@[j] == occupant_at(board, j),
            decreases 64 - i,
        {
            let occupant = match (piece_on(&board, i), color_on(&board, i)) {
                (Some(piece), Some(color)) => Some(Occupant { piece, color }),
                _ => None,
            };
            squares.push(occupant);
            i = i + 1;
        }
        assert(squares@ =~= squares_of(board));
        Position { squares }
    }

    /// The moves played so far, each with its squares and promotion, and
    /// nothing for each action that is not a move.
    pub fn history(&self) -> (r: Vec<Option<MoveKey>>)
        ensures
            r@ == history_of(self.0),
    {
        let moves = game_moves(&self.0);
        let mut keys: Vec<Option<MoveKey>> = Vec::new();
        let mut i: usize = 0;
        while i < moves.len()
            invariant
                i <= moves@.len(),
                moves@ == actions_of(self.0),
                keys@.len() == i,
                forall|j: int| 0 <= j < i ==> #[trigger] keys@[j] == history_of(self.0)[j],
            decreases moves@.len() - i,
        {
            let key = match &moves[i] {
                Some(m) => Some(move_key(m)),
                None => None,
            };
            keys.push(key);
            i = i + 1;
        }
        assert(keys@ =~= history_of(self.0));
        keys
    }

    /// The input of the transposition hash: every move played (source,
    /// destination, promotion), the number of moves, then the hash of the
    /// current board.
    pub fn hash_input(&self) -> (r: Vec<u64>)
        ensures
            r@ == hash_input(history_of(self.0), hash_of(board_of(self.0))),
    {
        let actions = self.history();
        let h = board_hash(&current_position(&self.0));
        hash_words(&actions, h)
    }
}

impl ChessEvaluator {
    /// Evaluates a state that the search has just created: one placeholder
    /// per untried move, and the evaluation of the state from how the game
    /// stands and the pieces on the board.
    pub fn evaluate_new_state(&self, state: &GameWrapper, moves: &Vec<chess::ChessMove>) -> (r: (
        Vec<()>,
        ChessEvaluation,
    ))
        ensures
            r.0@.len() == moves@.len(),
            r.1.bounded(),
            r.1 == outcome_evaluation(self.0, game_end_of(state.0), squares_of(board_of(state.0))),
    {
        let mut evals: Vec<()> = Vec::new();
        let mut i: usize = 0;
        while i < moves.len()
            invariant
                i <= moves@.len(),
                evals@.len() == i,
            decreases moves@.len() - i,
        {
            evals.push(());
            i = i + 1;
        }
        let res = state.result();
        let board = state.position();
        let evaluation = self.evaluate_outcome(res, &board);
        (evals, evaluation)
    }
}

} // verus!
