use std::str::FromStr;

use chess::{ChessMove, Game, MoveGen, Square};
use chess_search::board::{Color, GameTime, Occupant, Piece, Position};
use chess_search::evaluator::{
    board_value, material_value, ChessEvaluation, ChessEvaluator, ChessMCTS, SCALE, WIN_SCORE,
};
use chess_search::state::{hash_words, is_game_over, winner_of, GameEnd, GameWrapper, MoveKey};

const EXTRA_ROOKS: &str = "rnb1k1nr/p4ppp/p1p5/8/8/2P2P1P/P5P1/1Rb1K1NR b kq - 1 14";
const WHITE_MATED: &str = "rnb1kbnr/pppp1ppp/8/4p3/6Pq/5P2/PPPPP2P/RNBQKBNR w KQkq - 1 3";
const STALEMATE: &str = "7k/5Q2/6K1/8/8/8/8/8 b - - 0 1";

fn new_state(fen: &str) -> (GameWrapper, Vec<ChessMove>) {
    let game = Game::from_str(fen).unwrap();
    let moves = MoveGen::new_legal(&game.current_position()).collect::<Vec<_>>();
    (GameWrapper(game), moves)
}

#[test]
fn test_eval_b() {
    let (state, moves) = new_state(EXTRA_ROOKS);
    let evaluator = ChessEvaluator(Color::Black);
    let eval = evaluator.evaluate_new_state(&state, &moves).1;
    assert_eq!(ChessEvaluation::Evaluation(10), eval);

    assert_eq!(-10, evaluator.interpret_evaluation_for_player(&eval, &Color::White));
    assert_eq!(10, evaluator.interpret_evaluation_for_player(&eval, &Color::Black));
}

#[test]
fn test_eval_w() {
    let (state, moves) = new_state(EXTRA_ROOKS);
    let evaluator = ChessEvaluator(Color::White);
    let eval = evaluator.evaluate_new_state(&state, &moves).1;

    assert_eq!(ChessEvaluation::Evaluation(-10), eval);
    assert_eq!(-10, evaluator.interpret_evaluation_for_player(&eval, &Color::White));
    assert_eq!(10, evaluator.interpret_evaluation_for_player(&eval, &Color::Black));
}

#[test]
fn one_placeholder_per_move() {
    let (state, moves) = new_state(EXTRA_ROOKS);
    let (evals, _) = ChessEvaluator(Color::White).evaluate_new_state(&state, &moves);
    assert_eq!(evals.len(), moves.len());
    assert!(!moves.is_empty());
}

#[test]
fn checkmated_white_king() {
    let (state, moves) = new_state(WHITE_MATED);
    assert!(moves.is_empty());
    assert!(state.is_terminal());
    assert_eq!(state.get_winner(), Some(Color::Black));
    let evaluator = ChessEvaluator(Color::White);
    let eval = evaluator.evaluate_new_state(&state, &moves).1;
    assert_eq!(eval, ChessEvaluation::Winner(Color::Black));
    assert_eq!(evaluator.interpret_evaluation_for_player(&eval, &Color::White), -WIN_SCORE);
    assert_eq!(evaluator.interpret_evaluation_for_player(&eval, &Color::Black), WIN_SCORE);
    assert_eq!(WIN_SCORE, 100_000);
}

#[test]
fn stalemate_is_a_draw() {
    let (state, moves) = new_state(STALEMATE);
    assert!(moves.is_empty());
    assert!(state.is_terminal());
    assert_eq!(state.get_winner(), None);
    let evaluator = ChessEvaluator(Color::Black);
    let eval = evaluator.evaluate_new_state(&state, &moves).1;
    assert_eq!(eval, ChessEvaluation::Draw);
    assert_eq!(evaluator.interpret_evaluation_for_player(&eval, &Color::White), 0);
    assert_eq!(evaluator.interpret_evaluation_for_player(&eval, &Color::Black), 0);
}

#[test]
fn game_going_on_is_not_terminal() {
    let (state, _) = new_state(EXTRA_ROOKS);
    assert!(!state.is_terminal());
    assert_eq!(state.get_winner(), None);
    assert_eq!(state.current_player(), Color::Black);
    assert_eq!(state.result(), None);
}

#[test]
fn game_end_mapping() {
    assert_eq!(winner_of(Some(GameEnd::WhiteCheckmates)), Some(Color::White));
    assert_eq!(winner_of(Some(GameEnd::WhiteResigns)), Some(Color::Black));
    assert_eq!(winner_of(Some(GameEnd::BlackCheckmates)), Some(Color::Black));
    assert_eq!(winner_of(Some(GameEnd::BlackResigns)), Some(Color::White));
    assert_eq!(winner_of(Some(GameEnd::Stalemate)), None);
    assert_eq!(winner_of(Some(GameEnd::DrawAccepted)), None);
    assert_eq!(winner_of(None), None);
    assert!(is_game_over(Some(GameEnd::Stalemate)));
    assert!(is_game_over(Some(GameEnd::DrawAccepted)));
    assert!(is_game_over(Some(GameEnd::WhiteResigns)));
    assert!(is_game_over(Some(GameEnd::DrawDeclared)));
    assert_eq!(winner_of(Some(GameEnd::DrawDeclared)), None);
    assert!(!is_game_over(None));
}

#[test]
fn readings_for_the_two_sides_cancel() {
    let evaluator = ChessEvaluator(Color::White);
    for eval in [
        ChessEvaluation::Evaluation(37),
        ChessEvaluation::Evaluation(-5),
        ChessEvaluation::Draw,
        ChessEvaluation::Winner(Color::White),
        ChessEvaluation::Winner(Color::Black),
    ] {
        let w = evaluator.interpret_evaluation_for_player(&eval, &Color::White);
        let b = evaluator.interpret_evaluation_for_player(&eval, &Color::Black);
        assert_eq!(w, -b);
    }
    assert_eq!(evaluator.interpret_evaluation_for_player(&ChessEvaluation::Evaluation(37), &Color::White), 37);
}

#[test]
fn win_outranks_any_material() {
    let (state, _) = new_state(EXTRA_ROOKS);
    let evaluator = ChessEvaluator(Color::Black);
    let board = state.position();
    let material = ChessEvaluation::Evaluation(material_value(Color::Black, &board));
    let win = ChessEvaluation::Winner(Color::Black);
    assert!(
        evaluator.interpret_evaluation_for_player(&win, &Color::Black)
            > evaluator.interpret_evaluation_for_player(&material, &Color::Black)
    );
}

#[test]
fn search_reading_is_scaled() {
    let evaluator = ChessEvaluator(Color::Black);
    let mcts = ChessMCTS;
    let eval = ChessEvaluation::Evaluation(10);
    assert_eq!(mcts.interpret_scaled(&evaluator, &eval, &Color::White), -10 * SCALE);
    assert_eq!(mcts.interpret_scaled(&evaluator, &eval, &Color::Black), 100_000_000);
    assert_eq!(mcts.virtual_loss(), 10_000_000);
    let win = ChessEvaluation::Winner(Color::White);
    assert_eq!(mcts.interpret_scaled(&evaluator, &win, &Color::White), 1_000_000_000_000);
}

fn kings_and_pawn() -> Position {
    let mut board = Position::empty();
    // white king e1, black king h8, white pawn e4
    board.set(4, Some(Occupant { piece: Piece::King, color: Color::White }));
    board.set(63, Some(Occupant { piece: Piece::King, color: Color::Black }));
    board.set(28, Some(Occupant { piece: Piece::Pawn, color: Color::White }));
    board
}

#[test]
fn board_value_middle_game() {
    let board = kings_and_pawn();
    // pawn 100 + 20 on e4; kings 200000 + 0 (e1) and 200000 + 20 (h8)
    assert_eq!(board_value(Color::White, &board, GameTime::Middle), 100);
    assert_eq!(board_value(Color::Black, &board, GameTime::Middle), -100);
    assert_eq!(board_value(Color::White, &board, GameTime::Start), 100);
}

#[test]
fn board_value_end_game() {
    let board = kings_and_pawn();
    // kings 200000 - 30 (e1) and 200000 - 50 (h8)
    assert_eq!(board_value(Color::White, &board, GameTime::End), 140);
    assert_eq!(board_value(Color::Black, &board, GameTime::End), -140);
}

#[test]
fn board_value_mirrors_black_tables() {
    let mut board = Position::empty();
    // black pawn on e5 reads the white table row of e4: 100 + 20
    board.set(36, Some(Occupant { piece: Piece::Pawn, color: Color::Black }));
    assert_eq!(board_value(Color::Black, &board, GameTime::Middle), 120);
    // black knight on a8 (corner) is worth 320 - 50
    board.set(56, Some(Occupant { piece: Piece::Knight, color: Color::Black }));
    assert_eq!(board_value(Color::Black, &board, GameTime::Middle), 390);
}

#[test]
fn starting_position_is_balanced() {
    let (state, _) = new_state("rnbqkbnr/pppppppp/8/8/8/8/PPPPPPPP/RNBQKBNR w KQkq - 0 1");
    let board = state.position();
    assert_eq!(board_value(Color::White, &board, GameTime::Middle), 0);
    assert_eq!(material_value(Color::White, &board), 0);
    assert_eq!(board.squares[4], Some(Occupant { piece: Piece::King, color: Color::White }));
    assert_eq!(board.squares[59], Some(Occupant { piece: Piece::Queen, color: Color::Black }));
}

#[test]
fn material_of_extra_rooks() {
    let (state, _) = new_state(EXTRA_ROOKS);
    let board = state.position();
    assert_eq!(material_value(Color::Black, &board), 10);
    assert_eq!(material_value(Color::White, &board), -10);
}

#[test]
fn hash_words_layout() {
    let actions = vec![
        Some(MoveKey { source: 12, dest: 28, promotion: None }),
        None,
        Some(MoveKey { source: 52, dest: 60, promotion: Some(4) }),
    ];
    assert_eq!(hash_words(&actions, 77), vec![12, 28, 100, 52, 60, 4, 2, 77]);
    assert_eq!(hash_words(&vec![], 5), vec![0, 5]);
}

fn play(state: &mut GameWrapper, from: Square, to: Square) {
    state.make_move(&ChessMove::new(from, to, None));
}

#[test]
fn hash_tells_transposed_histories_apart() {
    let mut a = GameWrapper(Game::new());
    play(&mut a, Square::G1, Square::F3);
    play(&mut a, Square::G8, Square::F6);
    play(&mut a, Square::B1, Square::C3);
    play(&mut a, Square::B8, Square::C6);
    let mut b = GameWrapper(Game::new());
    play(&mut b, Square::B1, Square::C3);
    play(&mut b, Square::B8, Square::C6);
    play(&mut b, Square::G1, Square::F3);
    play(&mut b, Square::G8, Square::F6);
    let ha = a.hash_input();
    let hb = b.hash_input();
    assert_eq!(ha.len(), 4 * 3 + 2);
    assert_eq!(&ha[0..3], &[6, 21, 100]);
    assert_eq!(ha[12], 4);
    assert_ne!(ha, hb);
    assert_eq!(ha[13], hb[13]);
    assert_eq!(a.position(), b.position());
}

#[test]
fn moves_follow_the_rules_engine() {
    let mut state = GameWrapper(Game::new());
    assert_eq!(state.available_moves().len(), 20);
    assert_eq!(state.current_player(), Color::White);
    play(&mut state, Square::E2, Square::E4);
    assert_eq!(state.current_player(), Color::Black);
    assert_eq!(state.history(), vec![Some(MoveKey { source: 12, dest: 28, promotion: None })]);
    assert_eq!(
        state.position().squares[28],
        Some(Occupant { piece: Piece::Pawn, color: Color::White })
    );
}

#[test]
fn default_game_starts_from_the_initial_position() {
    let state = GameWrapper::default();
    assert_eq!(state.current_player(), Color::White);
    assert_eq!(state.available_moves().len(), 20);
    assert!(!state.is_terminal());
    assert_eq!(state.hash_input().len(), 2);
    assert_eq!(state.hash_input()[0], 0);
}

#[test]
fn claimed_draw_ends_the_game() {
    let mut state = GameWrapper(Game::new());
    for _ in 0..2 {
        play(&mut state, Square::G1, Square::F3);
        play(&mut state, Square::G8, Square::F6);
        play(&mut state, Square::F3, Square::G1);
        play(&mut state, Square::F6, Square::G8);
    }
    assert!(!state.is_terminal());
    assert!(state.0.declare_draw());
    assert_eq!(state.result(), Some(GameEnd::DrawDeclared));
    assert!(state.is_terminal());
    assert_eq!(state.get_winner(), None);
    let evaluator = ChessEvaluator(Color::White);
    let moves = state.available_moves();
    let eval = evaluator.evaluate_new_state(&state, &moves).1;
    assert_eq!(eval, ChessEvaluation::Draw);
    assert_eq!(evaluator.interpret_evaluation_for_player(&eval, &Color::Black), 0);
}
