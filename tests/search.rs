use chess_search::alpha_beta::alpha_beta;
use chess_search::game::{GameEvaluator, GameNode};
use chess_search::mini_max::{child_evaluation, first_best, mini_max};
use rayon::iter::{IntoParallelRefIterator, ParallelIterator};
use chess_search::tic_tac_toe::{
    MyEvaluator, Player, StateEval, TicTacToeAction, TicTacToeGame, TicTacToeState,
};

fn play_all(moves: &[(usize, usize)]) -> TicTacToeState {
    let mut state = TicTacToeState::new();
    for &(x, y) in moves {
        state = state.make_move(&TicTacToeAction(x, y));
    }
    state
}

#[test]
fn full_game_is_a_draw() {
    let mut board = TicTacToeState::new();
    let mut plies = 0;
    while board.is_terminal().is_none() {
        let result =
            mini_max::<TicTacToeGame>(&MyEvaluator(board.current_player()), board.clone(), 10)
                .unwrap();
        board = board.make_move(&result.found_move);
        plies += 1;
    }
    assert_eq!(plies, 9);
    assert_eq!(board.is_terminal(), Some(StateEval::Draw));
}

#[test]
fn depth_zero_gives_nothing() {
    let board = TicTacToeState::new();
    assert!(mini_max::<TicTacToeGame>(&MyEvaluator(Player::Player1), board, 0).is_none());
    assert!(alpha_beta::<TicTacToeGame>(&MyEvaluator(Player::Player1), board, 0).is_none());
}

#[test]
fn finished_game_gives_nothing() {
    // first player holds the top row
    let board = play_all(&[(0, 0), (0, 1), (1, 0), (1, 1), (2, 0)]);
    assert_eq!(board.is_terminal(), Some(StateEval::Winner(Player::Player1)));
    assert!(board.legal_moves().is_empty());
    for depth in [1, 3, 10] {
        assert!(mini_max::<TicTacToeGame>(&MyEvaluator(Player::Player2), board, depth).is_none());
        assert!(alpha_beta::<TicTacToeGame>(&MyEvaluator(Player::Player2), board, depth).is_none());
    }
}

#[test]
fn takes_the_winning_move() {
    // first player: (0,0), (1,0); second: (0,1), (1,1); first to move wins at (2,0)
    let board = play_all(&[(0, 0), (0, 1), (1, 0), (1, 1)]);
    let result = mini_max::<TicTacToeGame>(&MyEvaluator(Player::Player1), board, 10).unwrap();
    assert_eq!(result.found_move, TicTacToeAction(2, 0));
    assert_eq!(result.evaluation, (StateEval::Winner(Player::Player1), 1));
    let ev = MyEvaluator(Player::Player1);
    assert_eq!(ev.interpret_for_player(&result.evaluation, Player::Player1), 9);
    assert_eq!(ev.interpret_for_player(&result.evaluation, Player::Player2), -9);
}

#[test]
fn blocks_the_opponent() {
    // second player to move must block (2,0)
    let board = play_all(&[(0, 0), (1, 1), (1, 0)]);
    let result = mini_max::<TicTacToeGame>(&MyEvaluator(Player::Player2), board, 10).unwrap();
    assert_eq!(result.found_move, TicTacToeAction(2, 0));
}

#[test]
fn ties_go_to_the_first_move() {
    // at depth one from the empty board every move scores nothing: the first wins
    let board = TicTacToeState::new();
    let result = mini_max::<TicTacToeGame>(&MyEvaluator(Player::Player1), board, 1).unwrap();
    assert_eq!(result.found_move, TicTacToeAction(0, 0));
    assert_eq!(result.evaluation, (StateEval::Undecided, 1));
}

#[test]
fn engines_choose_the_same_move() {
    let openings: [&[(usize, usize)]; 6] = [
        &[],
        &[(1, 1)],
        &[(0, 0), (1, 1)],
        &[(0, 0), (1, 1), (1, 0)],
        &[(2, 2), (0, 0), (0, 2)],
        &[(0, 1), (1, 1), (2, 1), (0, 0)],
    ];
    for moves in openings {
        let board = play_all(moves);
        for depth in [1, 2, 3, 5, 10] {
            let ev = MyEvaluator(board.current_player());
            let a = mini_max::<TicTacToeGame>(&ev, board, depth).unwrap();
            let b = alpha_beta::<TicTacToeGame>(&ev, board, depth).unwrap();
            assert_eq!(a.found_move, b.found_move);
            assert_eq!(a.evaluation, b.evaluation);
        }
    }
}

#[test]
fn repeated_searches_agree() {
    let board = play_all(&[(2, 2), (0, 0)]);
    let ev = MyEvaluator(Player::Player1);
    let first = mini_max::<TicTacToeGame>(&ev, board, 10).unwrap();
    for _ in 0..3 {
        let again = mini_max::<TicTacToeGame>(&ev, board, 10).unwrap();
        assert_eq!(again.found_move, first.found_move);
        assert_eq!(again.evaluation, first.evaluation);
    }
}

#[test]
fn off_board_move_passes_the_turn() {
    let board = TicTacToeState::new();
    let after = board.make_move(&TicTacToeAction(3, 0));
    assert_eq!(after.current_player, Player::Player2);
    assert_eq!(after.crosses, 0);
    assert_eq!(after.noughts, 0);
    assert_eq!(board.legal_moves().len(), 9);
    assert_eq!(Player::Player1.neg(), Player::Player2);
}

fn parallel_choice(board: TicTacToeState, depth: usize, workers: usize) -> TicTacToeAction {
    let ev = MyEvaluator(board.current_player());
    let moves = board.legal_moves();
    let pool = rayon::ThreadPoolBuilder::new().num_threads(workers).build().unwrap();
    let evaluations: Vec<(StateEval, usize)> = pool.install(|| {
        moves
            .par_iter()
            .map(|m| child_evaluation::<TicTacToeGame>(&ev, &board, m, depth))
            .collect()
    });
    let scores: Vec<i64> = evaluations
        .iter()
        .map(|e| ev.interpret_for_player(e, board.current_player()))
        .collect();
    moves[first_best(&scores)]
}

#[test]
fn worker_count_does_not_change_the_move() {
    for opening in [&[][..], &[(1, 1)][..], &[(0, 0), (1, 1), (2, 2)][..]] {
        let board = play_all(opening);
        let ev = MyEvaluator(board.current_player());
        let sequential = mini_max::<TicTacToeGame>(&ev, board, 10).unwrap().found_move;
        assert_eq!(parallel_choice(board, 10, 1), sequential);
        assert_eq!(parallel_choice(board, 10, 4), sequential);
    }
}

#[test]
fn first_best_takes_the_earliest_maximum() {
    assert_eq!(first_best(&vec![3, 7, 7, -1]), 1);
    assert_eq!(first_best(&vec![5]), 0);
    assert_eq!(first_best(&vec![-4, -2, -9, -2]), 1);
}
