use vstd::prelude::*;

use crate::alpha_beta::{alternating, zero_sum};
use crate::game::{GameEvaluator, GameNode, SearchGame};

verus! {

/// One of the two players; each is the other's negation.
#[derive(Clone, Copy, Debug, PartialEq, Eq, Structural, Hash)]
pub enum Player {
    Player1,
    Player2,
}

impl Player {
    pub open spec fn negated(self) -> Player {
        match self {
            Player::Player1 => Player::Player2,
            Player::Player2 => Player::Player1,
        }
    }

    pub fn neg(self) -> (r: Player)
        ensures
            r == self.negated(),
            r != self,
            r.negated() == self,
    {
        match self {
            Player::Player1 => Player::Player2,
            Player::Player2 => Player::Player1,
        }
    }
}

/// A mark on column `.0` and row `.1`, both from 0 to 2.
#[derive(Clone, Copy, Debug, PartialEq, Eq, Structural, Hash)]
pub struct TicTacToeAction(pub usize, pub usize);

/// A tic-tac-toe board and the player to move. Cell `y * 3 + x` holds the
/// mark of the first player when bit `y * 3 + x` of `crosses` is set, and
/// that of the second when the bit is set in `noughts`.
#[derive(Clone, Copy, Debug, PartialEq, Eq, Structural, Hash)]
pub struct TicTacToeState {
    pub current_player: Player,
    pub crosses: u16,
    pub noughts: u16,
}

/// How a game ended, or that it has not.
#[derive(Clone, Copy, Debug, PartialEq, Eq, Structural)]
pub enum StateEval {
    Winner(Player),
    Draw,
    Undecided,
}

/// The eight lines of three cells, as bit masks: rows, columns, diagonals.
pub open spec fn completes_line(marks: u16) -> bool {
    (marks & 7u16) == 7u16 || (marks & 56u16) == 56u16 || (marks & 448u16) == 448u16 || (marks
        & 73u16) == 73u16 || (marks & 146u16) == 146u16 || (marks & 292u16) == 292u16 || (marks
        & 273u16) == 273u16 || (marks & 84u16) == 84u16
}

pub open spec fn cell_free(s: TicTacToeState, i: nat) -> bool {
    (s.crosses | s.noughts) & (1u16 << (i as u16)) == 0u16
}

/// The outcome of `s`: a player with a full line wins, a full board is a
/// draw, and otherwise the game goes on.
pub open spec fn outcome(s: TicTacToeState) -> StateEval {
    if completes_line(s.crosses) {
        StateEval::Winner(Player::Player1)
    } else if completes_line(s.noughts) {
        StateEval::Winner(Player::Player2)
    } else if (s.crosses | s.noughts) & 511u16 == 511u16 {
        StateEval::Draw
    } else {
        StateEval::Undecided
    }
}

/// The free cells among the first `n`, in order, as moves.
pub open spec fn free_moves(s: TicTacToeState, n: nat) -> Seq<TicTacToeAction>
    decreases n,
{
    if n == 0 {
        Seq::empty()
    } else {
        free_moves(s, (n - 1) as nat) + if cell_free(s, (n - 1) as nat) {
            seq![TicTacToeAction(((n - 1) % 3) as usize, ((n - 1) / 3) as usize)]
        } else {
            Seq::empty()
        }
    }
}

/// The state after the player to move marks the cell of `m`; a move off the
/// board only passes the turn.
pub open spec fn after_move(s: TicTacToeState, m: TicTacToeAction) -> TicTacToeState {
    if m.0 < 3 && m.1 < 3 {
        let bit = 1u16 << ((m.1 * 3 + m.0) as u16);
        match s.current_player {
            Player::Player1 => TicTacToeState {
                current_player: Player::Player2,
                crosses: s.crosses | bit,
                noughts: s.noughts,
            },
            Player::Player2 => TicTacToeState {
                current_player: Player::Player1,
                crosses: s.crosses,
                noughts: s.noughts | bit,
            },
        }
    } else {
        TicTacToeState { current_player: s.current_player.negated(), ..s }
    }
}

fn completes(marks: u16) -> (r: bool)
    ensures
        r == completes_line(marks),
{
    (marks & 7u16) == 7u16 || (marks & 56u16) == 56u16 || (marks & 448u16) == 448u16 || (marks
        & 73u16) == 73u16 || (marks & 146u16) == 146u16 || (marks & 292u16) == 292u16 || (marks
        & 273u16) == 273u16 || (marks & 84u16) == 84u16
}

impl TicTacToeState {
    /// The empty board with the first player to move.
    pub fn new() -> (r: TicTacToeState)
        ensures
            r.current_player == Player::Player1,
            r.crosses == 0,
            r.noughts == 0,
    {
        TicTacToeState { current_player: Player::Player1, crosses: 0, noughts: 0 }
    }

    /// How the game stands.
    pub fn outcome(&self) -> (r: StateEval)
        ensures
            r == outcome(*self),
    {
        if completes(self.crosses) {
            StateEval::Winner(Player::Player1)
        } else if completes(self.noughts) {
            StateEval::Winner(Player::Player2)
        } else if (self.crosses | self.noughts) & 511u16 == 511u16 {
            StateEval::Draw
        } else {
            StateEval::Undecided
        }
    }
}

impl GameNode for TicTacToeState {
    type Move = TicTacToeAction;
    type TerminalResult = StateEval;
    type Player = Player;

    open spec fn player_of(&self) -> Player {
        self.current_player
    }

    open spec fn moves_of(&self) -> Seq<TicTacToeAction> {
        if outcome(*self) == StateEval::Undecided {
            free_moves(*self, 9)
        } else {
            Seq::empty()
        }
    }

    open spec fn terminal(&self) -> bool {
        outcome(*self) != StateEval::Undecided
    }

    open spec fn child(&self, m: TicTacToeAction) -> TicTacToeState {
        after_move(*self, m)
    }

    fn current_player(&self) -> (r: Player) {
        self.current_player
    }

    fn legal_moves(&self) -> (r: Vec<TicTacToeAction>) {
        let mut moves: Vec<TicTacToeAction> = Vec::new();
        if self.outcome() != StateEval::Undecided {
            return moves;
        }
        let taken = self.crosses | self.noughts;
        let mut i: usize = 0;
        while i < 9
            invariant
                i <= 9,
                taken == self.crosses | self.noughts,
                moves@ == free_moves(*self, i as nat),
            decreases 9 - i,
        {
            if taken & (1u16 << (i as u16)) == 0u16 {
                moves.push(TicTacToeAction(i % 3, i / 3));
            }
            i = i + 1;
        }
        proof {
            lemma_free_cell_exists(*self);
        }
        moves
    }

    fn is_terminal(&self) -> (r: Option<StateEval>) {
        match self.outcome() {
            StateEval::Undecided => None,
            result => Some(result),
        }
    }

    fn make_move(&self, m: &TicTacToeAction) -> (r: TicTacToeState) {
        if m.0 < 3 && m.1 < 3 {
            let bit = 1u16 << ((m.1 * 3 + m.0) as u16);
            match self.current_player {
                Player::Player1 => TicTacToeState {
                    current_player: Player::Player2,
                    crosses: self.crosses | bit,
                    noughts: self.noughts,
                },
                Player::Player2 => TicTacToeState {
                    current_player: Player::Player1,
                    crosses: self.crosses,
                    noughts: self.noughts | bit,
                },
            }
        } else {
            TicTacToeState { current_player: self.current_player.neg(), ..*self }
        }
    }
}

/// A board that is not full has a free cell, so a game that goes on has a
/// move.
proof fn lemma_free_cell_exists(s: TicTacToeState)
    requires
        (s.crosses | s.noughts) & 511u16 != 511u16,
    ensures
        free_moves(s, 9).len() > 0,
{
    let t = s.crosses | s.noughts;
    assert(t & 511u16 != 511u16 ==> (t & 1u16 == 0u16 || t & 2u16 == 0u16 || t & 4u16 == 0u16
        || t & 8u16 == 0u16 || t & 16u16 == 0u16 || t & 32u16 == 0u16 || t & 64u16 == 0u16 || t
        & 128u16 == 0u16 || t & 256u16 == 0u16)) by (bit_vector);
    assert(1u16 << 0u16 == 1u16 && 1u16 << 1u16 == 2u16 && 1u16 << 2u16 == 4u16 && 1u16 << 3u16
        == 8u16 && 1u16 << 4u16 == 16u16 && 1u16 << 5u16 == 32u16 && 1u16 << 6u16 == 64u16 && 1u16
        << 7u16 == 128u16 && 1u16 << 8u16 == 256u16) by (bit_vector);
    if cell_free(s, 0nat) {
        lemma_free_moves_grow(s, 9, 0);
    } else if cell_free(s, 1nat) {
        lemma_free_moves_grow(s, 9, 1);
    } else if cell_free(s, 2nat) {
        lemma_free_moves_grow(s, 9, 2);
    } else if cell_free(s, 3nat) {
        lemma_free_moves_grow(s, 9, 3);
    } else if cell_free(s, 4nat) {
        lemma_free_moves_grow(s, 9, 4);
    } else if cell_free(s, 5nat) {
        lemma_free_moves_grow(s, 9, 5);
    } else if cell_free(s, 6nat) {
        lemma_free_moves_grow(s, 9, 6);
    } else if cell_free(s, 7nat) {
        lemma_free_moves_grow(s, 9, 7);
    } else if cell_free(s, 8nat) {
        lemma_free_moves_grow(s, 9, 8);
    }
}

proof fn lemma_free_moves_grow(s: TicTacToeState, n: nat, i: nat)
    requires
        i < n,
        cell_free(s, i),
    ensures
        free_moves(s, n).len() > 0,
    decreases n,
{
    if i < n - 1 {
        lemma_free_moves_grow(s, (n - 1) as nat, i);
    }
}

/// Scores tic-tac-toe states for the search; the player it was made for
/// plays no part in the score.
pub struct MyEvaluator(pub Player);

/// What an evaluation `(outcome, depth)` is worth to `player`: a win found
/// `depth` plies down is worth `10 - depth` to the winner (a quicker win is
/// better) and its negation to the loser; anything else is worth nothing.
/// Depths beyond 10 count as 10.
pub open spec fn ttt_utility(evaluation: (StateEval, usize), player: Player) -> int {
    let d: int = if evaluation.1 > 10 {
        10
    } else {
        evaluation.1 as int
    };
    match evaluation.0 {
        StateEval::Winner(w) => if w == player {
            10 - d
        } else {
            d - 10
        },
        _ => 0,
    }
}

impl GameEvaluator<TicTacToeState> for MyEvaluator {
    type Evaluation = (StateEval, usize);

    open spec fn evaluation_of(&self, node: TicTacToeState, depth: nat) -> (StateEval, usize) {
        (outcome(node), depth as usize)
    }

    open spec fn utility(&self, evaluation: (StateEval, usize), player: Player) -> int {
        ttt_utility(evaluation, player)
    }

    fn evaluate(&self, node: &TicTacToeState, depth: usize) -> (r: (StateEval, usize)) {
        (node.outcome(), depth)
    }

    fn interpret_for_player(&self, evaluation: &(StateEval, usize), player: Player) -> (r: i64) {
        let d: i64 = if evaluation.1 > 10 {
            10
        } else {
            evaluation.1 as i64
        };
        match evaluation.0 {
            StateEval::Winner(w) => if w == player {
                10 - d
            } else {
                d - 10
            },
            _ => 0,
        }
    }
}

/// Tic-tac-toe searched with `MyEvaluator`.
pub struct TicTacToeGame;

impl SearchGame for TicTacToeGame {
    type Node = TicTacToeState;
    type Evaluator = MyEvaluator;
}

/// Tic-tac-toe is a zero-sum game in which the players alternate, so the
/// pruning search may be used on it.
pub proof fn lemma_suits_pruning(p: Player)
    ensures
        zero_sum::<TicTacToeState, MyEvaluator>(MyEvaluator(p)),
        alternating::<TicTacToeState>(),
{
}

} // verus!
