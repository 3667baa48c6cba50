use vstd::prelude::*;

verus! {

/// A game state as seen by the search: it lists its legal moves, names the
/// player to move, reports whether the game is over and produces the state
/// after a move. States are values: a move yields a new state.
pub trait GameNode: Sized {
    type Move;
    type TerminalResult;
    type Player;

    /// The player to move.
    spec fn player_of(&self) -> Self::Player;

    /// The legal moves, in the order in which the search tries them.
    spec fn moves_of(&self) -> Seq<Self::Move>;

    /// Whether the game is over in this state.
    spec fn terminal(&self) -> bool;

    /// The state after playing `m`.
    spec fn child(&self, m: Self::Move) -> Self;

    fn current_player(&self) -> (r: Self::Player)
        ensures
            r == self.player_of(),
    ;

    /// A state that is not terminal has at least one legal move.
    fn legal_moves(&self) -> (r: Vec<Self::Move>)
        ensures
            r@ == self.moves_of(),
            !self.terminal() ==> r@.len() > 0,
    ;

    fn is_terminal(&self) -> (r: Option<Self::TerminalResult>)
        ensures
            r.is_some() == self.terminal(),
    ;

    fn make_move(&self, m: &Self::Move) -> (r: Self)
        ensures
            r == self.child(*m),
    ;
}

/// Scores states and reads a score from the point of view of one player.
pub trait GameEvaluator<N: GameNode> {
    type Evaluation;

    /// The score of `node`, found `depth` plies below the root.
    spec fn evaluation_of(&self, node: N, depth: nat) -> Self::Evaluation;

    /// What `evaluation` is worth to `player`.
    spec fn utility(&self, evaluation: Self::Evaluation, player: N::Player) -> int;

    fn evaluate(&self, node: &N, depth: usize) -> (r: Self::Evaluation)
        ensures
            r == self.evaluation_of(*node, depth as nat),
    ;

    fn interpret_for_player(&self, evaluation: &Self::Evaluation, player: N::Player) -> (r: i64)
        ensures
            r as int == self.utility(*evaluation, player),
    ;
}

/// Binds a kind of state to the evaluator that scores it.
pub trait SearchGame {
    type Node: GameNode;
    type Evaluator: GameEvaluator<Self::Node>;
}

/// The raw evaluation that the search assigns to `node` at ply `d` of a
/// search `max` plies deep: the evaluator's own score at the depth bound or
/// at the end of the game, else the raw evaluation of the child that is best
/// for the player to move (the first such child on ties).
pub open spec fn node_value<N: GameNode, E: GameEvaluator<N>>(
    ev: E,
    node: N,
    d: nat,
    max: nat,
) -> E::Evaluation
    decreases max - d, node.moves_of().len() + 1, 0nat,
{
    if d >= max || node.terminal() {
        ev.evaluation_of(node, d)
    } else {
        child_value(ev, node, d, max, best_index(ev, node, d, max, node.moves_of().len()))
    }
}

/// The value that the search assigns to the `i`-th child of `node`.
pub open spec fn child_value<N: GameNode, E: GameEvaluator<N>>(
    ev: E,
    node: N,
    d: nat,
    max: nat,
    i: nat,
) -> E::Evaluation
    decreases max - d, 0nat, 0nat,
{
    if d < max {
        node_value(ev, node.child(node.moves_of()[i as int]), d + 1, max)
    } else {
        ev.evaluation_of(node, d)
    }
}

/// The index of the child, among the first `k`, whose value is largest for
/// the player to move at `node`; the earliest one on ties.
pub open spec fn best_index<N: GameNode, E: GameEvaluator<N>>(
    ev: E,
    node: N,
    d: nat,
    max: nat,
    k: nat,
) -> nat
    decreases max - d, k, 1nat,
{
    if k <= 1 {
        0
    } else {
        let j = best_index(ev, node, d, max, (k - 1) as nat);
        if ev.utility(child_value(ev, node, d, max, (k - 1) as nat), node.player_of())
            > ev.utility(child_value(ev, node, d, max, j), node.player_of()) {
            (k - 1) as nat
        } else {
            j
        }
    }
}

} // verus!
