use vstd::prelude::*;

use crate::game::{best_index, child_value, node_value, GameEvaluator, GameNode, SearchGame};
use crate::mini_max::{mini_max_found, search_outcome, search_choice, MiniMaxResult};

verus! {

/// The move that the pruning search search_outcome and the raw evaluation it
/// leads to.
pub struct AlphaBetaResult<S: SearchGame> {
    pub found_move: <S::Node as GameNode>::Move,
    pub evaluation: <S::Evaluator as GameEvaluator<S::Node>>::Evaluation,
}

/// Stands for an unbounded search window: beyond every reading, all of
/// which fit in an `i64`.
pub const UNBOUNDED: i128 = 0x1_0000_0000_0000_0000;

/// Reading any evaluation for one player gives the negation of reading it
/// for another.
pub open spec fn zero_sum<N: GameNode, E: GameEvaluator<N>>(ev: E) -> bool {
    forall|e: E::Evaluation, p: N::Player, q: N::Player|
        p != q ==> #[trigger] ev.utility(e, p) == -#[trigger] ev.utility(e, q)
}

/// Every move hands the turn to the other player.
pub open spec fn alternating<N: GameNode>() -> bool {
    forall|n: N, m: N::Move| (#[trigger] n.child(m)).player_of() != n.player_of()
}

/// What `r` must be for a search of `node` with window `(alpha, beta)`,
/// readings taken for the player to move: exact when the true value lies
/// inside the window, and on the same side of the window otherwise.
pub open spec fn within_window<N: GameNode, E: GameEvaluator<N>>(
    ev: E,
    node: N,
    d: nat,
    max: nat,
    alpha: int,
    beta: int,
    r: E::Evaluation,
) -> bool {
    let v = ev.utility(node_value(ev, node, d, max), node.player_of());
    let s = ev.utility(r, node.player_of());
    &&& (v <= alpha ==> s <= alpha)
    &&& (v >= beta ==> s >= beta)
    &&& (alpha < v < beta ==> r == node_value(ev, node, d, max))
}

/// Searches the tree below `node` to `depth` plies and search_outcome the same
/// move as `mini_max` (the first best move for the player to move), with the
/// raw evaluation of the child it leads to. Nothing is returned at depth
/// zero or when the game is over.
///
/// Subtrees that cannot change the choice are cut off. That is sound for a
/// zero-sum evaluator in a game where the players alternate, which is what
/// this search asks of its inputs.
pub fn alpha_beta<S: SearchGame>(
    searcher: &S::Evaluator,
    node: S::Node,
    depth: usize,
) -> (r: Option<AlphaBetaResult<S>>)
    requires
        zero_sum::<S::Node, S::Evaluator>(*searcher),
        alternating::<S::Node>(),
    ensures
        depth == 0 || node.terminal() ==> r.is_none(),
        search_outcome(*searcher, node, depth as nat, alpha_beta_found(r)),
        match search_choice(*searcher, node, depth as nat) {
            None => r.is_none(),
            Some(i) => r.is_some() && i < node.moves_of().len()
                && r.unwrap().found_move == node.moves_of()[i as int]
                && r.unwrap().evaluation == child_value(*searcher, node, 0, depth as nat, i)
                && r.unwrap().evaluation == node_value(*searcher, node, 0, depth as nat),
        },
{
    if depth == 0 {
        return None;
    }
    if node.is_terminal().is_some() {
        return None;
    }
    let (i, evaluation) = window_children::<S::Node, S::Evaluator>(
        searcher,
        &node,
        0,
        depth,
        -UNBOUNDED,
        UNBOUNDED,
    );
    let mut moves = node.legal_moves();
    let found_move = moves.swap_remove(i);
    Some(AlphaBetaResult { found_move, evaluation })
}

/// The move and evaluation that `r` holds.
pub open spec fn alpha_beta_found<S: SearchGame>(r: Option<AlphaBetaResult<S>>) -> Option<(
    <S::Node as GameNode>::Move,
    <S::Evaluator as GameEvaluator<S::Node>>::Evaluation,
)> {
    match r {
        Some(x) => Some((x.found_move, x.evaluation)),
        None => None,
    }
}

/// The plain search and the pruning one, run on the same evaluator, node
/// and depth, return the same move and the same evaluation.
pub proof fn lemma_engines_agree<S: SearchGame>(
    ev: S::Evaluator,
    node: S::Node,
    depth: nat,
    plain: Option<MiniMaxResult<S>>,
    pruned: Option<AlphaBetaResult<S>>,
)
    requires
        search_outcome(ev, node, depth, mini_max_found(plain)),
        search_outcome(ev, node, depth, alpha_beta_found(pruned)),
    ensures
        mini_max_found(plain) == alpha_beta_found(pruned),
{
}

/// Scores `node` at ply `depth` within the window `(alpha, beta)`.
fn max_min_phase<N: GameNode, E: GameEvaluator<N>>(
    searcher: &E,
    node: N,
    depth: usize,
    max_depth: usize,
    alpha: i128,
    beta: i128,
) -> (r: E::Evaluation)
    requires
        depth <= max_depth,
        -UNBOUNDED <= alpha < beta <= UNBOUNDED,
        zero_sum::<N, E>(*searcher),
        alternating::<N>(),
    ensures
        within_window(*searcher, node, depth as nat, max_depth as nat, alpha as int, beta as int, r),
    decreases max_depth - depth, 1nat,
{
    if depth == max_depth || node.is_terminal().is_some() {
        return searcher.evaluate(&node, depth);
    }
    let (_, evaluation) = window_children::<N, E>(searcher, &node, depth, max_depth, alpha, beta);
    evaluation
}

/// Among the first `k` children, none reads better for the player to move
/// than the one that `best_index` picks.
proof fn lemma_best_is_max<N: GameNode, E: GameEvaluator<N>>(
    ev: E,
    node: N,
    d: nat,
    max: nat,
    k: nat,
    j: nat,
)
    requires
        j < k,
    ensures
        best_index(ev, node, d, max, k) < k,
        ev.utility(child_value(ev, node, d, max, j), node.player_of()) <= ev.utility(
            child_value(ev, node, d, max, best_index(ev, node, d, max, k)),
            node.player_of(),
        ),
    decreases k,
{
    if k > 1 {
        if j < k - 1 {
            lemma_best_is_max(ev, node, d, max, (k - 1) as nat, j);
        } else {
            lemma_best_is_max(ev, node, d, max, (k - 1) as nat, 0);
        }
    }
}

/// Searches the children of a node that is not terminal, below the depth
/// bound, within the window `(alpha, beta)`, and stops as soon as one reads
/// `beta` or better. Returns the index of the best child seen and its raw
/// evaluation; inside the window that child is the first best one.
fn window_children<N: GameNode, E: GameEvaluator<N>>(
    searcher: &E,
    node: &N,
    depth: usize,
    max_depth: usize,
    alpha: i128,
    beta: i128,
) -> (r: (usize, E::Evaluation))
    requires
        depth < max_depth,
        !node.terminal(),
        -UNBOUNDED <= alpha < beta <= UNBOUNDED,
        zero_sum::<N, E>(*searcher),
        alternating::<N>(),
    ensures
        r.0 < node.moves_of().len(),
        within_window(*searcher, *node, depth as nat, max_depth as nat, alpha as int, beta as int, r.1),
        ({
            let v = searcher.utility(
                node_value(*searcher, *node, depth as nat, max_depth as nat),
                node.player_of(),
            );
            &&& (alpha < v < beta ==> r.0 == best_index(
                *searcher,
                *node,
                depth as nat,
                max_depth as nat,
                node.moves_of().len(),
            ))
            &&& (alpha == -UNBOUNDED && beta == UNBOUNDED ==> alpha < v < beta)
        }),
    decreases max_depth - depth, 0nat,
{
    let ghost ev = *searcher;
    let ghost d = depth as nat;
    let ghost max = max_depth as nat;
    let ghost p = node.player_of();
    let moves = node.legal_moves();
    let mut best: usize = 0;
    let mut best_eval = max_min_phase(searcher, node.make_move(&moves[0]), depth + 1, max_depth, -beta, -alpha);
    let mut best_score = searcher.interpret_for_player(&best_eval, node.current_player());
    proof {
        let c = node.child(moves@[0]);
        assert(c.player_of() != p);
        assert(ev.utility(best_eval, p) == -ev.utility(best_eval, c.player_of()));
        assert(ev.utility(node_value(ev, c, d + 1, max), p) == -ev.utility(node_value(ev, c, d + 1, max), c.player_of()));
        assert(child_value(ev, *node, d, max, 0) == node_value(ev, c, d + 1, max));
    }
    let mut i: usize = 1;
    while i < moves.len() && (best_score as i128) < beta
        invariant
            1 <= i <= moves@.len(),
            moves@ == node.moves_of(),
            depth < max_depth,
            -UNBOUNDED <= alpha < beta <= UNBOUNDED,
            ev == *searcher,
            d == depth as nat,
            max == max_depth as nat,
            p == node.player_of(),
            zero_sum::<N, E>(ev),
            alternating::<N>(),
            best < i,
            best_score as int == ev.utility(best_eval, p),
            ({
                let m = ev.utility(child_value(ev, *node, d, max, best_index(ev, *node, d, max, i as nat)), p);
                &&& (m <= alpha ==> best_score <= alpha)
                &&& (best_score < beta ==> m < beta)
                &&& (best_score >= beta ==> m >= beta)
                &&& (best_score < beta && m > alpha ==> best as nat == best_index(ev, *node, d, max, i as nat)
                    && best_eval == child_value(ev, *node, d, max, best as nat)
                    && best_score as int == m)
            }),
        decreases moves@.len() - i,
    {
        let a: i128 = if (best_score as i128) > alpha {
            best_score as i128
        } else {
            alpha
        };
        let eval = max_min_phase(searcher, node.make_move(&moves[i]), depth + 1, max_depth, -beta, -a);
        let score = searcher.interpret_for_player(&eval, node.current_player());
        proof {
            let c = node.child(moves@[i as int]);
            assert(c.player_of() != p);
            assert(ev.utility(eval, p) == -ev.utility(eval, c.player_of()));
            assert(ev.utility(node_value(ev, c, d + 1, max), p) == -ev.utility(node_value(ev, c, d + 1, max), c.player_of()));
            assert(child_value(ev, *node, d, max, i as nat) == node_value(ev, c, d + 1, max));
            let b = best_index(ev, *node, d, max, i as nat);
            assert(best_index(ev, *node, d, max, (i + 1) as nat) == if ev.utility(
                child_value(ev, *node, d, max, i as nat),
                p,
            ) > ev.utility(child_value(ev, *node, d, max, b), p) {
                i as nat
            } else {
                b
            });
        }
        if score > best_score {
            best = i;
            best_eval = eval;
            best_score = score;
        }
        i = i + 1;
    }
    proof {
        let k = moves@.len();
        let bi = best_index(ev, *node, d, max, i as nat);
        lemma_best_is_max(ev, *node, d, max, i as nat, 0);
        lemma_best_is_max(ev, *node, d, max, k, bi);
        assert(node_value(ev, *node, d, max) == child_value(ev, *node, d, max, best_index(ev, *node, d, max, k)));
    }
    (best, best_eval)
}

} // verus!
