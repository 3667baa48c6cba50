use vstd::prelude::*;

use crate::game::{best_index, child_value, node_value, GameEvaluator, GameNode, SearchGame};

verus! {

/// The move that the search search_outcome and the raw evaluation it leads to.
pub struct MiniMaxResult<S: SearchGame> {
    pub found_move: <S::Node as GameNode>::Move,
    pub evaluation: <S::Evaluator as GameEvaluator<S::Node>>::Evaluation,
}

/// What a search `depth` plies deep search_outcome at `node`: nothing at depth
/// zero or at the end of the game, else the index of the best move for the
/// player to move.
pub open spec fn search_choice<N: GameNode, E: GameEvaluator<N>>(
    ev: E,
    node: N,
    depth: nat,
) -> Option<nat> {
    if depth == 0 || node.terminal() {
        None
    } else {
        Some(best_index(ev, node, 0, depth, node.moves_of().len()))
    }
}

/// The move and raw evaluation that a search `depth` plies deep at `node`
/// must return, if any.
pub open spec fn search_outcome<N: GameNode, E: GameEvaluator<N>>(
    ev: E,
    node: N,
    depth: nat,
    found: Option<(N::Move, E::Evaluation)>,
) -> bool {
    match search_choice(ev, node, depth) {
        None => found.is_none(),
        Some(i) => found == Some((node.moves_of()[i as int], node_value(ev, node, 0, depth))),
    }
}

/// The move and evaluation that `r` holds.
pub open spec fn mini_max_found<S: SearchGame>(r: Option<MiniMaxResult<S>>) -> Option<(
    <S::Node as GameNode>::Move,
    <S::Evaluator as GameEvaluator<S::Node>>::Evaluation,
)> {
    match r {
        Some(x) => Some((x.found_move, x.evaluation)),
        None => None,
    }
}

/// No move is recommended at depth zero, nor once the game is over.
pub proof fn lemma_no_move_without_search<N: GameNode, E: GameEvaluator<N>>(
    ev: E,
    node: N,
    depth: nat,
    found: Option<(N::Move, E::Evaluation)>,
)
    requires
        depth == 0 || node.terminal(),
        search_outcome(ev, node, depth, found),
    ensures
        search_choice(ev, node, depth).is_none(),
        found.is_none(),
{
}

/// Searches the tree below `node` to `depth` plies and returns the move that
/// is best for the player to move, with the raw evaluation of the child it
/// leads to. Nothing is returned at depth zero or when the game is over.
pub fn mini_max<S: SearchGame>(
    searcher: &S::Evaluator,
    node: S::Node,
    depth: usize,
) -> (r: Option<MiniMaxResult<S>>)
    ensures
        depth == 0 || node.terminal() ==> r.is_none(),
        search_outcome(*searcher, node, depth as nat, mini_max_found(r)),
        match search_choice(*searcher, node, depth as nat) {
            None => r.is_none(),
            Some(i) => r.is_some() && i < node.moves_of().len()
                && r.unwrap().found_move == node.moves_of()[i as int]
                && r.unwrap().evaluation == child_value(*searcher, node, 0, depth as nat, i)
                && r.unwrap().evaluation == node_value(*searcher, node, 0, depth as nat),
        },
{
    if depth == 0 {
        return None;
    }
    if node.is_terminal().is_some() {
        return None;
    }
    let (i, evaluation) = best_child::<S::Node, S::Evaluator>(searcher, &node, 0, depth);
    let mut moves = node.legal_moves();
    let found_move = moves.swap_remove(i);
    Some(MiniMaxResult { found_move, evaluation })
}

/// Scores `node` at ply `depth` of a search `max_depth` plies deep.
fn max_min_phase<N: GameNode, E: GameEvaluator<N>>(
    searcher: &E,
    node: N,
    depth: usize,
    max_depth: usize,
) -> (r: E::Evaluation)
    requires
        depth <= max_depth,
    ensures
        r == node_value(*searcher, node, depth as nat, max_depth as nat),
    decreases max_depth - depth, 1nat,
{
    if depth == max_depth || node.is_terminal().is_some() {
        return searcher.evaluate(&node, depth);
    }
    let (_, evaluation) = best_child::<N, E>(searcher, &node, depth, max_depth);
    evaluation
}

/// Scores every child of a node that is not terminal, below the depth bound,
/// and returns the index of the best one for the player to move (the first
/// on ties) with its raw evaluation.
pub(crate) fn best_child<N: GameNode, E: GameEvaluator<N>>(
    searcher: &E,
    node: &N,
    depth: usize,
    max_depth: usize,
) -> (r: (usize, E::Evaluation))
    requires
        depth < max_depth,
        !node.terminal(),
    ensures
        r.0 == best_index(*searcher, *node, depth as nat, max_depth as nat, node.moves_of().len()),
        r.0 < node.moves_of().len(),
        r.1 == child_value(*searcher, *node, depth as nat, max_depth as nat, r.0 as nat),
        r.1 == node_value(*searcher, *node, depth as nat, max_depth as nat),
    decreases max_depth - depth, 0nat,
{
    let ghost ev = *searcher;
    let ghost d = depth as nat;
    let ghost max = max_depth as nat;
    let moves = node.legal_moves();
    let first = node.make_move(&moves[0]);
    let mut best_eval = max_min_phase(searcher, first, depth + 1, max_depth);
    let mut best_score = searcher.interpret_for_player(&best_eval, node.current_player());
    let mut best: usize = 0;
    let mut i: usize = 1;
    assert(best_eval == child_value(ev, *node, d, max, 0));
    while i < moves.len()
        invariant
            1 <= i <= moves@.len(),
            moves@ == node.moves_of(),
            depth < max_depth,
            ev == *searcher,
            d == depth as nat,
            max == max_depth as nat,
            best < i,
            best as nat == best_index(ev, *node, d, max, i as nat),
            best_eval == child_value(ev, *node, d, max, best as nat),
            best_score as int == ev.utility(best_eval, node.player_of()),
        decreases moves@.len() - i,
    {
        let child = node.make_move(&moves[i]);
        let eval = max_min_phase(searcher, child, depth + 1, max_depth);
        let score = searcher.interpret_for_player(&eval, node.current_player());
        assert(eval == child_value(ev, *node, d, max, i as nat));
        assert(best_index(ev, *node, d, max, (i + 1) as nat) == if ev.utility(
            child_value(ev, *node, d, max, i as nat),
            node.player_of(),
        ) > ev.utility(child_value(ev, *node, d, max, best as nat), node.player_of()) {
            i as nat
        } else {
            best as nat
        });
        if score > best_score {
            best = i;
            best_eval = eval;
            best_score = score;
        }
        i = i + 1;
    }
    (best, best_eval)
}

/// The index of the first largest of the first `k` scores.
pub open spec fn first_max_index(scores: Seq<int>, k: nat) -> nat
    decreases k,
{
    if k <= 1 {
        0
    } else {
        let j = first_max_index(scores, (k - 1) as nat);
        if scores[k - 1] > scores[j as int] {
            (k - 1) as nat
        } else {
            j
        }
    }
}

/// The index of the first largest score.
pub fn first_best(scores: &Vec<i64>) -> (r: usize)
    requires
        scores@.len() > 0,
    ensures
        r < scores@.len(),
        r as nat == first_max_index(scores@.map_values(|x: i64| x as int), scores@.len()),
{
    let ghost s = scores@.map_values(|x: i64| x as int);
    let mut best: usize = 0;
    let mut i: usize = 1;
    while i < scores.len()
        invariant
            1 <= i <= scores@.len(),
            s == scores@.map_values(|x: i64| x as int),
            best < i,
            best as nat == first_max_index(s, i as nat),
        decreases scores@.len() - i,
    {
        if scores[i] > scores[best] {
            best = i;
        }
        i = i + 1;
    }
    best
}

/// The raw evaluation that a search `depth` plies deep gives the state that
/// `m` leads to from `node`; children can be scored in any order, or at
/// once, and combined with `first_best`.
pub fn child_evaluation<S: SearchGame>(
    searcher: &S::Evaluator,
    node: &S::Node,
    m: &<S::Node as GameNode>::Move,
    depth: usize,
) -> (r: <S::Evaluator as GameEvaluator<S::Node>>::Evaluation)
    requires
        depth >= 1,
    ensures
        r == node_value(*searcher, node.child(*m), 1, depth as nat),
{
    max_min_phase(searcher, node.make_move(m), 1, depth)
}

/// Scoring the children of the root one by one or in parallel, then taking
/// the first largest reading for the player to move, picks the move that
/// the sequential search picks.
pub proof fn lemma_parallel_choice_agrees<N: GameNode, E: GameEvaluator<N>>(
    ev: E,
    node: N,
    depth: nat,
    scores: Seq<int>,
)
    requires
        depth >= 1,
        scores.len() == node.moves_of().len(),
        forall|i: int|
            0 <= i < scores.len() ==> #[trigger] scores[i] == ev.utility(
                node_value(ev, node.child(node.moves_of()[i]), 1, depth),
                node.player_of(),
            ),
    ensures
        first_max_index(scores, scores.len()) == best_index(ev, node, 0, depth, scores.len()),
{
    lemma_prefix_choice_agrees(ev, node, depth, scores, scores.len());
}

proof fn lemma_prefix_choice_agrees<N: GameNode, E: GameEvaluator<N>>(
    ev: E,
    node: N,
    depth: nat,
    scores: Seq<int>,
    k: nat,
)
    requires
        depth >= 1,
        k <= scores.len(),
        scores.len() == node.moves_of().len(),
        forall|i: int|
            0 <= i < scores.len() ==> #[trigger] scores[i] == ev.utility(
                node_value(ev, node.child(node.moves_of()[i]), 1, depth),
                node.player_of(),
            ),
    ensures
        first_max_index(scores, k) == best_index(ev, node, 0, depth, k),
        k > 0 ==> first_max_index(scores, k) < k,
    decreases k,
{
    if k > 1 {
        lemma_prefix_choice_agrees(ev, node, depth, scores, (k - 1) as nat);
        let j = first_max_index(scores, (k - 1) as nat);
        assert(scores[j as int] == ev.utility(child_value(ev, node, 0, depth, j), node.player_of()));
        assert(scores[k - 1] == ev.utility(
            child_value(ev, node, 0, depth, (k - 1) as nat),
            node.player_of(),
        ));
    }
}

} // verus!
