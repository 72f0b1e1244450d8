//! The window selector: which turns of a history accompany a request.
//!
//! The preamble always goes. Of the history go the latest turns, as many as
//! fit the token budget together with the preamble, in the order in which
//! they were said.

use vstd::prelude::*;
use crate::tokenizer::{CostEstimationError, Tokenizer};
use crate::turn::Turn;

verus! {

/// How many of the latest turns are taken when `used` tokens of `budget` are
/// spent already: going back from the newest, a turn is taken while its cost
/// is known and still fits.
pub open spec fn taken(costs: Seq<Option<nat>>, used: nat, budget: nat) -> nat
    decreases costs.len(),
{
    if costs.len() == 0 {
        0
    } else {
        match costs.last() {
            Some(c) => if used + c <= budget {
                1 + taken(costs.drop_last(), used + c, budget)
            } else {
                0
            },
            None => 0,
        }
    }
}

/// Whether going back from the newest turn comes upon a turn without a cost
/// before it comes upon one that does not fit.
pub open spec fn meets_unknown(costs: Seq<Option<nat>>, used: nat, budget: nat) -> bool
    decreases costs.len(),
{
    costs.len() > 0 && match costs.last() {
        Some(c) => used + c <= budget && meets_unknown(costs.drop_last(), used + c, budget),
        None => true,
    }
}

/// The cost of the latest `k` turns together; a turn without a cost counts
/// for nothing.
pub open spec fn tail_cost(costs: Seq<Option<nat>>, k: nat) -> nat
    decreases k,
{
    if k == 0 || costs.len() == 0 {
        0
    } else {
        (match costs.last() {
            Some(c) => c,
            None => 0,
        }) + tail_cost(costs.drop_last(), (k - 1) as nat)
    }
}

/// The latest `k` turns of `history`.
pub open spec fn latest(history: Seq<Turn>, k: nat) -> Seq<Turn> {
    history.subrange(history.len() - k, history.len() as int)
}

/// What is submitted for a history whose turns cost `costs`, with a preamble
/// that costs `preamble_cost`, under `budget`: the preamble, then the latest
/// turns that fit. No selection is made where the cost of the preamble, or
/// of a turn that the walk comes upon, is unknown.
pub open spec fn selection(
    history: Seq<Turn>,
    costs: Seq<Option<nat>>,
    preamble: Turn,
    preamble_cost: Option<nat>,
    budget: nat,
) -> Result<Seq<Turn>, CostEstimationError> {
    match preamble_cost {
        Some(p) => if meets_unknown(costs, p, budget) {
            Err(CostEstimationError)
        } else {
            Ok(seq![preamble] + latest(history, taken(costs, p, budget)))
        },
        None => Err(CostEstimationError),
    }
}

/// No more turns are taken than there are.
pub proof fn lemma_taken_at_most_all(costs: Seq<Option<nat>>, used: nat, budget: nat)
    ensures
        taken(costs, used, budget) <= costs.len(),
    decreases costs.len(),
{
    if costs.len() > 0 {
        match costs.last() {
            Some(c) => {
                if used + c <= budget {
                    lemma_taken_at_most_all(costs.drop_last(), used + c, budget);
                }
            },
            None => {},
        }
    }
}

/// The turns taken fit: with what was spent before, they stay within the
/// budget, unless none is taken.
pub proof fn lemma_taken_fits(costs: Seq<Option<nat>>, used: nat, budget: nat)
    ensures
        taken(costs, used, budget) > 0 ==> used + tail_cost(costs, taken(costs, used, budget))
            <= budget,
        used <= budget ==> used + tail_cost(costs, taken(costs, used, budget)) <= budget,
    decreases costs.len(),
{
    if costs.len() > 0 {
        match costs.last() {
            Some(c) => {
                if used + c <= budget {
                    lemma_taken_fits(costs.drop_last(), used + c, budget);
                }
            },
            None => {},
        }
    }
}

/// The turns taken are all that fit: where the walk met no unknown cost and
/// an older turn is left, that turn on top of those taken exceeds the budget.
pub proof fn lemma_taken_is_most(costs: Seq<Option<nat>>, used: nat, budget: nat)
    requires
        !meets_unknown(costs, used, budget),
    ensures
        taken(costs, used, budget) < costs.len() ==> used + tail_cost(
            costs,
            taken(costs, used, budget) + 1,
        ) > budget,
    decreases costs.len(),
{
    if costs.len() > 0 {
        match costs.last() {
            Some(c) => {
                if used + c <= budget {
                    lemma_taken_is_most(costs.drop_last(), used + c, budget);
                } else {
                    assert(tail_cost(costs, 1) == c + tail_cost(costs.drop_last(), 0));
                }
            },
            None => {},
        }
    }
}

/// A selection is the preamble followed by an unbroken run of the latest
/// turns of the history, in their order: no turn is left out while an older
/// one is taken.
pub proof fn lemma_selection_is_suffix(
    history: Seq<Turn>,
    costs: Seq<Option<nat>>,
    preamble: Turn,
    preamble_cost: Option<nat>,
    budget: nat,
)
    requires
        costs.len() == history.len(),
        selection(history, costs, preamble, preamble_cost, budget) is Ok,
    ensures
        ({
            let chosen = selection(history, costs, preamble, preamble_cost, budget)->Ok_0;
            let k = chosen.len() - 1;
            &&& chosen[0] == preamble
            &&& 0 <= k <= history.len()
            &&& chosen.skip(1) == history.skip(history.len() - k)
        }),
{
    lemma_taken_at_most_all(costs, preamble_cost->Some_0, budget);
    let chosen = selection(history, costs, preamble, preamble_cost, budget)->Ok_0;
    assert(chosen.skip(1) =~= history.skip(history.len() - (chosen.len() - 1)));
}

/// The turns selected from the history cost together no more than the budget
/// leaves beside the preamble, where it leaves anything.
pub proof fn lemma_selection_within_budget(
    history: Seq<Turn>,
    costs: Seq<Option<nat>>,
    preamble: Turn,
    preamble_cost: Option<nat>,
    budget: nat,
)
    requires
        costs.len() == history.len(),
        selection(history, costs, preamble, preamble_cost, budget) is Ok,
        preamble_cost->Some_0 <= budget,
    ensures
        ({
            let chosen = selection(history, costs, preamble, preamble_cost, budget)->Ok_0;
            tail_cost(costs, (chosen.len() - 1) as nat) <= budget - preamble_cost->Some_0
        }),
{
    lemma_taken_at_most_all(costs, preamble_cost->Some_0, budget);
    lemma_taken_fits(costs, preamble_cost->Some_0, budget);
}

/// A selection is never empty: the preamble comes first in it, and stands
/// alone in it where its own cost is more than the budget.
pub proof fn lemma_selection_keeps_preamble(
    history: Seq<Turn>,
    costs: Seq<Option<nat>>,
    preamble: Turn,
    preamble_cost: Option<nat>,
    budget: nat,
)
    requires
        costs.len() == history.len(),
        selection(history, costs, preamble, preamble_cost, budget) is Ok,
    ensures
        ({
            let chosen = selection(history, costs, preamble, preamble_cost, budget)->Ok_0;
            &&& chosen.len() >= 1
            &&& chosen[0] == preamble
            &&& preamble_cost->Some_0 > budget ==> chosen == seq![preamble]
        }),
{
    let p = preamble_cost->Some_0;
    lemma_taken_at_most_all(costs, p, budget);
    if p > budget {
        assert(taken(costs, p, budget) == 0);
        assert(latest(history, 0) =~= Seq::<Turn>::empty());
        assert(seq![preamble] + Seq::<Turn>::empty() =~= seq![preamble]);
    }
}

/// Chooses what is submitted with a request: `preamble`, then the latest
/// turns of `history` whose costs fit `budget` together with the cost of the
/// preamble, oldest first. The walk goes back from the newest turn and stops
/// at the first that does not fit. A cost is the estimate that a turn
/// carries, else what `tokenizer` finds; where the cost of the preamble or of
/// a turn that the walk comes upon cannot be found, nothing is selected.
pub fn select_window(
    history: &Vec<Turn>,
    preamble: &Turn,
    budget: usize,
    tokenizer: &Tokenizer,
) -> (r: Result<Vec<Turn>, CostEstimationError>)
    ensures
        match r {
            Ok(chosen) => selection(
                history@,
                tokenizer.costs(history@),
                *preamble,
                tokenizer.cost(*preamble),
                budget as nat,
            ) == Ok::<Seq<Turn>, CostEstimationError>(chosen@),
            Err(e) => selection(
                history@,
                tokenizer.costs(history@),
                *preamble,
                tokenizer.cost(*preamble),
                budget as nat,
            ) == Err::<Seq<Turn>, CostEstimationError>(e),
        },
        r matches Ok(chosen) ==> chosen@.len() >= 1 && chosen@[0] == *preamble,
{
    let ghost costs = tokenizer.costs(history@);
    let preamble_cost = match tokenizer.estimate(preamble) {
        Ok(c) => c,
        Err(e) => {
            return Err(e);
        },
    };
    let mut used: usize = preamble_cost;
    let mut start: usize = history.len();
    let mut stop = false;
    assert(costs.take(history@.len() as int) =~= costs);
    while start > 0 && !stop
        invariant
            start <= history@.len(),
            costs == tokenizer.costs(history@),
            tokenizer.cost(*preamble) == Some(preamble_cost as nat),
            stop ==> taken(costs, preamble_cost as nat, budget as nat) == history@.len() - start
                && !meets_unknown(costs, preamble_cost as nat, budget as nat),
            !stop ==> taken(costs, preamble_cost as nat, budget as nat) == (history@.len() - start)
                + taken(costs.take(start as int), used as nat, budget as nat),
            !stop ==> meets_unknown(costs, preamble_cost as nat, budget as nat) == meets_unknown(
                costs.take(start as int),
                used as nat,
                budget as nat,
            ),
        decreases start + (if stop { 0int } else { 1int }),
    {
        let ghost rest = costs.take(start as int);
        assert(rest.last() == tokenizer.cost(history@[start - 1]));
        assert(rest.drop_last() =~= costs.take(start - 1));
        let cost = match tokenizer.estimate(&history[start - 1]) {
            Ok(c) => c,
            Err(e) => {
                assert(meets_unknown(rest, used as nat, budget as nat));
                return Err(e);
            },
        };
        if used <= budget && cost <= budget - used {
            used = used + cost;
            start = start - 1;
        } else {
            assert(taken(rest, used as nat, budget as nat) == 0);
            assert(!meets_unknown(rest, used as nat, budget as nat));
            stop = true;
        }
    }
    assert(costs.take(0) =~= Seq::<Option<nat>>::empty());
    let mut chosen: Vec<Turn> = Vec::new();
    chosen.push(preamble.clone());
    let mut i: usize = start;
    while i < history.len()
        invariant
            start <= i <= history@.len(),
            chosen@ == seq![*preamble] + history@.subrange(start as int, i as int),
        decreases history@.len() - i,
    {
        chosen.push(history[i].clone());
        assert(history@.subrange(start as int, i + 1) =~= history@.subrange(
            start as int,
            i as int,
        ).push(history@[i as int]));
        i += 1;
    }
    Ok(chosen)
}

} // verus!
