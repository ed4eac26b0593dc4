//! Greedy selection: the candidate with the highest logit.
use vstd::prelude::*;
use crate::float_bits::{float_lt, is_nan, less_than};
use crate::gen_config_builder::{LunnamaSampler, SamplerView};

verus! {

/// A candidate for the next token: a token and its logit, held as the
/// encoding of a single-precision number.
#[derive(Clone, Copy, Debug, PartialEq, Eq, Structural)]
pub struct TokenLogit {
    pub token: i32,
    pub logit: u32,
}

/// Whether greedy selection takes the candidate at `index`: no candidate has
/// a higher logit, and every earlier candidate that has a number for its
/// logit has a lower one. A first candidate whose logit is no number is
/// taken, whatever follows; otherwise the logit of the one taken is a number.
pub open spec fn is_greedy_choice(candidates: Seq<TokenLogit>, index: int) -> bool {
    &&& 0 <= index < candidates.len()
    &&& forall|j: int|
        0 <= j < candidates.len() ==> !float_lt(candidates[index].logit, #[trigger] candidates[j].logit)
    &&& forall|j: int|
        0 <= j < index ==> is_nan(#[trigger] candidates[j].logit) || float_lt(
            candidates[j].logit,
            candidates[index].logit,
        )
    &&& is_nan(candidates[0].logit) <==> is_nan(candidates[index].logit)
    &&& is_nan(candidates[0].logit) ==> index == 0
}

/// The index that greedy selection takes among `candidates`, of which there
/// is at least one.
pub open spec fn greedy_choice(candidates: Seq<TokenLogit>) -> int {
    choose|index: int| is_greedy_choice(candidates, index)
}

/// The index of the candidate that greedy selection takes; none where there
/// is no candidate.
pub fn greedy_index(candidates: &Vec<TokenLogit>) -> (selected: Option<usize>)
    ensures
        candidates@.len() == 0 <==> selected.is_none(),
        selected matches Some(index) ==> is_greedy_choice(candidates@, index as int) && index
            == greedy_choice(candidates@),
{
    let count: usize = candidates.len();
    if count == 0 {
        return None;
    }
    let mut best: usize = 0;
    let mut i: usize = 1;
    while i < count
        invariant
            count == candidates@.len(),
            1 <= i <= count,
            best < i,
            is_greedy_choice(candidates@.subrange(0, i as int), best as int),
        decreases count - i,
    {
        let ghost seen = candidates@.subrange(0, i as int);
        let ghost next = candidates@.subrange(0, i + 1);
        if less_than(candidates[best].logit, candidates[i].logit) {
            proof {
                assert forall|j: int| 0 <= j < next.len() implies !float_lt(
                    next[i as int].logit,
                    #[trigger] next[j].logit,
                ) by {
                    if j < i {
                        assert(!float_lt(seen[best as int].logit, seen[j].logit));
                    }
                }
                assert forall|j: int| 0 <= j < i implies is_nan(#[trigger] next[j].logit)
                    || float_lt(next[j].logit, next[i as int].logit) by {
                    assert(!float_lt(seen[best as int].logit, seen[j].logit));
                    if j < best {
                        assert(is_nan(seen[j].logit) || float_lt(
                            seen[j].logit,
                            seen[best as int].logit,
                        ));
                    }
                }
                assert(is_nan(seen[0].logit) <==> is_nan(seen[best as int].logit));
            }
            best = i;
        } else {
            proof {
                assert forall|j: int| 0 <= j < next.len() implies !float_lt(
                    next[best as int].logit,
                    #[trigger] next[j].logit,
                ) by {
                    if j < i {
                        assert(!float_lt(seen[best as int].logit, seen[j].logit));
                    }
                }
                assert forall|j: int| 0 <= j < best implies is_nan(#[trigger] next[j].logit)
                    || float_lt(next[j].logit, next[best as int].logit) by {
                    assert(is_nan(seen[j].logit) || float_lt(
                        seen[j].logit,
                        seen[best as int].logit,
                    ));
                }
                assert(is_nan(seen[0].logit) <==> is_nan(seen[best as int].logit));
                assert(is_nan(seen[0].logit) ==> best == 0);
            }
        }
        i = i + 1;
    }
    proof {
        assert(candidates@.subrange(0, i as int) =~= candidates@);
        lemma_greedy_choice_is_unique(candidates@, best as int, greedy_choice(candidates@));
    }
    Some(best)
}

/// The token that greedy selection takes; none where there is no candidate.
pub fn greedy_token(candidates: &Vec<TokenLogit>) -> (selected: Option<i32>)
    ensures
        candidates@.len() == 0 <==> selected.is_none(),
        selected matches Some(token) ==> token == candidates@[greedy_choice(candidates@)].token,
{
    match greedy_index(candidates) {
        None => None,
        Some(index) => Some(candidates[index].token),
    }
}

impl LunnamaSampler {
    /// The token that this sampler takes among `candidates`, where the
    /// candidates alone decide it: the greedy sampler takes the candidate
    /// with the highest logit. A chain ends in a random draw, so nothing is
    /// returned for it, nor where there is no candidate.
    pub fn deterministic_choice(&self, candidates: &Vec<TokenLogit>) -> (selected: Option<i32>)
        ensures
            selected.is_some() <==> self@ is Greedy && candidates@.len() > 0,
            selected matches Some(token) ==> token == candidates@[greedy_choice(candidates@)].token,
    {
        match self {
            LunnamaSampler::Greedy => greedy_token(candidates),
            LunnamaSampler::Chain { .. } => None,
        }
    }
}

/// Greedy selection is deterministic: the candidates fix the index that is
/// taken.
pub proof fn lemma_greedy_choice_is_unique(candidates: Seq<TokenLogit>, a: int, b: int)
    requires
        is_greedy_choice(candidates, a),
        is_greedy_choice(candidates, b),
    ensures
        a == b,
{
    if a < b {
        assert(is_nan(candidates[a].logit) || float_lt(candidates[a].logit, candidates[b].logit));
        assert(!float_lt(candidates[a].logit, candidates[b].logit));
    } else if b < a {
        assert(is_nan(candidates[b].logit) || float_lt(candidates[b].logit, candidates[a].logit));
        assert(!float_lt(candidates[b].logit, candidates[a].logit));
    }
}

/// Where one candidate's logit is strictly higher than every other's, and
/// all logits are numbers, greedy selection takes that candidate.
pub proof fn lemma_strictly_highest_is_taken(candidates: Seq<TokenLogit>, top: int, index: int)
    requires
        0 <= top < candidates.len(),
        forall|j: int| 0 <= j < candidates.len() ==> !is_nan(#[trigger] candidates[j].logit),
        forall|j: int|
            0 <= j < candidates.len() && j != top ==> float_lt(
                #[trigger] candidates[j].logit,
                candidates[top].logit,
            ),
        is_greedy_choice(candidates, index),
    ensures
        index == top,
{
    if index != top {
        assert(float_lt(candidates[index].logit, candidates[top].logit));
        assert(!float_lt(candidates[index].logit, candidates[top].logit));
    }
}

} // verus!
