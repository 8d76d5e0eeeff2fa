//! Choosing the least loaded of the eligible candidates, the first one on ties, as
//! `Iterator::filter(..).min_by(..)` does.

use vstd::prelude::*;

verus! {

/// `i` is eligible, no eligible candidate carries less load, and every eligible
/// candidate before it carries more.
pub open spec fn is_first_least(eligible: Seq<bool>, load: Seq<u64>, i: int) -> bool {
    &&& 0 <= i < eligible.len()
    &&& eligible[i]
    &&& forall|j: int| 0 <= j < eligible.len() && eligible[j] ==> load[i] <= load[j]
    &&& forall|j: int| 0 <= j < i && eligible[j] ==> load[i] < load[j]
}

/// The chosen candidate: the first eligible one of least load, if any is eligible.
pub open spec fn least_loaded(eligible: Seq<bool>, load: Seq<u64>) -> Option<int> {
    if exists|i: int| is_first_least(eligible, load, i) {
        Some(choose|i: int| is_first_least(eligible, load, i))
    } else {
        None
    }
}

/// At most one candidate is the first of least load.
pub proof fn lemma_first_least_unique(eligible: Seq<bool>, load: Seq<u64>, i: int, j: int)
    requires
        eligible.len() == load.len(),
        is_first_least(eligible, load, i),
        is_first_least(eligible, load, j),
    ensures
        i == j,
{
    if i < j {
        assert(load[j] < load[i]);
    } else if j < i {
        assert(load[i] < load[j]);
    }
}

/// The index of the first eligible candidate of least load.
pub fn first_least(eligible: &Vec<bool>, load: &Vec<u64>) -> (r: Option<usize>)
    requires
        eligible@.len() == load@.len(),
    ensures
        r == match least_loaded(eligible@, load@) {
            Some(i) => Some(i as usize),
            None => None::<usize>,
        },
        r is None <==> forall|j: int| 0 <= j < eligible@.len() ==> !eligible@[j],
{
    let mut best: Option<usize> = None;
    let mut i: usize = 0;
    while i < eligible.len()
        invariant
            eligible@.len() == load@.len(),
            i <= eligible@.len(),
            best matches Some(b) ==> {
                &&& b < i
                &&& eligible@[b as int]
                &&& forall|j: int| 0 <= j < i && eligible@[j] ==> load@[b as int] <= load@[j]
                &&& forall|j: int| 0 <= j < b && eligible@[j] ==> load@[b as int] < load@[j]
            },
            best is None ==> forall|j: int| 0 <= j < i ==> !eligible@[j],
        decreases eligible.len() - i,
    {
        if eligible[i] {
            match best {
                None => {
                    best = Some(i);
                },
                Some(b) => {
                    if load[i] < load[b] {
                        best = Some(i);
                    }
                },
            }
        }
        i = i + 1;
    }
    proof {
        match best {
            Some(b) => {
                assert(is_first_least(eligible@, load@, b as int));
                let c = choose|k: int| is_first_least(eligible@, load@, k);
                lemma_first_least_unique(eligible@, load@, b as int, c);
            },
            None => {
                assert(!exists|k: int| is_first_least(eligible@, load@, k));
            },
        }
    }
    best
}

} // verus!
