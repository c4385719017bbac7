use vstd::prelude::*;

verus! {

/// How a total number of interactions is shared among the three roles:
/// initiator and responder get a third each, rounded down; the mediator gets
/// the rest.
pub open spec fn role_shares(total: int) -> Seq<int> {
    seq![total / 3, total / 3, total - 2 * (total / 3)]
}

/// The per-role interaction counts `[initiator, responder, mediator]` of a
/// deterministic run with `population_size` agents over `steps` steps, in
/// which every agent interacts once per step.
pub fn split_interactions(population_size: usize, steps: u64) -> (counts: [u64; 3])
    requires
        population_size * steps <= u64::MAX,
    ensures
        counts@.len() == 3,
        forall|i: int| 0 <= i < 3 ==> counts@[i] == role_shares(population_size * steps)[i],
        counts[0] + counts[1] + counts[2] == population_size * steps,
        forall|i: int, j: int| 0 <= i < 3 && 0 <= j < 3 ==> counts@[i] <= counts@[j] + 2,
{
    let total: u64 = population_size as u64 * steps;
    [total / 3, total / 3, total - 2 * (total / 3)]
}

/// The total number of interactions over the three roles of one run.
pub open spec fn role_sum(counts: [u64; 3]) -> int {
    counts[0] + counts[1] + counts[2]
}

/// The total number of interactions over the three roles, or `None` where
/// that total does not fit in a `u64`.
pub fn interaction_total(counts: &[u64; 3]) -> (total: Option<u64>)
    ensures
        total == (if counts[0] + counts[1] + counts[2] <= u64::MAX {
            Some((counts[0] + counts[1] + counts[2]) as u64)
        } else {
            None::<u64>
        }),
{
    match counts[0].checked_add(counts[1]) {
        Some(first_two) => first_two.checked_add(counts[2]),
        None => None,
    }
}

/// The positions, in increasing order, of the runs whose role counts add up
/// to a positive total: those are the runs whose role balance is checked.
/// `None` where the total of some run does not fit in a `u64`.
pub fn balance_checked_runs(counts: &[[u64; 3]]) -> (runs: Option<Vec<usize>>)
    ensures
        runs is None <==> exists|i: int| 0 <= i < counts@.len() && role_sum(#[trigger] counts@[i]) > u64::MAX,
        runs matches Some(idx) ==> {
            &&& forall|k: int, l: int| 0 <= k < l < idx@.len() ==> idx@[k] < idx@[l]
            &&& forall|k: int|
                0 <= k < idx@.len() ==> idx@[k] < counts@.len() && role_sum(counts@[#[trigger] idx@[k] as int]) > 0
            &&& forall|i: int|
                0 <= i < counts@.len() && role_sum(#[trigger] counts@[i]) > 0 ==> idx@.contains(i as usize)
        },
        runs is None <==> exists|i: int|
            0 <= i < counts@.len() && (#[trigger] counts@[i])[0] + counts@[i][1] + counts@[i][2] > u64::MAX,
        runs matches Some(idx) ==> {
            &&& forall|k: int|
                0 <= k < idx@.len() ==> {
                    let c = #[trigger] counts@[idx@[k] as int];
                    c[0] + c[1] + c[2] > 0
                }
            &&& forall|i: int|
                0 <= i < counts@.len() && (#[trigger] counts@[i])[0] + counts@[i][1] + counts@[i][2] > 0
                    ==> idx@.contains(i as usize)
        },
{
    let mut idx: Vec<usize> = Vec::new();
    let n = counts.len();
    let mut i: usize = 0;
    while i < n
        invariant
            n == counts@.len(),
            0 <= i <= n,
            forall|j: int| 0 <= j < i ==> role_sum(#[trigger] counts@[j]) <= u64::MAX,
            forall|k: int, l: int| 0 <= k < l < idx@.len() ==> idx@[k] < idx@[l],
            forall|k: int| 0 <= k < idx@.len() ==> idx@[k] < i && role_sum(counts@[#[trigger] idx@[k] as int]) > 0,
            forall|j: int| 0 <= j < i && role_sum(#[trigger] counts@[j]) > 0 ==> idx@.contains(j as usize),
        decreases n - i,
    {
        match interaction_total(&counts[i]) {
            None => {
                return None;
            },
            Some(total) => {
                if total > 0 {
                    let ghost before = idx@;
                    idx.push(i);
                    proof {
                        assert forall|j: int| 0 <= j < i + 1 && role_sum(#[trigger] counts@[j]) > 0 implies idx@.contains(j as usize) by {
                            if j < i {
                                let k = choose|k: int| 0 <= k < before.len() && before[k] == j as usize;
                                assert(idx@[k] == j as usize);
                            } else {
                                assert(idx@[before.len() as int] == j as usize);
                            }
                        }
                    }
                } else {
                    proof {
                        assert forall|j: int| 0 <= j < i + 1 && role_sum(#[trigger] counts@[j]) > 0 implies idx@.contains(j as usize) by {
                            assert(j < i);
                        }
                    }
                }
            },
        }
        i = i + 1;
    }
    proof {
        assert forall|i: int| 0 <= i < counts@.len() implies #[trigger] role_sum(counts@[i])
            == counts@[i][0] + counts@[i][1] + counts@[i][2] by {
            lemma_role_sum(counts@[i]);
        }
    }
    Some(idx)
}

/// A run's total is what all three roles did together: the initiator's, the
/// responder's and the mediator's counts, each of them at most the total.
pub proof fn lemma_role_sum(counts: [u64; 3])
    ensures
        role_sum(counts) == counts[0] + counts[1] + counts[2],
        counts[0] <= role_sum(counts),
        counts[1] <= role_sum(counts),
        counts[2] <= role_sum(counts),
        (role_sum(counts) > 0) <==> (counts[0] > 0 || counts[1] > 0 || counts[2] > 0),
{
}

} // verus!
