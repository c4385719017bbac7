use vstd::prelude::*;

verus! {

/// Default number of simulation steps at each scale.
pub const DEFAULT_STEPS: u64 = 10_000;

/// Default population sizes for a scale sweep: 10, 50, 100, 500, 1000, 5000.
pub fn default_scales() -> (scales: Vec<usize>)
    ensures
        scales@ == seq![10usize, 50, 100, 500, 1000, 5000],
{
    vec![10, 50, 100, 500, 1000, 5000]
}

/// Results from a single population scale.
#[derive(Debug, Clone)]
pub struct ScaleResult<M> {
    /// Population size.
    pub population_size: usize,
    /// Metrics collected at this scale.
    pub metrics: M,
    /// Whether the conservation law held at this scale.
    pub conservation_holds: bool,
    /// Wall-clock time for the simulation in microseconds (not measured: 0).
    pub elapsed_us: u64,
}

/// Runs the same experiment at every population size of `scales`, in order,
/// with the same number of steps: the result at position `i` is what
/// `simulate(scales[i], steps)` returned, its metrics and whether conservation
/// held there.
pub fn sweep_scales<M, F: Fn(usize, u64) -> (M, bool)>(
    scales: &[usize],
    steps: u64,
    simulate: F,
) -> (results: Vec<ScaleResult<M>>)
    requires
        forall|i: int| 0 <= i < scales@.len() ==> call_requires(simulate, (#[trigger] scales@[i], steps)),
    ensures
        results@.len() == scales@.len(),
        forall|i: int|
            0 <= i < scales@.len() ==> {
                &&& (#[trigger] results@[i]).population_size == scales@[i]
                &&& results@[i].elapsed_us == 0
                &&& call_ensures(
                    simulate,
                    (scales@[i], steps),
                    (results@[i].metrics, results@[i].conservation_holds),
                )
            },
{
    let mut results: Vec<ScaleResult<M>> = Vec::new();
    let n = scales.len();
    let mut i: usize = 0;
    while i < n
        invariant
            n == scales@.len(),
            0 <= i <= n,
            results@.len() == i,
            forall|k: int| 0 <= k < scales@.len() ==> call_requires(simulate, (#[trigger] scales@[k], steps)),
            forall|k: int|
                0 <= k < i ==> {
                    &&& (#[trigger] results@[k]).population_size == scales@[k]
                    &&& results@[k].elapsed_us == 0
                    &&& call_ensures(
                        simulate,
                        (scales@[k], steps),
                        (results@[k].metrics, results@[k].conservation_holds),
                    )
                },
        decreases n - i,
    {
        let pop = scales[i];
        let (metrics, holds) = simulate(pop, steps);
        results.push(ScaleResult { population_size: pop, metrics, conservation_holds: holds, elapsed_us: 0 });
        i = i + 1;
    }
    results
}

/// Whether conservation held, scale by scale, in the order of the results.
pub open spec fn conservation_flags<M>(results: Seq<ScaleResult<M>>) -> Seq<bool> {
    results.map_values(|r: ScaleResult<M>| r.conservation_holds)
}

/// Whether conservation held at each scale, in the order of the results.
pub fn conservation_outcomes<M>(results: &[ScaleResult<M>]) -> (outcomes: Vec<bool>)
    ensures
        outcomes@ == conservation_flags(results@),
        outcomes@.len() == results@.len(),
        forall|i: int| 0 <= i < results@.len() ==> outcomes@[i] == (#[trigger] results@[i]).conservation_holds,
{
    let mut outcomes: Vec<bool> = Vec::new();
    let n = results.len();
    let mut i: usize = 0;
    while i < n
        invariant
            n == results@.len(),
            0 <= i <= n,
            outcomes@ == conservation_flags(results@.take(i as int)),
        decreases n - i,
    {
        outcomes.push(results[i].conservation_holds);
        proof {
            assert(conservation_flags(results@.take(i + 1)) =~= conservation_flags(results@.take(i as int)).push(results@[i as int].conservation_holds));
        }
        i = i + 1;
    }
    assert(results@.take(n as int) =~= results@);
    proof {
        lemma_conservation_flags(results@);
    }
    outcomes
}

/// The flags have one entry per result, and the entry at each position is
/// whether conservation held for the result at that position.
pub proof fn lemma_conservation_flags<M>(results: Seq<ScaleResult<M>>)
    ensures
        conservation_flags(results).len() == results.len(),
        forall|i: int|
            0 <= i < results.len() ==> #[trigger] conservation_flags(results)[i] == results[i].conservation_holds,
{
}

/// The population sizes of the results, in order.
pub fn population_sizes<M>(results: &[ScaleResult<M>]) -> (sizes: Vec<usize>)
    ensures
        sizes@.len() == results@.len(),
        forall|i: int| 0 <= i < results@.len() ==> sizes@[i] == (#[trigger] results@[i]).population_size,
{
    let mut sizes: Vec<usize> = Vec::new();
    let n = results.len();
    let mut i: usize = 0;
    while i < n
        invariant
            n == results@.len(),
            0 <= i <= n,
            sizes@.len() == i,
            forall|k: int| 0 <= k < i ==> sizes@[k] == (#[trigger] results@[k]).population_size,
        decreases n - i,
    {
        sizes.push(results[i].population_size);
        i = i + 1;
    }
    sizes
}

} // verus!
