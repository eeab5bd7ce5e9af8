//! Splitting a Monte Carlo run across parallel workers.
//!
//! The parallel entry point divides the requested path count by the number of
//! available workers with integer (floor) division and gives every worker the
//! same share; the remainder paths are dropped, not redistributed. The
//! normalization divisor is therefore the number of paths actually executed,
//! `(num_paths / workers) * workers`, never the requested count. This module
//! fixes that policy in verified code: a [`SimulationPlan`] says exactly how
//! many paths run, and the lemmas below bound what the truncation can drop.

use vstd::prelude::*;

verus! {

use crate::error::PricingError;

/// How many paths each of `workers` workers runs when `num_paths` paths are
/// requested: the floor of the division, identical for every worker.
pub open spec fn paths_per_worker_spec(num_paths: int, workers: int) -> int {
    num_paths / workers
}

/// How many paths are actually executed when `num_paths` paths are requested
/// from `workers` workers: the remainder of the division is dropped.
pub open spec fn executed_paths_spec(num_paths: int, workers: int) -> int {
    (num_paths / workers) * workers
}

/// The work split of one Monte Carlo run: `workers` independent simulation
/// kernel invocations of `paths_per_worker` paths each. Each worker owns a
/// private generator and private buffers; the plan is all they share.
#[derive(Clone, Copy, Debug, PartialEq, Eq, Structural)]
pub struct SimulationPlan {
    /// Number of independent workers; at least one.
    pub workers: usize,
    /// Paths each worker runs; every worker runs the same number.
    pub paths_per_worker: usize,
}

impl SimulationPlan {
    /// A plan is well formed when it has at least one worker and the total
    /// executed path count fits the machine word.
    pub open spec fn wf(self) -> bool {
        &&& self.workers >= 1
        &&& self.paths_per_worker * self.workers <= usize::MAX
    }

    /// Total paths the plan executes, summed over all workers.
    pub open spec fn executed(self) -> int {
        self.paths_per_worker * self.workers
    }

    /// Total paths the plan executes. This is the normalization divisor for
    /// the reduced payoff sums: the paths that actually ran, not the paths
    /// that were requested.
    pub fn executed_paths(&self) -> (n: usize)
        requires
            self.wf(),
        ensures
            n == self.executed(),
    {
        self.paths_per_worker * self.workers
    }
}

/// Split `num_paths` requested paths across `workers` workers. Every worker
/// gets the floor share `num_paths / workers`; the remainder is dropped.
pub fn plan_simulation(num_paths: usize, workers: usize) -> (p: SimulationPlan)
    requires
        workers >= 1,
    ensures
        p.wf(),
        p.workers == workers,
        p.paths_per_worker == paths_per_worker_spec(num_paths as int, workers as int),
        p.executed() == executed_paths_spec(num_paths as int, workers as int),
        p.executed() <= num_paths,
        num_paths - p.executed() < workers,
{
    let per_worker: usize = num_paths / workers;
    proof {
        vstd::arithmetic::div_mod::lemma_remainder_lower(num_paths as int, workers as int);
        vstd::arithmetic::div_mod::lemma_remainder_upper(num_paths as int, workers as int);
    }
    SimulationPlan { workers, paths_per_worker: per_worker }
}

/// The serial baseline: one worker that runs every requested path. Nothing is
/// truncated, so the serial pricer normalizes by the requested count itself.
pub fn plan_serial(num_paths: usize) -> (p: SimulationPlan)
    ensures
        p.wf(),
        p.workers == 1,
        p.paths_per_worker == num_paths,
        p.executed() == num_paths,
{
    SimulationPlan { workers: 1, paths_per_worker: num_paths }
}

/// Split `num_paths` across the workers the host reported, or fail. The host
/// reports its available execution units at call time; when it cannot
/// (`None`, or a nonsensical zero), the parallel entry point is unusable and
/// the caller should fall back to the serial one.
pub fn plan_parallel_simulation(num_paths: usize, reported_workers: Option<usize>) -> (r: Result<
    SimulationPlan,
    PricingError,
>)
    ensures
        r is Ok <==> (reported_workers matches Some(w) && w >= 1),
        r matches Ok(p) ==> {
            &&& p.wf()
            &&& reported_workers matches Some(w) && p.workers == w
            &&& p.paths_per_worker == paths_per_worker_spec(
                num_paths as int,
                p.workers as int,
            )
            &&& p.executed() <= num_paths
        },
        r matches Err(e) ==> e == PricingError::ParallelismUnavailable,
{
    match reported_workers {
        Some(workers) if workers >= 1 => Ok(plan_simulation(num_paths, workers)),
        _ => Err(PricingError::ParallelismUnavailable),
    }
}

/// Truncation can only drop paths, and fewer than one worker's worth: with
/// `workers` workers, the executed count is at most the requested `num_paths`
/// and misses it by less than `workers`.
pub proof fn lemma_truncation_bound(num_paths: int, workers: int)
    requires
        num_paths >= 0,
        workers >= 1,
    ensures
        0 <= executed_paths_spec(num_paths, workers) <= num_paths,
        num_paths - executed_paths_spec(num_paths, workers) < workers,
{
    vstd::arithmetic::div_mod::lemma_remainder_lower(num_paths, workers);
    vstd::arithmetic::div_mod::lemma_remainder_upper(num_paths, workers);
    vstd::arithmetic::div_mod::lemma_div_pos_is_pos(num_paths, workers);
    vstd::arithmetic::mul::lemma_mul_nonnegative(num_paths / workers, workers);
}

/// When the worker count divides the requested path count, nothing is
/// dropped: every requested path is executed.
pub proof fn lemma_no_truncation_when_divisible(num_paths: int, workers: int)
    requires
        num_paths >= 0,
        workers >= 1,
        num_paths % workers == 0,
    ensures
        executed_paths_spec(num_paths, workers) == num_paths,
{
    vstd::arithmetic::div_mod::lemma_fundamental_div_mod(num_paths, workers);
    vstd::arithmetic::mul::lemma_mul_is_commutative(workers, num_paths / workers);
}

/// A single worker executes exactly the requested paths: the parallel split
/// with one worker runs the same number of paths as the serial baseline.
pub proof fn lemma_single_worker_executes_all(num_paths: int)
    requires
        num_paths >= 0,
    ensures
        executed_paths_spec(num_paths, 1) == num_paths,
{
}

} // verus!
