//! What the supervisor of the worker processes decides at each poll.
use vstd::prelude::*;

verus! {

/// What a poll found out about one worker process.
#[derive(Debug, Clone, Copy, PartialEq, Eq, Structural)]
pub enum WorkerProcess {
    /// It is still running.
    Running,
    /// It has exited.
    Exited,
    /// Its state could not be read.
    Unknown,
}

/// The positions, in increasing order, of the workers that a poll found
/// exited: exactly those are replaced by new workers, in place, so the pool
/// keeps its size. A worker still running, or whose state could not be
/// read, is kept.
pub fn respawn_indices(pool: &Vec<WorkerProcess>) -> (r: Vec<usize>)
    ensures
        forall|i: int|
            0 <= i < r@.len() ==> r@[i] < pool@.len() && pool@[r@[i] as int] == WorkerProcess::Exited,
        forall|k: int|
            0 <= k < pool@.len() && pool@[k] == WorkerProcess::Exited ==> r@.contains(k as usize),
        forall|i: int, j: int| 0 <= i < j < r@.len() ==> r@[i] < r@[j],
{
    let mut r: Vec<usize> = Vec::new();
    let mut k: usize = 0;
    while k < pool.len()
        invariant
            k <= pool@.len(),
            forall|i: int|
                0 <= i < r@.len() ==> r@[i] < k && pool@[r@[i] as int] == WorkerProcess::Exited,
            forall|m: int|
                0 <= m < k && pool@[m] == WorkerProcess::Exited ==> r@.contains(m as usize),
            forall|i: int, j: int| 0 <= i < j < r@.len() ==> r@[i] < r@[j],
        decreases pool@.len() - k,
    {
        if pool[k] == WorkerProcess::Exited {
            let ghost before = r@;
            r.push(k);
            proof {
                assert forall|m: int|
                    0 <= m < k + 1 && pool@[m] == WorkerProcess::Exited implies r@.contains(
                    m as usize,
                ) by {
                    if m < k {
                        let w = choose|w: int| 0 <= w < before.len() && before[w] == m as usize;
                        assert(r@[w] == m as usize);
                    } else {
                        assert(r@[before.len() as int] == k);
                    }
                }
            }
        }
        k = k + 1;
    }
    r
}

/// Whether the supervisor polls its workers again: until SIGTERM or SIGINT
/// has been received.
pub fn keep_supervising(terminated: bool) -> (b: bool)
    ensures
        b == !terminated,
{
    !terminated
}

} // verus!
