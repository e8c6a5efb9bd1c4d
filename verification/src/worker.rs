//! The worker pool as the routing policies observe it.
//!
//! Policies never own workers: each call receives a borrowed, ordered
//! sequence of worker snapshots and returns an index into that sequence,
//! valid only for the call that produced it.

use vstd::prelude::*;

verus! {

/// One inference worker as a policy sees it: a stable identity (its URL),
/// the current queue load, the health flag, and the dispatch counter that a
/// policy bumps when it routes a request to the worker.
pub struct WorkerInfo {
    pub url: String,
    pub load: usize,
    pub healthy: bool,
    pub processed_count: u64,
}

/// At least one worker in the sequence is healthy.
pub open spec fn has_healthy(ws: Seq<WorkerInfo>) -> bool {
    exists|i: int| 0 <= i < ws.len() && ws[i].healthy
}

/// Largest queue load over the whole sequence (zero for an empty one).
pub open spec fn max_load(ws: Seq<WorkerInfo>) -> nat
    decreases ws.len(),
{
    if ws.len() == 0 {
        0
    } else {
        let rest = max_load(ws.drop_last());
        if ws.last().load as nat > rest {
            ws.last().load as nat
        } else {
            rest
        }
    }
}

/// Smallest queue load over the whole sequence (zero for an empty one).
pub open spec fn min_load(ws: Seq<WorkerInfo>) -> nat
    decreases ws.len(),
{
    if ws.len() == 0 {
        0
    } else if ws.len() == 1 {
        ws.last().load as nat
    } else {
        let rest = min_load(ws.drop_last());
        if (ws.last().load as nat) < rest {
            ws.last().load as nat
        } else {
            rest
        }
    }
}

/// `i` is the first healthy index whose load is minimal among healthy
/// workers: ties on load are broken by position, first encountered wins.
pub open spec fn is_first_min_healthy(ws: Seq<WorkerInfo>, i: int) -> bool {
    &&& 0 <= i < ws.len()
    &&& ws[i].healthy
    &&& forall|j: int| 0 <= j < ws.len() && ws[j].healthy ==> ws[i].load <= ws[j].load
    &&& forall|j: int| 0 <= j < i && ws[j].healthy ==> ws[i].load < ws[j].load
}

/// The first-minimal healthy index is unique: selection in imbalance mode
/// and of a decode worker is deterministic.
pub proof fn lemma_first_min_healthy_unique(ws: Seq<WorkerInfo>, i: int, j: int)
    requires
        is_first_min_healthy(ws, i),
        is_first_min_healthy(ws, j),
    ensures
        i == j,
{
}

impl WorkerInfo {
    /// Bump the dispatch counter, leaving every other field as it was.
    /// The counter wraps at its maximum.
    pub fn increment_processed(&mut self)
        ensures
            final(self).url == old(self).url,
            final(self).load == old(self).load,
            final(self).healthy == old(self).healthy,
            final(self).processed_count == spec_bump(old(self).processed_count),
    {
        let c = self.processed_count;
        self.processed_count = if c == u64::MAX {
            0
        } else {
            c + 1
        };
    }
}

/// The dispatch counter after one bump.
pub open spec fn spec_bump(c: u64) -> u64 {
    if c == u64::MAX {
        0
    } else {
        (c + 1) as u64
    }
}

/// The worker sequence after the policy dispatched to index `i`: the same
/// snapshot with only that worker's counter bumped.
pub open spec fn bumped_at(ws: Seq<WorkerInfo>, i: int) -> Seq<WorkerInfo> {
    ws.update(
        i,
        WorkerInfo {
            processed_count: spec_bump(ws[i].processed_count),
            ..ws[i]
        },
    )
}

/// A non-empty sequence's smallest load never exceeds its largest.
pub proof fn lemma_min_le_max(ws: Seq<WorkerInfo>)
    requires
        ws.len() > 0,
    ensures
        min_load(ws) <= max_load(ws),
    decreases ws.len(),
{
    if ws.len() > 1 {
        lemma_min_le_max(ws.drop_last());
    }
}

/// The indices of all healthy workers, in position order.
pub fn healthy_worker_indices(workers: &Vec<WorkerInfo>) -> (r: Vec<usize>)
    ensures
        forall|k: int|
            0 <= k < r@.len() ==> r@[k] < workers@.len() && workers@[r@[k] as int].healthy,
        forall|k1: int, k2: int| 0 <= k1 < k2 < r@.len() ==> r@[k1] < r@[k2],
        forall|i: int|
            0 <= i < workers@.len() && workers@[i].healthy ==> exists|k: int|
                0 <= k < r@.len() && r@[k] == i,
        r@.len() > 0 <==> has_healthy(workers@),
{
    let mut r: Vec<usize> = Vec::new();
    let n = workers.len();
    let mut i: usize = 0;
    while i < n
        invariant
            n == workers@.len(),
            i <= n,
            forall|k: int|
                0 <= k < r@.len() ==> r@[k] < i && workers@[r@[k] as int].healthy,
            forall|k1: int, k2: int| 0 <= k1 < k2 < r@.len() ==> r@[k1] < r@[k2],
            forall|j: int|
                0 <= j < i && workers@[j].healthy ==> exists|k: int|
                    0 <= k < r@.len() && r@[k] == j,
        decreases n - i,
    {
        if workers[i].healthy {
            let ghost r0 = r@;
            r.push(i);
            proof {
                assert forall|j: int| 0 <= j < i + 1 && workers@[j].healthy implies exists|k: int|
                    0 <= k < r@.len() && r@[k] == j by {
                    if j == i as int {
                        assert(r@[r@.len() - 1] == i as usize);
                    } else {
                        let k = choose|k: int| 0 <= k < r0.len() && r0[k] == j;
                        assert(r@[k] == j);
                    }
                }
            }
        }
        i += 1;
    }
    proof {
        if r@.len() > 0 {
            assert(workers@[r@[0] as int].healthy);
        }
    }
    r
}

/// The first healthy index with minimal load among healthy workers, or
/// nothing when no worker is healthy.
pub fn min_load_healthy_index(workers: &Vec<WorkerInfo>) -> (r: Option<usize>)
    ensures
        r is Some <==> has_healthy(workers@),
        r matches Some(i) ==> is_first_min_healthy(workers@, i as int),
{
    let n = workers.len();
    let mut best: Option<usize> = None;
    let mut i: usize = 0;
    while i < n
        invariant
            n == workers@.len(),
            i <= n,
            best is None ==> forall|j: int| 0 <= j < i ==> !workers@[j].healthy,
            best matches Some(b) ==> {
                &&& b < i
                &&& workers@[b as int].healthy
                &&& forall|j: int|
                    0 <= j < i && workers@[j].healthy ==> workers@[b as int].load
                        <= workers@[j].load
                &&& forall|j: int|
                    0 <= j < b && workers@[j].healthy ==> workers@[b as int].load
                        < workers@[j].load
            },
        decreases n - i,
    {
        if workers[i].healthy {
            match best {
                None => {
                    best = Some(i);
                },
                Some(b) => {
                    if workers[i].load < workers[b].load {
                        best = Some(i);
                    }
                },
            }
        }
        i += 1;
    }
    best
}

/// Largest and smallest load over the whole (non-empty) sequence; health is
/// ignored, load being informative even for momentarily unhealthy workers.
pub fn max_min_load(workers: &Vec<WorkerInfo>) -> (r: (usize, usize))
    requires
        workers@.len() > 0,
    ensures
        r.0 == max_load(workers@),
        r.1 == min_load(workers@),
{
    let n = workers.len();
    let mut mx: usize = workers[0].load;
    let mut mn: usize = workers[0].load;
    let mut i: usize = 1;
    proof {
        assert(max_load(Seq::<WorkerInfo>::empty()) == 0);
        assert(workers@.subrange(0, 1).drop_last() =~= Seq::<WorkerInfo>::empty());
        assert(workers@.subrange(0, 1).last() == workers@[0]);
    }
    while i < n
        invariant
            n == workers@.len(),
            1 <= i <= n,
            mx == max_load(workers@.subrange(0, i as int)),
            mn == min_load(workers@.subrange(0, i as int)),
        decreases n - i,
    {
        proof {
            assert(workers@.subrange(0, i + 1).drop_last() =~= workers@.subrange(0, i as int));
            assert(workers@.subrange(0, i + 1).last() == workers@[i as int]);
        }
        let l = workers[i].load;
        if l > mx {
            mx = l;
        }
        if l < mn {
            mn = l;
        }
        i += 1;
    }
    proof {
        assert(workers@.subrange(0, n as int) =~= workers@);
    }
    (mx, mn)
}

} // verus!
