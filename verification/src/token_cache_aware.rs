//! The hybrid token-aware cache-affinity policy.
//!
//! Per selection the policy runs a fixed cascade: eligibility filter,
//! load-imbalance check, and — only when load is balanced — an affinity
//! lookup against a remote resolver, with random fallback among healthy
//! workers whenever the affinity path cannot proceed.
//!
//! The resolver lookup is remote I/O, which this crate does not perform.
//! A selection therefore has two phases: [`TokenCacheAwarePolicy::select_worker_local`]
//! decides everything that needs no lookup and otherwise hands back the
//! token ids to resolve; the caller performs the lookup and passes whatever
//! came back (or nothing, on any transport failure) to
//! [`TokenCacheAwarePolicy::complete_selection`], which re-validates the
//! resolver's candidate against the live worker set and finishes the
//! decision. Every contract below holds for every possible resolver reply.

use vstd::prelude::*;
use vstd::slice::slice_to_vec;

use crate::config::RoutingConfig;
use crate::tokenizer::Tokenizer;
use crate::worker::{
    bumped_at, has_healthy, healthy_worker_indices, is_first_min_healthy, max_load, max_min_load,
    min_load, min_load_healthy_index, WorkerInfo,
};

use rand::RngExt;

verus! {

/// Which stage of the cascade produced a selection; the surrounding router
/// records it (load-balancing events, cache hits) in its metrics sink.
#[derive(Clone, Copy, PartialEq, Eq, Structural, Debug)]
pub enum SelectionBranch {
    /// Imbalance mode: the least-loaded healthy worker was chosen and cache
    /// affinity was never consulted.
    LoadBalancing,
    /// The resolver's first-ranked worker was present and healthy.
    CacheHit,
    /// Uniform random choice among healthy workers, used whenever the
    /// affinity path could not proceed.
    RandomFallback,
}

/// Outcome of the local phase of a selection.
#[derive(Debug)]
pub enum LocalSelection {
    /// No worker is healthy: the only case in which selection yields no
    /// result.
    NoWorker,
    /// The decision is complete without consulting the resolver.
    Chosen { index: usize, branch: SelectionBranch },
    /// Load is balanced and token ids are in hand: the caller must ask the
    /// resolver about them and finish with `complete_selection`.
    NeedResolve { token_ids: Vec<u32> },
}

/// Outcome of the local phase of a prefill/decode pair selection.
#[derive(Debug)]
pub enum PairLocalSelection {
    /// One side has no healthy worker.
    NoPair,
    /// Both halves are decided without consulting the resolver.
    Chosen { prefill_index: usize, decode_index: usize, branch: SelectionBranch },
    /// The prefill half needs a resolver lookup; finish with
    /// `complete_pair_selection`.
    NeedResolve { token_ids: Vec<u32> },
}

/// The load gap that overrides cache affinity: both the absolute gap and
/// the max/min ratio must exceed their thresholds — a large absolute gap at
/// low overall load, or a large ratio at a small absolute gap, must not
/// trigger imbalance mode alone. Loads of unhealthy workers count too.
pub open spec fn is_imbalanced(config: RoutingConfig, ws: Seq<WorkerInfo>) -> bool {
    &&& max_load(ws) - min_load(ws) > config.balance_abs_threshold as int
    &&& (max_load(ws) as int) * 1000 > (min_load(ws) as int) * (
    config.balance_rel_threshold_permille as int)
}

/// `j` is the position of the first worker whose identity is `url`.
pub open spec fn is_first_match(ws: Seq<WorkerInfo>, url: Seq<char>, j: int) -> bool {
    &&& 0 <= j < ws.len()
    &&& ws[j].url@ == url
    &&& forall|k: int| 0 <= k < j ==> ws[k].url@ != url
}

/// The first-match position is unique: re-validation of the resolver's
/// candidate is deterministic.
pub proof fn lemma_first_match_unique(ws: Seq<WorkerInfo>, url: Seq<char>, i: int, j: int)
    requires
        is_first_match(ws, url, i),
        is_first_match(ws, url, j),
    ensures
        i == j,
{
    if i < j {
        assert(ws[i].url@ != url);
    }
    if j < i {
        assert(ws[j].url@ != url);
    }
}

/// The resolver's reply settles the selection: its ranked list is
/// non-empty and its first-ranked identity names a worker that is present
/// and currently healthy.
pub open spec fn resolver_hit(ws: Seq<WorkerInfo>, ids: Seq<String>) -> bool {
    ids.len() > 0 && exists|j: int| #[trigger] is_first_match(ws, ids[0]@, j) && ws[j].healthy
}

/// Relies on rand: `RngExt::random_range` over `0..n` returns a uniformly
/// drawn value of that range, and panics only on an empty range, which
/// `n > 0` rules out. Nothing more can be promised of a random draw.
#[verifier::external_body]
fn random_below(n: usize) -> (r: usize)
    requires
        n > 0,
    ensures
        r < n,
{
    let mut rng = rand::rng();
    rng.random_range(0..n)
}

/// Uniform random fallback: some healthy index, nothing more promised.
fn random_healthy_index(workers: &Vec<WorkerInfo>) -> (r: usize)
    requires
        has_healthy(workers@),
    ensures
        r < workers@.len(),
        workers@[r as int].healthy,
{
    let healthy = healthy_worker_indices(workers);
    let k = random_below(healthy.len());
    healthy[k]
}

/// The hybrid policy instance: immutable configuration, the injected
/// tokenizer, and the resolver's base endpoint. It holds no mutable state,
/// so concurrent selections are independent.
pub struct TokenCacheAwarePolicy<T: Tokenizer> {
    pub config: RoutingConfig,
    pub tokenizer: T,
    pub nexuts_url: String,
}

impl<T: Tokenizer> TokenCacheAwarePolicy<T> {
    /// A policy with the default configuration and resolver endpoint.
    pub fn new(tokenizer: T) -> (r: Self)
        ensures
            r.config == RoutingConfig::default_spec(),
            r.nexuts_url@ == "http://localhost:8080"@,
            r.tokenizer == tokenizer,
    {
        Self::with_config_and_url(RoutingConfig::default(), "http://localhost:8080".to_owned(), tokenizer)
    }

    /// A policy with the given configuration and the default resolver
    /// endpoint.
    pub fn with_config(config: RoutingConfig, tokenizer: T) -> (r: Self)
        ensures
            r.config == config,
            r.nexuts_url@ == "http://localhost:8080"@,
            r.tokenizer == tokenizer,
    {
        Self::with_config_and_url(config, "http://localhost:8080".to_owned(), tokenizer)
    }

    /// A policy with the given configuration and resolver endpoint.
    pub fn with_config_and_url(config: RoutingConfig, nexuts_url: String, tokenizer: T) -> (r:
        Self)
        ensures
            r.config == config,
            r.nexuts_url == nexuts_url,
            r.tokenizer == tokenizer,
    {
        TokenCacheAwarePolicy { config, tokenizer, nexuts_url }
    }

    /// The policy's configuration.
    pub fn config(&self) -> (r: &RoutingConfig)
        ensures
            *r == self.config,
    {
        &self.config
    }

    /// The resolver's base endpoint.
    pub fn nexuts_url(&self) -> (r: &str)
        ensures
            r@ == self.nexuts_url@,
    {
        self.nexuts_url.as_str()
    }

    /// The injected tokenizer.
    pub fn tokenizer(&self) -> (r: &T)
        ensures
            *r == self.tokenizer,
    {
        &self.tokenizer
    }

    /// Stable identifier, used for metrics labels and name-based lookup.
    pub fn name(&self) -> (r: &'static str)
        ensures
            r@ == "token_cache_aware"@,
    {
        "token_cache_aware"
    }

    /// The affinity branch is only meaningful when the caller supplies
    /// request text or token ids, so callers should not skip tokenization
    /// work for this policy.
    pub fn needs_request_text(&self) -> (r: bool)
        ensures
            r,
    {
        true
    }

    /// Outcome notification, for diagnostics only: this policy does not
    /// adapt future routing decisions to completed requests.
    pub fn on_request_complete(&self, _worker_url: &str, _success: bool) {
    }

    /// The local phase of a selection: the eligibility filter, the
    /// imbalance check, and the token-id acquisition of the affinity
    /// branch. Only a resolver lookup is left to the caller, and only when
    /// the result is `NeedResolve`.
    pub fn select_worker_local(
        &self,
        workers: &mut Vec<WorkerInfo>,
        request_text: Option<&str>,
        token_ids: Option<&[u32]>,
    ) -> (r: LocalSelection)
        ensures
            (r matches LocalSelection::NoWorker) <==> !has_healthy(old(workers)@),
            !has_healthy(old(workers)@) ==> final(workers)@ == old(workers)@,
            has_healthy(old(workers)@) && is_imbalanced(self.config, old(workers)@) ==> (
            r matches LocalSelection::Chosen { index, branch } && branch
                == SelectionBranch::LoadBalancing && is_first_min_healthy(
                old(workers)@,
                index as int,
            ) && final(workers)@ == bumped_at(old(workers)@, index as int)),
            has_healthy(old(workers)@) && !is_imbalanced(self.config, old(workers)@) ==> final(workers)@ == old(workers)@,
            token_ids matches Some(ids) ==> (has_healthy(old(workers)@) && !is_imbalanced(
                self.config,
                old(workers)@,
            ) ==> (r matches LocalSelection::NeedResolve { token_ids: t } && t@ == ids@)),
            has_healthy(old(workers)@) && !is_imbalanced(self.config, old(workers)@) && token_ids
                is None && (request_text is None || (request_text matches Some(t) && t@.len()
                == 0)) ==> (r matches LocalSelection::Chosen { index, branch } && branch
                == SelectionBranch::RandomFallback),
            has_healthy(old(workers)@) && !is_imbalanced(self.config, old(workers)@) && token_ids
                is None && (request_text matches Some(t) && t@.len() > 0) ==> ((
            r matches LocalSelection::NeedResolve { .. }) || (r matches LocalSelection::Chosen {
                index,
                branch,
            } && branch == SelectionBranch::RandomFallback)),
            r matches LocalSelection::Chosen { index, branch } ==> index < old(workers)@.len()
                && old(workers)@[index as int].healthy,
            r matches LocalSelection::NeedResolve { .. } ==> has_healthy(old(workers)@)
                && !is_imbalanced(self.config, old(workers)@),
    {
        let healthy = healthy_worker_indices(workers);
        if healthy.len() == 0 {
            return LocalSelection::NoWorker;
        }
        let (mx, mn) = max_min_load(workers);
        proof {
            crate::worker::lemma_min_le_max(workers@);
            vstd::arithmetic::mul::lemma_mul_upper_bound(
                mn as int,
                u64::MAX as int,
                self.config.balance_rel_threshold_permille as int,
                u64::MAX as int,
            );
        }
        let gap = mx - mn;
        let imbalanced = gap > self.config.balance_abs_threshold && (mx as u128) * 1000 > (
        mn as u128) * (self.config.balance_rel_threshold_permille as u128);
        if imbalanced {
            let index = min_load_healthy_index(workers).unwrap();
            let w = &mut workers[index];
            w.increment_processed();
            return LocalSelection::Chosen { index, branch: SelectionBranch::LoadBalancing };
        }
        let resolved_ids: Vec<u32> = match token_ids {
            Some(t) => slice_to_vec(t),
            None => {
                match request_text {
                    None => {
                        let index = random_healthy_index(workers);
                        return LocalSelection::Chosen {
                            index,
                            branch: SelectionBranch::RandomFallback,
                        };
                    },
                    Some(text) => {
                        if text.is_empty() {
                            let index = random_healthy_index(workers);
                            return LocalSelection::Chosen {
                                index,
                                branch: SelectionBranch::RandomFallback,
                            };
                        }
                        match self.tokenizer.encode(text) {
                            Ok(t) => t,
                            Err(_) => {
                                let index = random_healthy_index(workers);
                                return LocalSelection::Chosen {
                                    index,
                                    branch: SelectionBranch::RandomFallback,
                                };
                            },
                        }
                    },
                }
            },
        };
        LocalSelection::NeedResolve { token_ids: resolved_ids }
    }

    /// The completion phase: re-validate what the resolver returned against
    /// the live worker set. `reply` is the ranked identity list of a
    /// successful lookup, or nothing on any transport failure, timeout or
    /// non-success status. A hit — non-empty list whose first identity
    /// names a present, healthy worker — deterministically selects that
    /// worker and is the only cache-hit outcome; everything else degrades
    /// to random fallback among healthy workers, never to an error.
    pub fn complete_selection(
        &self,
        workers: &mut Vec<WorkerInfo>,
        reply: Option<&Vec<String>>,
    ) -> (r: (usize, SelectionBranch))
        requires
            has_healthy(old(workers)@),
        ensures
            r.0 < old(workers)@.len(),
            old(workers)@[r.0 as int].healthy,
            reply matches Some(ids) ==> (resolver_hit(old(workers)@, ids@) ==> (r.1
                == SelectionBranch::CacheHit && is_first_match(old(workers)@, ids@[0]@, r.0 as int)
                && final(workers)@ == bumped_at(old(workers)@, r.0 as int))),
            (reply is None || (reply matches Some(ids) && !resolver_hit(old(workers)@, ids@)))
                ==> (r.1 == SelectionBranch::RandomFallback && final(workers)@ == old(workers)@),
    {
        let ghost ws = workers@;
        let mut choice: Option<usize> = None;
        match reply {
            None => {},
            Some(ids) => {
                if ids.len() > 0 {
                    let target = &ids[0];
                    let n = workers.len();
                    let mut i: usize = 0;
                    let mut found: Option<usize> = None;
                    while i < n
                        invariant
                            workers@ == ws,
                            n == ws.len(),
                            i <= n,
                            found is None ==> forall|k: int|
                                0 <= k < i ==> ws[k].url@ != target@,
                            found matches Some(j) ==> is_first_match(ws, target@, j as int),
                        decreases n - i,
                    {
                        if found.is_none() {
                            if workers[i].url == *target {
                                found = Some(i);
                            }
                        }
                        i += 1;
                    }
                    match found {
                        Some(j) => {
                            if workers[j].healthy {
                                choice = Some(j);
                            } else {
                                proof {
                                    if resolver_hit(ws, ids@) {
                                        let j2 = choose|j2: int|
                                            is_first_match(ws, ids@[0]@, j2) && ws[j2].healthy;
                                        lemma_first_match_unique(ws, ids@[0]@, j as int, j2);
                                    }
                                }
                            }
                        },
                        None => {
                            proof {
                                if resolver_hit(ws, ids@) {
                                    let j2 = choose|j2: int|
                                        is_first_match(ws, ids@[0]@, j2) && ws[j2].healthy;
                                }
                            }
                        },
                    }
                }
            },
        }
        match choice {
            Some(index) => {
                let w = &mut workers[index];
                w.increment_processed();
                (index, SelectionBranch::CacheHit)
            },
            None => (random_healthy_index(workers), SelectionBranch::RandomFallback),
        }
    }

    /// The local phase of a prefill/decode pair selection: the full cascade
    /// chooses the prefill worker; the decode worker is chosen purely by
    /// minimum load among healthy decode workers, decode being compute-bound
    /// and no cache-affinity target.
    pub fn select_worker_pair_local(
        &self,
        prefill_workers: &mut Vec<WorkerInfo>,
        decode_workers: &Vec<WorkerInfo>,
        request_text: Option<&str>,
        token_ids: Option<&[u32]>,
    ) -> (r: PairLocalSelection)
        ensures
            !has_healthy(old(prefill_workers)@) ==> (r matches PairLocalSelection::NoPair) && final(prefill_workers)@ == old(prefill_workers)@,
            has_healthy(old(prefill_workers)@) && is_imbalanced(self.config, old(prefill_workers)@)
                ==> (exists|i: int|
                is_first_min_healthy(old(prefill_workers)@, i) && final(prefill_workers)@
                    == bumped_at(old(prefill_workers)@, i)) && (if has_healthy(decode_workers@) {
                r matches PairLocalSelection::Chosen { prefill_index, decode_index, branch }
                    && branch == SelectionBranch::LoadBalancing && is_first_min_healthy(
                    old(prefill_workers)@,
                    prefill_index as int,
                ) && is_first_min_healthy(decode_workers@, decode_index as int)
            } else {
                r matches PairLocalSelection::NoPair
            }),
            has_healthy(old(prefill_workers)@) && !is_imbalanced(
                self.config,
                old(prefill_workers)@,
            ) ==> final(prefill_workers)@ == old(prefill_workers)@,
            token_ids matches Some(ids) ==> (has_healthy(old(prefill_workers)@) && !is_imbalanced(
                self.config,
                old(prefill_workers)@,
            ) ==> (r matches PairLocalSelection::NeedResolve { token_ids: t } && t@ == ids@)),
            has_healthy(old(prefill_workers)@) && !is_imbalanced(
                self.config,
                old(prefill_workers)@,
            ) && token_ids is None && (request_text is None || (request_text matches Some(t)
                && t@.len() == 0)) ==> (if has_healthy(decode_workers@) {
                r matches PairLocalSelection::Chosen { prefill_index, decode_index, branch }
                    && branch == SelectionBranch::RandomFallback
            } else {
                r matches PairLocalSelection::NoPair
            }),
            r matches PairLocalSelection::Chosen { prefill_index, decode_index, branch } ==> (
            prefill_index < old(prefill_workers)@.len() && old(prefill_workers)@[prefill_index as int].healthy && is_first_min_healthy(
                decode_workers@,
                decode_index as int,
            )),
            r matches PairLocalSelection::NeedResolve { .. } ==> has_healthy(
                old(prefill_workers)@,
            ) && !is_imbalanced(self.config, old(prefill_workers)@) && final(prefill_workers)@
                == old(prefill_workers)@,
            has_healthy(old(prefill_workers)@) && has_healthy(decode_workers@) ==> !(
            r matches PairLocalSelection::NoPair),
            (r matches PairLocalSelection::NoPair) ==> !has_healthy(old(prefill_workers)@)
                || !has_healthy(decode_workers@),
    {
        let local = self.select_worker_local(prefill_workers, request_text, token_ids);
        match local {
            LocalSelection::NoWorker => PairLocalSelection::NoPair,
            LocalSelection::NeedResolve { token_ids: t } => PairLocalSelection::NeedResolve {
                token_ids: t,
            },
            LocalSelection::Chosen { index, branch } => {
                match min_load_healthy_index(decode_workers) {
                    None => PairLocalSelection::NoPair,
                    Some(decode_index) => PairLocalSelection::Chosen {
                        prefill_index: index,
                        decode_index,
                        branch,
                    },
                }
            },
        }
    }

    /// The completion phase of a pair selection: finish the prefill half
    /// with the resolver's reply, then choose the decode worker by minimum
    /// load. Yields nothing only when no decode worker is healthy — the
    /// prefill dispatch counter has then already been bumped if the reply
    /// was a hit, as the prefill half completed first.
    pub fn complete_pair_selection(
        &self,
        prefill_workers: &mut Vec<WorkerInfo>,
        decode_workers: &Vec<WorkerInfo>,
        reply: Option<&Vec<String>>,
    ) -> (r: Option<(usize, usize)>)
        requires
            has_healthy(old(prefill_workers)@),
        ensures
            (r is Some) <==> has_healthy(decode_workers@),
            r matches Some(pair) ==> (pair.0 < old(prefill_workers)@.len() && old(prefill_workers)@[pair.0 as int].healthy && is_first_min_healthy(decode_workers@, pair.1 as int)),
            reply matches Some(ids) ==> (resolver_hit(old(prefill_workers)@, ids@) ==> ((exists|j: int|
                is_first_match(old(prefill_workers)@, ids@[0]@, j) && final(prefill_workers)@
                    == bumped_at(old(prefill_workers)@, j)) && (r matches Some(pair)
                ==> is_first_match(old(prefill_workers)@, ids@[0]@, pair.0 as int)))),
            (reply is None || (reply matches Some(ids) && !resolver_hit(
                old(prefill_workers)@,
                ids@,
            ))) ==> final(prefill_workers)@ == old(prefill_workers)@,
    {
        let (prefill_index, _branch) = self.complete_selection(prefill_workers, reply);
        match min_load_healthy_index(decode_workers) {
            None => None,
            Some(decode_index) => Some((prefill_index, decode_index)),
        }
    }
}

} // verus!
