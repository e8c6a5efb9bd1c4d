//! Per-policy configuration and the variant selector consumed by the
//! factory.
//!
//! Threshold ratios and confidence scores are carried as integer
//! per-mille values (1000 stands for a ratio of one), so that the
//! imbalance predicate is exact integer arithmetic.

use vstd::prelude::*;

verus! {

/// Immutable per-policy-instance configuration. The routing core reads the
/// two balance thresholds; the remaining fields belong to the local-tree
/// cache-aware variant and are carried through unchanged.
#[derive(Clone, Copy, PartialEq, Eq, Structural, Debug)]
pub struct RoutingConfig {
    /// Minimum affinity confidence, per mille, to accept a remote match
    /// (consumed by the local-tree variant; informational here).
    pub cache_threshold_permille: u64,
    /// Absolute load gap that, together with the relative gap, triggers
    /// imbalance mode.
    pub balance_abs_threshold: usize,
    /// Ratio of largest to smallest load, per mille, that together with the
    /// absolute gap triggers imbalance mode.
    pub balance_rel_threshold_permille: u64,
    /// Background cache-maintenance period of the local-tree variant.
    pub eviction_interval_secs: u64,
    /// Tree-size bound of the local-tree variant.
    pub max_tree_size: usize,
    /// Cross-node cache-state sync switch of the local-tree variant.
    pub enable_cache_sync: bool,
    /// Cross-node cache-state sync period of the local-tree variant.
    pub sync_interval_secs: u64,
}

impl RoutingConfig {
    /// A relative threshold below a ratio of one would make every nonzero
    /// load pair count as imbalanced.
    pub open spec fn wf(&self) -> bool {
        self.balance_rel_threshold_permille >= 1000
    }

    /// The configuration a policy gets when none is supplied.
    pub open spec fn default_spec() -> RoutingConfig {
        RoutingConfig {
            cache_threshold_permille: 500,
            balance_abs_threshold: 32,
            balance_rel_threshold_permille: 1500,
            eviction_interval_secs: 60,
            max_tree_size: 16777216,
            enable_cache_sync: false,
            sync_interval_secs: 0,
        }
    }
}

impl Default for RoutingConfig {
    fn default() -> (r: Self)
        ensures
            r == RoutingConfig::default_spec(),
            r.wf(),
    {
        RoutingConfig {
            cache_threshold_permille: 500,
            balance_abs_threshold: 32,
            balance_rel_threshold_permille: 1500,
            eviction_interval_secs: 60,
            max_tree_size: 16777216,
            enable_cache_sync: false,
            sync_interval_secs: 0,
        }
    }
}

/// Declarative choice of a routing strategy, built once at router startup
/// and handed to the factory; never mutated afterwards.
pub enum PolicySelector {
    /// Uniform random choice among healthy workers.
    Random,
    /// Cyclic choice among healthy workers.
    RoundRobin,
    /// Sample two workers, keep the less loaded one.
    PowerOfTwo { load_check_interval_secs: u64 },
    /// Purely local cache-affinity policy over a prefix tree.
    CacheAware { config: RoutingConfig },
    /// Hybrid policy: local imbalance detection, remote affinity lookup.
    /// Needs a tokenizer, so only the tokenizer-aware factory entry points
    /// can build it.
    TokenCacheAware { config: RoutingConfig, resolver_endpoint: String },
}

impl PolicySelector {
    /// The configuration invariant, where the variant carries one.
    pub open spec fn wf(&self) -> bool {
        match *self {
            PolicySelector::CacheAware { config } => config.wf(),
            PolicySelector::TokenCacheAware { config, .. } => config.wf(),
            _ => true,
        }
    }
}

} // verus!
