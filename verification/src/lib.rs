//! Request-routing core of a load-balancing layer for pools of model-inference
//! workers.
//!
//! The crate provides the routing-policy framework (the capability surface
//! shared by all strategy variants and the factory that constructs them) and
//! the hybrid token-aware cache-affinity policy: a decision engine that
//! combines local load-imbalance detection with delegation to an external
//! cache-affinity resolver, degrading to random selection among healthy
//! workers whenever the affinity path cannot proceed.
//!
//! The resolver lookup is remote I/O, so a selection is split into a local
//! phase, which either decides outright or asks for a resolver lookup, and a
//! completion phase, which takes whatever the resolver returned as a plain
//! value and finishes the decision. The surrounding router performs the
//! lookup between the two phases.

pub mod config;
pub mod factory;
pub mod token_cache_aware;
pub mod tokenizer;
pub mod worker;
