//! The policy factory: turns a declarative selector or a bare name into a
//! constructed policy instance, injecting the tokenizer dependency where
//! the chosen variant requires it.
//!
//! The two failure shapes are deliberately distinct. Handing the hybrid
//! selector to a config-typed entry point that cannot supply a tokenizer
//! violates a documented precondition of the caller's own configuration:
//! that is a hard [`FactoryError`], never silently substituted by a
//! different policy. A name-based lookup is best-effort: a name that
//! resolves to the hybrid variant on a path without a tokenizer is an
//! ordinary absence, reported as nothing.

use vstd::prelude::*;
use vstd::string::StrSliceExecFns;

use crate::config::{PolicySelector, RoutingConfig};
use crate::token_cache_aware::TokenCacheAwarePolicy;
use crate::tokenizer::{NoTokenizer, Tokenizer};

verus! {

/// The code point of `c` with an ASCII capital folded to its small form.
pub open spec fn lower_code(c: char) -> int {
    if 65 <= c as int && c as int <= 90 {
        c as int + 32
    } else {
        c as int
    }
}

/// Equality of two character sequences up to ASCII case.
pub open spec fn eq_ignore_ascii_case(a: Seq<char>, b: Seq<char>) -> bool {
    a.len() == b.len() && forall|i: int| 0 <= i < a.len() ==> lower_code(a[i]) == lower_code(b[i])
}

/// `name` equals one of the lookup keys that name a constructible
/// non-tokenizer variant.
pub open spec fn names_plain_variant(name: Seq<char>) -> bool {
    ||| eq_ignore_ascii_case(name, "random"@)
    ||| eq_ignore_ascii_case(name, "round_robin"@)
    ||| eq_ignore_ascii_case(name, "roundrobin"@)
    ||| eq_ignore_ascii_case(name, "power_of_two"@)
    ||| eq_ignore_ascii_case(name, "poweroftwo"@)
    ||| eq_ignore_ascii_case(name, "cache_aware"@)
    ||| eq_ignore_ascii_case(name, "cacheaware"@)
}

/// `name` equals one of the lookup keys of the hybrid variant.
pub open spec fn names_hybrid_variant(name: Seq<char>) -> bool {
    ||| eq_ignore_ascii_case(name, "token_cache_aware"@)
    ||| eq_ignore_ascii_case(name, "tokencacheaware"@)
}

/// Two keys that differ, after case folding, at one position cannot both
/// equal the same name up to case.
proof fn lemma_eq_ic_distinct(name: Seq<char>, a: Seq<char>, b: Seq<char>, i: int)
    requires
        eq_ignore_ascii_case(name, a),
        0 <= i < a.len(),
        a.len() == b.len(),
        lower_code(a[i]) != lower_code(b[i]),
    ensures
        !eq_ignore_ascii_case(name, b),
{
    if eq_ignore_ascii_case(name, b) {
        assert(lower_code(name[i]) == lower_code(a[i]));
        assert(lower_code(name[i]) == lower_code(b[i]));
    }
}

fn lower_code_exec(c: char) -> (r: u32)
    ensures
        r as int == lower_code(c),
{
    let u = c as u32;
    if 65 <= u && u <= 90 {
        u + 32
    } else {
        u
    }
}

/// Case-insensitive comparison of a looked-up name against a key.
fn name_matches(name: &str, key: &str) -> (r: bool)
    ensures
        r == eq_ignore_ascii_case(name@, key@),
{
    let n = name.unicode_len();
    if n != key.unicode_len() {
        return false;
    }
    let mut i: usize = 0;
    while i < n
        invariant
            n == name@.len(),
            n == key@.len(),
            i <= n,
            forall|j: int| 0 <= j < i ==> lower_code(name@[j]) == lower_code(key@[j]),
        decreases n - i,
    {
        let a = name.get_char(i);
        let b = key.get_char(i);
        if lower_code_exec(a) != lower_code_exec(b) {
            return false;
        }
        i += 1;
    }
    true
}

/// A constructed routing-policy instance: the closed set of strategy
/// variants behind one capability surface, selected once at construction.
pub enum PolicyInstance<T: Tokenizer> {
    /// Uniform random choice among healthy workers.
    Random,
    /// Cyclic choice among healthy workers.
    RoundRobin,
    /// Sample two workers, keep the less loaded one.
    PowerOfTwo,
    /// Purely local cache-affinity policy over a prefix tree.
    CacheAware { config: RoutingConfig },
    /// The hybrid token-aware cache-affinity policy.
    TokenCacheAware { policy: TokenCacheAwarePolicy<T> },
}

impl<T: Tokenizer> PolicyInstance<T> {
    /// The stable identifier of the instance's variant.
    pub open spec fn spec_name(&self) -> Seq<char> {
        match *self {
            PolicyInstance::Random => "random"@,
            PolicyInstance::RoundRobin => "round_robin"@,
            PolicyInstance::PowerOfTwo => "power_of_two"@,
            PolicyInstance::CacheAware { .. } => "cache_aware"@,
            PolicyInstance::TokenCacheAware { .. } => "token_cache_aware"@,
        }
    }

    /// Whether the variant reads request text or token ids.
    pub open spec fn spec_needs_request_text(&self) -> bool {
        match *self {
            PolicyInstance::CacheAware { .. } => true,
            PolicyInstance::TokenCacheAware { .. } => true,
            _ => false,
        }
    }

    /// Stable identifier used for metrics labeling and factory lookup.
    pub fn name(&self) -> (r: &'static str)
        ensures
            r@ == self.spec_name(),
    {
        match self {
            PolicyInstance::Random => "random",
            PolicyInstance::RoundRobin => "round_robin",
            PolicyInstance::PowerOfTwo => "power_of_two",
            PolicyInstance::CacheAware { .. } => "cache_aware",
            PolicyInstance::TokenCacheAware { .. } => "token_cache_aware",
        }
    }

    /// Whether callers must supply text or token ids for this variant; the
    /// load-based variants ignore request context entirely.
    pub fn needs_request_text(&self) -> (r: bool)
        ensures
            r == self.spec_needs_request_text(),
    {
        match self {
            PolicyInstance::CacheAware { .. } => true,
            PolicyInstance::TokenCacheAware { .. } => true,
            _ => false,
        }
    }
}

/// The hard failure of the config-typed entry points: an invariant of the
/// caller's configuration was violated.
#[derive(Clone, Copy, PartialEq, Eq, Structural, Debug)]
pub enum FactoryError {
    /// The hybrid selector reached an entry point with no tokenizer to
    /// inject.
    TokenizerRequired,
}

/// The configuration the hybrid variant is actually built with: cross-node
/// cache-sync is forced off, the hybrid having no local tree to
/// synchronize.
pub open spec fn hybrid_config(c: RoutingConfig) -> RoutingConfig {
    RoutingConfig { enable_cache_sync: false, sync_interval_secs: 0, ..c }
}

/// Factory for creating policy instances.
pub struct PolicyFactory;

impl PolicyFactory {
    /// Build an instance from a declarative selector. The hybrid selector
    /// always fails hard here: it cannot be constructed without a
    /// tokenizer, and reaching this entry point with it means the caller's
    /// own configuration invariant was violated.
    pub fn create_from_config(selector: &PolicySelector) -> (r: Result<
        PolicyInstance<NoTokenizer>,
        FactoryError,
    >)
        ensures
            (r is Err) <==> (selector matches PolicySelector::TokenCacheAware { .. }),
            r matches Err(e) ==> e == FactoryError::TokenizerRequired,
            selector matches PolicySelector::Random ==> (r matches Ok(p) && p
                matches PolicyInstance::Random),
            selector matches PolicySelector::RoundRobin ==> (r matches Ok(p) && p
                matches PolicyInstance::RoundRobin),
            selector matches PolicySelector::PowerOfTwo { .. } ==> (r matches Ok(p) && p
                matches PolicyInstance::PowerOfTwo),
            selector matches PolicySelector::CacheAware { config: c } ==> (r matches Ok(p) && p
                matches PolicyInstance::CacheAware { config } && config == *c),
    {
        match selector {
            PolicySelector::Random => Ok(PolicyInstance::Random),
            PolicySelector::RoundRobin => Ok(PolicyInstance::RoundRobin),
            PolicySelector::PowerOfTwo { .. } => Ok(PolicyInstance::PowerOfTwo),
            PolicySelector::CacheAware { config } => Ok(
                PolicyInstance::CacheAware { config: *config },
            ),
            PolicySelector::TokenCacheAware { .. } => Err(FactoryError::TokenizerRequired),
        }
    }

    /// Build an instance from a declarative selector, with a tokenizer to
    /// inject when the hybrid variant is selected; fails hard only when
    /// that variant is selected and the tokenizer is absent.
    pub fn create_from_config_with_tokenizer<T: Tokenizer>(
        selector: &PolicySelector,
        tokenizer: Option<T>,
    ) -> (r: Result<PolicyInstance<T>, FactoryError>)
        ensures
            (r is Err) <==> (selector matches PolicySelector::TokenCacheAware { .. } && tokenizer
                is None),
            r matches Err(e) ==> e == FactoryError::TokenizerRequired,
            selector matches PolicySelector::Random ==> (r matches Ok(p) && p
                matches PolicyInstance::Random),
            selector matches PolicySelector::RoundRobin ==> (r matches Ok(p) && p
                matches PolicyInstance::RoundRobin),
            selector matches PolicySelector::PowerOfTwo { .. } ==> (r matches Ok(p) && p
                matches PolicyInstance::PowerOfTwo),
            selector matches PolicySelector::CacheAware { config: c } ==> (r matches Ok(p) && p
                matches PolicyInstance::CacheAware { config } && config == *c),
            selector matches PolicySelector::TokenCacheAware { config: c, resolver_endpoint: u }
                ==> (tokenizer matches Some(tok) ==> (r matches Ok(p) && p
                matches PolicyInstance::TokenCacheAware { policy } && policy.config
                == hybrid_config(*c) && policy.nexuts_url@ == u@ && policy.tokenizer == tok)),
    {
        match selector {
            PolicySelector::Random => Ok(PolicyInstance::Random),
            PolicySelector::RoundRobin => Ok(PolicyInstance::RoundRobin),
            PolicySelector::PowerOfTwo { .. } => Ok(PolicyInstance::PowerOfTwo),
            PolicySelector::CacheAware { config } => Ok(
                PolicyInstance::CacheAware { config: *config },
            ),
            PolicySelector::TokenCacheAware { config, resolver_endpoint } => {
                match tokenizer {
                    None => Err(FactoryError::TokenizerRequired),
                    Some(tok) => {
                        let cfg = RoutingConfig {
                            enable_cache_sync: false,
                            sync_interval_secs: 0,
                            ..*config
                        };
                        Ok(
                            PolicyInstance::TokenCacheAware {
                                policy: TokenCacheAwarePolicy::with_config_and_url(
                                    cfg,
                                    resolver_endpoint.clone(),
                                    tok,
                                ),
                            },
                        )
                    },
                }
            },
        }
    }

    /// Best-effort lookup by case-insensitive name among the variants that
    /// need no tokenizer. A name of the hybrid variant yields nothing on
    /// this path — a recoverable absence, not a hard failure, since the
    /// caller of a bare name cannot be assumed to know the dependency
    /// requirement.
    pub fn create_by_name(name: &str) -> (r: Option<PolicyInstance<NoTokenizer>>)
        ensures
            (r is Some) <==> names_plain_variant(name@),
            names_hybrid_variant(name@) ==> r is None,
            eq_ignore_ascii_case(name@, "random"@) ==> (r matches Some(p) && p
                matches PolicyInstance::Random),
            eq_ignore_ascii_case(name@, "round_robin"@) || eq_ignore_ascii_case(
                name@,
                "roundrobin"@,
            ) ==> (r matches Some(p) && p matches PolicyInstance::RoundRobin),
            eq_ignore_ascii_case(name@, "power_of_two"@) || eq_ignore_ascii_case(
                name@,
                "poweroftwo"@,
            ) ==> (r matches Some(p) && p matches PolicyInstance::PowerOfTwo),
            eq_ignore_ascii_case(name@, "cache_aware"@) || eq_ignore_ascii_case(
                name@,
                "cacheaware"@,
            ) ==> (r matches Some(p) && p matches PolicyInstance::CacheAware { config } && config
                == RoutingConfig::default_spec()),
    {
        proof {
            reveal_strlit("random");
            reveal_strlit("round_robin");
            reveal_strlit("roundrobin");
            reveal_strlit("power_of_two");
            reveal_strlit("poweroftwo");
            reveal_strlit("cache_aware");
            reveal_strlit("cacheaware");
            reveal_strlit("token_cache_aware");
            reveal_strlit("tokencacheaware");
        }
        if name_matches(name, "random") {
            Some(PolicyInstance::Random)
        } else if name_matches(name, "round_robin") || name_matches(name, "roundrobin") {
            proof {
                if eq_ignore_ascii_case(name@, "roundrobin"@) {
                    lemma_eq_ic_distinct(name@, "roundrobin"@, "poweroftwo"@, 0);
                    lemma_eq_ic_distinct(name@, "roundrobin"@, "cacheaware"@, 0);
                }
                if eq_ignore_ascii_case(name@, "round_robin"@) {
                    lemma_eq_ic_distinct(name@, "round_robin"@, "cache_aware"@, 0);
                }
            }
            Some(PolicyInstance::RoundRobin)
        } else if name_matches(name, "power_of_two") || name_matches(name, "poweroftwo") {
            proof {
                if eq_ignore_ascii_case(name@, "poweroftwo"@) {
                    lemma_eq_ic_distinct(name@, "poweroftwo"@, "cacheaware"@, 0);
                }
            }
            Some(PolicyInstance::PowerOfTwo)
        } else if name_matches(name, "cache_aware") || name_matches(name, "cacheaware") {
            Some(PolicyInstance::CacheAware { config: RoutingConfig::default() })
        } else {
            None
        }
    }

    /// The same lookup with a tokenizer in hand, so the hybrid variant's
    /// names are constructible too, with the default configuration and
    /// resolver endpoint.
    pub fn create_by_name_with_tokenizer<T: Tokenizer>(name: &str, tokenizer: T) -> (r: Option<
        PolicyInstance<T>,
    >)
        ensures
            (r is Some) <==> (names_plain_variant(name@) || names_hybrid_variant(name@)),
            eq_ignore_ascii_case(name@, "random"@) ==> (r matches Some(p) && p
                matches PolicyInstance::Random),
            eq_ignore_ascii_case(name@, "round_robin"@) || eq_ignore_ascii_case(
                name@,
                "roundrobin"@,
            ) ==> (r matches Some(p) && p matches PolicyInstance::RoundRobin),
            eq_ignore_ascii_case(name@, "power_of_two"@) || eq_ignore_ascii_case(
                name@,
                "poweroftwo"@,
            ) ==> (r matches Some(p) && p matches PolicyInstance::PowerOfTwo),
            eq_ignore_ascii_case(name@, "cache_aware"@) || eq_ignore_ascii_case(
                name@,
                "cacheaware"@,
            ) ==> (r matches Some(p) && p matches PolicyInstance::CacheAware { config } && config
                == RoutingConfig::default_spec()),
            names_hybrid_variant(name@) ==> (r matches Some(p) && p
                matches PolicyInstance::TokenCacheAware { policy } && policy.config
                == RoutingConfig::default_spec() && policy.nexuts_url@ == "http://localhost:8080"@
                && policy.tokenizer == tokenizer),
    {
        proof {
            reveal_strlit("random");
            reveal_strlit("round_robin");
            reveal_strlit("roundrobin");
            reveal_strlit("power_of_two");
            reveal_strlit("poweroftwo");
            reveal_strlit("cache_aware");
            reveal_strlit("cacheaware");
            reveal_strlit("token_cache_aware");
            reveal_strlit("tokencacheaware");
        }
        if name_matches(name, "random") {
            Some(PolicyInstance::Random)
        } else if name_matches(name, "round_robin") || name_matches(name, "roundrobin") {
            proof {
                if eq_ignore_ascii_case(name@, "roundrobin"@) {
                    lemma_eq_ic_distinct(name@, "roundrobin"@, "poweroftwo"@, 0);
                    lemma_eq_ic_distinct(name@, "roundrobin"@, "cacheaware"@, 0);
                }
                if eq_ignore_ascii_case(name@, "round_robin"@) {
                    lemma_eq_ic_distinct(name@, "round_robin"@, "cache_aware"@, 0);
                }
            }
            Some(PolicyInstance::RoundRobin)
        } else if name_matches(name, "power_of_two") || name_matches(name, "poweroftwo") {
            proof {
                if eq_ignore_ascii_case(name@, "poweroftwo"@) {
                    lemma_eq_ic_distinct(name@, "poweroftwo"@, "cacheaware"@, 0);
                }
            }
            Some(PolicyInstance::PowerOfTwo)
        } else if name_matches(name, "cache_aware") || name_matches(name, "cacheaware") {
            Some(PolicyInstance::CacheAware { config: RoutingConfig::default() })
        } else if name_matches(name, "token_cache_aware") || name_matches(name, "tokencacheaware") {
            Some(PolicyInstance::TokenCacheAware { policy: TokenCacheAwarePolicy::new(tokenizer) })
        } else {
            None
        }
    }
}

} // verus!

