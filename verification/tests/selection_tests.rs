use router_policies::token_cache_aware::{
    LocalSelection, PairLocalSelection, SelectionBranch, TokenCacheAwarePolicy,
};
use router_policies::config::RoutingConfig;
use router_policies::tokenizer::{NoTokenizer, TokenizeError, Tokenizer};
use router_policies::worker::WorkerInfo;

struct ByteTokenizer;

impl Tokenizer for ByteTokenizer {
    fn encode(&self, text: &str) -> Result<Vec<u32>, TokenizeError> {
        Ok(text.bytes().map(|b| b as u32).collect())
    }
}

struct FailingTokenizer;

impl Tokenizer for FailingTokenizer {
    fn encode(&self, _text: &str) -> Result<Vec<u32>, TokenizeError> {
        Err(TokenizeError {
            message: "no vocabulary".to_string(),
        })
    }
}

fn worker(url: &str, load: usize, healthy: bool) -> WorkerInfo {
    WorkerInfo {
        url: url.to_string(),
        load,
        healthy,
        processed_count: 0,
    }
}

fn config(abs: usize, rel_permille: u64) -> RoutingConfig {
    RoutingConfig {
        balance_abs_threshold: abs,
        balance_rel_threshold_permille: rel_permille,
        ..RoutingConfig::default()
    }
}

fn policy(abs: usize, rel_permille: u64) -> TokenCacheAwarePolicy<ByteTokenizer> {
    TokenCacheAwarePolicy::with_config(config(abs, rel_permille), ByteTokenizer)
}

#[test]
fn imbalanced_pool_selects_least_loaded_healthy_worker() {
    // workers A(load 5) and B(load 50), gap 45 > 10 and 50 > 5 * 1.5
    let p = policy(10, 1500);
    let mut workers = vec![worker("A", 5, true), worker("B", 50, true)];
    let r = p.select_worker_local(&mut workers, None, Some(&[1, 2, 3]));
    match r {
        LocalSelection::Chosen { index, branch } => {
            assert_eq!(index, 0);
            assert_eq!(branch, SelectionBranch::LoadBalancing);
        }
        _ => panic!("expected a load-balancing decision"),
    }
    assert_eq!(workers[0].processed_count, 1);
    assert_eq!(workers[1].processed_count, 0);
}

#[test]
fn imbalance_ties_break_to_first_healthy_worker() {
    let p = policy(10, 1500);
    let mut workers = vec![
        worker("A", 3, false),
        worker("B", 3, true),
        worker("C", 3, true),
        worker("D", 90, true),
    ];
    let r = p.select_worker_local(&mut workers, None, None);
    match r {
        LocalSelection::Chosen { index, branch } => {
            assert_eq!(index, 1);
            assert_eq!(branch, SelectionBranch::LoadBalancing);
        }
        _ => panic!("expected a load-balancing decision"),
    }
}

#[test]
fn imbalance_needs_both_thresholds() {
    // Large absolute gap, small ratio: 112 - 100 = 12 > 10 but 112 < 100 * 1.5.
    let p = policy(10, 1500);
    let mut workers = vec![worker("A", 100, true), worker("B", 112, true)];
    let r = p.select_worker_local(&mut workers, None, Some(&[7]));
    assert!(matches!(r, LocalSelection::NeedResolve { .. }));

    // Large ratio, small absolute gap: 9 - 1 = 8 <= 10 although 9 > 1 * 1.5.
    let p = policy(10, 1500);
    let mut workers = vec![worker("A", 1, true), worker("B", 9, true)];
    let r = p.select_worker_local(&mut workers, None, Some(&[7]));
    assert!(matches!(r, LocalSelection::NeedResolve { .. }));
}

#[test]
fn no_healthy_worker_yields_nothing() {
    let p = policy(10, 1500);
    let mut workers: Vec<WorkerInfo> = Vec::new();
    assert!(matches!(
        p.select_worker_local(&mut workers, Some("hello"), None),
        LocalSelection::NoWorker
    ));

    let mut workers = vec![worker("A", 5, false), worker("B", 50, false)];
    assert!(matches!(
        p.select_worker_local(&mut workers, Some("hello"), None),
        LocalSelection::NoWorker
    ));
    assert_eq!(workers[0].processed_count, 0);
    assert_eq!(workers[1].processed_count, 0);
}

#[test]
fn supplied_token_ids_take_precedence_over_text() {
    let p = policy(100, 1500);
    let mut workers = vec![worker("A", 5, true), worker("B", 6, true)];
    let r = p.select_worker_local(&mut workers, Some("would tokenize to bytes"), Some(&[9, 8, 7]));
    match r {
        LocalSelection::NeedResolve { token_ids } => assert_eq!(token_ids, vec![9, 8, 7]),
        _ => panic!("expected a resolver request"),
    }
}

#[test]
fn balanced_pool_tokenizes_request_text() {
    let p = policy(100, 1500);
    let mut workers = vec![worker("A", 5, true), worker("B", 6, true)];
    let r = p.select_worker_local(&mut workers, Some("ab"), None);
    match r {
        LocalSelection::NeedResolve { token_ids } => assert_eq!(token_ids, vec![97, 98]),
        _ => panic!("expected a resolver request"),
    }
}

#[test]
fn empty_request_context_falls_back_to_random_healthy() {
    let p = policy(100, 1500);
    let mut workers = vec![worker("A", 5, false), worker("B", 6, true)];
    let cases: [Option<&str>; 2] = [None, Some("")];
    for text in cases {
        let r = p.select_worker_local(&mut workers, text, None);
        match r {
            LocalSelection::Chosen { index, branch } => {
                assert_eq!(index, 1, "only the healthy worker is eligible");
                assert_eq!(branch, SelectionBranch::RandomFallback);
            }
            _ => panic!("expected a random fallback"),
        }
    }
    // The fallback does not bump the dispatch counter.
    assert_eq!(workers[1].processed_count, 0);
}

#[test]
fn tokenizer_failure_degrades_to_random_fallback() {
    let p = TokenCacheAwarePolicy::with_config(config(100, 1500), FailingTokenizer);
    let mut workers = vec![worker("A", 5, true), worker("B", 6, false)];
    let r = p.select_worker_local(&mut workers, Some("some request"), None);
    match r {
        LocalSelection::Chosen { index, branch } => {
            assert_eq!(index, 0);
            assert_eq!(branch, SelectionBranch::RandomFallback);
        }
        _ => panic!("expected a random fallback"),
    }
}

#[test]
fn resolver_hit_selects_matched_worker_deterministically() {
    let p = policy(100, 1500);
    let mut workers = vec![worker("A", 5, true), worker("B", 6, true)];
    let reply = vec!["B".to_string(), "A".to_string()];
    let (index, branch) = p.complete_selection(&mut workers, Some(&reply));
    assert_eq!(index, 1);
    assert_eq!(branch, SelectionBranch::CacheHit);
    assert_eq!(workers[1].processed_count, 1);
    assert_eq!(workers[0].processed_count, 0);
}

#[test]
fn resolver_failure_or_empty_reply_falls_back_to_random() {
    let p = policy(100, 1500);
    let mut workers = vec![worker("A", 5, false), worker("B", 6, true)];

    let (index, branch) = p.complete_selection(&mut workers, None);
    assert_eq!(index, 1);
    assert_eq!(branch, SelectionBranch::RandomFallback);

    let empty: Vec<String> = Vec::new();
    let (index, branch) = p.complete_selection(&mut workers, Some(&empty));
    assert_eq!(index, 1);
    assert_eq!(branch, SelectionBranch::RandomFallback);
    assert_eq!(workers[1].processed_count, 0);
}

#[test]
fn unknown_or_unhealthy_resolver_candidate_falls_back() {
    let p = policy(100, 1500);

    // Candidate not present in the worker set.
    let mut workers = vec![worker("A", 5, true), worker("B", 6, true)];
    let reply = vec!["C".to_string()];
    let (index, branch) = p.complete_selection(&mut workers, Some(&reply));
    assert!(index < 2);
    assert_eq!(branch, SelectionBranch::RandomFallback);

    // Candidate present but unhealthy: never selected.
    let mut workers = vec![worker("A", 5, true), worker("B", 6, false)];
    let reply = vec!["B".to_string()];
    let (index, branch) = p.complete_selection(&mut workers, Some(&reply));
    assert_eq!(index, 0);
    assert_eq!(branch, SelectionBranch::RandomFallback);
    assert_eq!(workers[1].processed_count, 0);
}

#[test]
fn resolver_match_goes_to_first_occurrence_of_identity() {
    let p = policy(100, 1500);
    let mut workers = vec![worker("A", 5, true), worker("B", 6, true), worker("B", 7, true)];
    let reply = vec!["B".to_string()];
    let (index, branch) = p.complete_selection(&mut workers, Some(&reply));
    assert_eq!(index, 1);
    assert_eq!(branch, SelectionBranch::CacheHit);
}

#[test]
fn pair_selection_combines_cascade_with_min_load_decode() {
    let p = policy(10, 1500);
    let mut prefill = vec![worker("P0", 5, true), worker("P1", 50, true)];
    let decode = vec![
        worker("D0", 9, true),
        worker("D1", 2, false),
        worker("D2", 3, true),
    ];
    let r = p.select_worker_pair_local(&mut prefill, &decode, None, Some(&[1]));
    match r {
        PairLocalSelection::Chosen {
            prefill_index,
            decode_index,
            branch,
        } => {
            assert_eq!(prefill_index, 0);
            assert_eq!(decode_index, 2, "least-loaded healthy decode worker");
            assert_eq!(branch, SelectionBranch::LoadBalancing);
        }
        _ => panic!("expected a completed pair"),
    }
}

#[test]
fn pair_selection_yields_nothing_when_either_side_is_empty() {
    let p = policy(10, 1500);

    let mut prefill = vec![worker("P0", 5, false)];
    let decode = vec![worker("D0", 9, true)];
    assert!(matches!(
        p.select_worker_pair_local(&mut prefill, &decode, None, None),
        PairLocalSelection::NoPair
    ));

    let mut prefill = vec![worker("P0", 5, true), worker("P1", 50, true)];
    let decode = vec![worker("D0", 9, false)];
    assert!(matches!(
        p.select_worker_pair_local(&mut prefill, &decode, None, None),
        PairLocalSelection::NoPair
    ));
}

#[test]
fn pair_needing_resolution_completes_with_reply() {
    let p = policy(100, 1500);
    let mut prefill = vec![worker("P0", 5, true), worker("P1", 6, true)];
    let decode = vec![worker("D0", 9, true), worker("D1", 2, true)];
    let r = p.select_worker_pair_local(&mut prefill, &decode, Some("req"), None);
    let token_ids = match r {
        PairLocalSelection::NeedResolve { token_ids } => token_ids,
        _ => panic!("expected a resolver request"),
    };
    assert_eq!(token_ids, vec![114, 101, 113]);

    let reply = vec!["P1".to_string()];
    let pair = p.complete_pair_selection(&mut prefill, &decode, Some(&reply));
    assert_eq!(pair, Some((1, 1)));
    assert_eq!(prefill[1].processed_count, 1);

    // No healthy decode worker: the pair cannot be satisfied.
    let empty_decode = vec![worker("D0", 9, false)];
    let pair = p.complete_pair_selection(&mut prefill, &empty_decode, Some(&reply));
    assert_eq!(pair, None);
}

#[test]
fn policy_reports_capability_surface() {
    let p = TokenCacheAwarePolicy::new(NoTokenizer);
    assert_eq!(p.name(), "token_cache_aware");
    assert!(p.needs_request_text());
    assert_eq!(p.nexuts_url(), "http://localhost:8080");
    assert_eq!(p.config(), &RoutingConfig::default());
    p.on_request_complete("http://worker-1", false);

    let p = TokenCacheAwarePolicy::with_config_and_url(
        config(3, 2000),
        "http://resolver:1234".to_string(),
        NoTokenizer,
    );
    assert_eq!(p.nexuts_url(), "http://resolver:1234");
    assert_eq!(p.config().balance_abs_threshold, 3);
}

#[test]
fn no_tokenizer_always_degrades_to_fallback() {
    let p = TokenCacheAwarePolicy::with_config(config(100, 1500), NoTokenizer);
    let mut workers = vec![worker("A", 1, true)];
    let r = p.select_worker_local(&mut workers, Some("text"), None);
    match r {
        LocalSelection::Chosen { index, branch } => {
            assert_eq!(index, 0);
            assert_eq!(branch, SelectionBranch::RandomFallback);
        }
        _ => panic!("expected a random fallback"),
    }
}

#[test]
fn dispatch_counter_wraps_at_maximum() {
    let mut w = worker("A", 0, true);
    w.processed_count = u64::MAX;
    w.increment_processed();
    assert_eq!(w.processed_count, 0);
    w.increment_processed();
    assert_eq!(w.processed_count, 1);
}
