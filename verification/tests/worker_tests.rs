use router_policies::worker::{
    healthy_worker_indices, max_min_load, min_load_healthy_index, WorkerInfo,
};

fn worker(url: &str, load: usize, healthy: bool) -> WorkerInfo {
    WorkerInfo {
        url: url.to_string(),
        load,
        healthy,
        processed_count: 0,
    }
}

#[test]
fn healthy_indices_are_exactly_the_healthy_positions_in_order() {
    let workers = vec![
        worker("A", 1, false),
        worker("B", 2, true),
        worker("C", 3, false),
        worker("D", 4, true),
    ];
    assert_eq!(healthy_worker_indices(&workers), vec![1, 3]);

    let none: Vec<WorkerInfo> = Vec::new();
    assert!(healthy_worker_indices(&none).is_empty());
}

#[test]
fn min_load_healthy_index_breaks_ties_by_position() {
    let workers = vec![
        worker("A", 7, true),
        worker("B", 2, false),
        worker("C", 3, true),
        worker("D", 3, true),
    ];
    assert_eq!(min_load_healthy_index(&workers), Some(2));

    let unhealthy = vec![worker("A", 7, false)];
    assert_eq!(min_load_healthy_index(&unhealthy), None);
}

#[test]
fn load_extremes_ignore_health() {
    let workers = vec![
        worker("A", 9, false),
        worker("B", 4, true),
        worker("C", 30, false),
    ];
    assert_eq!(max_min_load(&workers), (30, 4));

    let single = vec![worker("A", 0, true)];
    assert_eq!(max_min_load(&single), (0, 0));
}
