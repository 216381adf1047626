use docsrs_metrics::backend::new_backend;
use docsrs_metrics::registry::{GatherError, Metrics, PoolStats, QueueStats};
use docsrs_metrics::registry::QueueError;
use docsrs_metrics::snapshot::{Family, FamilyData, Snapshot};

fn pool(idle: u32, used: u32, max: u32) -> PoolStats {
    PoolStats { idle_connections: idle, used_connections: used, max_size: max }
}

fn queue_ok(pending: i64, prioritized: i64, failed: i64) -> QueueStats {
    QueueStats {
        pending_count: Ok(pending),
        prioritized_count: Ok(prioritized),
        failed_count: Ok(failed),
    }
}

fn find<'a>(s: &'a Snapshot, name: &str) -> &'a Family {
    s.families
        .iter()
        .find(|f| f.name == name)
        .unwrap_or_else(|| panic!("no family named {}", name))
}

fn gauge_value(s: &Snapshot, name: &str) -> i64 {
    match &find(s, name).data {
        FamilyData::Gauge(v) => *v,
        _ => panic!("{} is not a gauge", name),
    }
}

fn counter_value(s: &Snapshot, name: &str) -> u64 {
    match &find(s, name).data {
        FamilyData::Counter(v) => *v,
        _ => panic!("{} is not a counter", name),
    }
}

fn series<'a>(s: &'a Snapshot, name: &str) -> Vec<(&'a str, u64)> {
    match &find(s, name).data {
        FamilyData::CounterSeries(series) | FamilyData::HistogramSeries(series) => {
            series.iter().map(|lv| (lv.label.as_str(), lv.value)).collect()
        }
        _ => panic!("{} is not a vector family", name),
    }
}

#[test]
fn construction_registers_every_declared_metric() {
    let mut backend = new_backend();
    let mut metrics = Metrics::new(&mut backend, false).expect("fresh backend accepts the schema");
    let snapshot = metrics.gather(&pool(0, 0, 0), queue_ok(0, 0, 0)).expect("gather succeeds");
    let expected = [
        "docsrs_queued_crates_count",
        "docsrs_prioritized_crates_count",
        "docsrs_failed_crates_count",
        "docsrs_idle_db_connections",
        "docsrs_used_db_connections",
        "docsrs_max_db_connections",
        "docsrs_failed_db_connections",
        "docsrs_routes_visited",
        "docsrs_response_time",
        "docsrs_rustdoc_rendering_times",
        "docsrs_total_builds",
        "docsrs_successful_builds",
        "docsrs_failed_builds",
        "docsrs_non_library_builds",
        "docsrs_uploaded_files_total",
        "docsrs_html_rewrite_ooms",
    ];
    assert_eq!(snapshot.families.len(), expected.len());
    for (family, name) in snapshot.families.iter().zip(expected.iter()) {
        assert_eq!(family.name, *name);
        assert!(!family.help.is_empty());
    }
}

#[test]
fn help_text_exported_verbatim() {
    let mut backend = new_backend();
    let mut metrics = Metrics::new(&mut backend, false).unwrap();
    let snapshot = metrics.gather(&pool(0, 0, 0), queue_ok(0, 0, 0)).unwrap();
    assert_eq!(
        find(&snapshot, "docsrs_queued_crates_count").help,
        "Number of crates in the build queue"
    );
    assert_eq!(find(&snapshot, "docsrs_total_builds").help, "Number of crates built");
}

#[test]
fn duplicate_schema_in_same_backend_is_rejected() {
    let mut backend = new_backend();
    let first = Metrics::new(&mut backend, false);
    assert!(first.is_ok());
    let second = Metrics::new(&mut backend, false);
    let err = match second {
        Ok(_) => panic!("the backend accepted the same schema twice"),
        Err(e) => e,
    };
    assert!(!err.message.is_empty());
}

#[test]
fn gauges_report_exact_values() {
    let mut backend = new_backend();
    let mut metrics = Metrics::new(&mut backend, false).unwrap();
    let snapshot = metrics.gather(&pool(3, 7, 10), queue_ok(0, 0, 0)).unwrap();
    assert_eq!(gauge_value(&snapshot, "docsrs_idle_db_connections"), 3);
    assert_eq!(gauge_value(&snapshot, "docsrs_used_db_connections"), 7);
    assert_eq!(gauge_value(&snapshot, "docsrs_max_db_connections"), 10);
}

#[test]
fn gauges_report_refreshed_values_not_stale_ones() {
    let mut backend = new_backend();
    let mut metrics = Metrics::new(&mut backend, false).unwrap();
    let _ = metrics.gather(&pool(1, 1, 1), queue_ok(0, 0, 0)).unwrap();
    let snapshot = metrics.gather(&pool(8, 2, 10), queue_ok(0, 0, 0)).unwrap();
    assert_eq!(gauge_value(&snapshot, "docsrs_idle_db_connections"), 8);
    assert_eq!(gauge_value(&snapshot, "docsrs_used_db_connections"), 2);
}

#[test]
fn counter_reports_exact_cumulative_sum() {
    let mut backend = new_backend();
    let mut metrics = Metrics::new(&mut backend, false).unwrap();
    for _ in 0..5 {
        metrics.total_builds_inc();
    }
    metrics.successful_builds_inc();
    metrics.successful_builds_inc();
    metrics.failed_db_connections_inc();
    let snapshot = metrics.gather(&pool(0, 0, 0), queue_ok(0, 0, 0)).unwrap();
    assert_eq!(counter_value(&snapshot, "docsrs_total_builds"), 5);
    assert_eq!(counter_value(&snapshot, "docsrs_successful_builds"), 2);
    assert_eq!(counter_value(&snapshot, "docsrs_failed_db_connections"), 1);
    assert_eq!(counter_value(&snapshot, "docsrs_failed_builds"), 0);
}

#[test]
fn vector_counter_creates_series_and_keeps_them_independent() {
    let mut backend = new_backend();
    let mut metrics = Metrics::new(&mut backend, false).unwrap();
    metrics.routes_visited_inc("foo");
    let s1 = metrics.gather(&pool(0, 0, 0), queue_ok(0, 0, 0)).unwrap();
    assert_eq!(series(&s1, "docsrs_routes_visited"), vec![("foo", 1)]);
    metrics.routes_visited_inc("foo");
    let s2 = metrics.gather(&pool(0, 0, 0), queue_ok(0, 0, 0)).unwrap();
    assert_eq!(series(&s2, "docsrs_routes_visited"), vec![("foo", 2)]);
    metrics.routes_visited_inc("bar");
    let s3 = metrics.gather(&pool(0, 0, 0), queue_ok(0, 0, 0)).unwrap();
    assert_eq!(series(&s3, "docsrs_routes_visited"), vec![("foo", 2), ("bar", 1)]);
}

#[test]
fn histogram_observations_are_counted_per_label() {
    let mut backend = new_backend();
    let mut metrics = Metrics::new(&mut backend, false).unwrap();
    metrics.response_time_observe("web", 1);
    metrics.response_time_observe("web", 3);
    metrics.response_time_observe("api", 2);
    metrics.rustdoc_rendering_times_observe("render", 4);
    let snapshot = metrics.gather(&pool(0, 0, 0), queue_ok(0, 0, 0)).unwrap();
    assert_eq!(series(&snapshot, "docsrs_response_time"), vec![("web", 2), ("api", 1)]);
    assert_eq!(series(&snapshot, "docsrs_rustdoc_rendering_times"), vec![("render", 1)]);
}

#[test]
fn pending_count_failure_aborts_gather() {
    let mut backend = new_backend();
    let mut metrics = Metrics::new(&mut backend, false).unwrap();
    let queue = QueueStats {
        pending_count: Err(QueueError { message: String::from("queue unreachable") }),
        prioritized_count: Ok(5),
        failed_count: Ok(1),
    };
    let result = metrics.gather(&pool(3, 7, 10), queue);
    match result {
        Ok(_) => panic!("gather returned a snapshot despite a failed queue read"),
        Err(GatherError::Queue(e)) => assert_eq!(e.message, "queue unreachable"),
        Err(GatherError::ProcessStats(_)) => panic!("wrong error kind"),
    }
}

#[test]
fn first_queue_failure_wins() {
    let mut backend = new_backend();
    let mut metrics = Metrics::new(&mut backend, false).unwrap();
    let queue = QueueStats {
        pending_count: Ok(42),
        prioritized_count: Err(QueueError { message: String::from("prioritized read failed") }),
        failed_count: Err(QueueError { message: String::from("failed read failed") }),
    };
    match metrics.gather(&pool(0, 0, 0), queue) {
        Err(GatherError::Queue(e)) => assert_eq!(e.message, "prioritized read failed"),
        _ => panic!("expected the prioritized-count error"),
    }
}

#[test]
fn end_to_end_pool_and_queue_values() {
    let mut backend = new_backend();
    let mut metrics = Metrics::new(&mut backend, false).unwrap();
    let snapshot = metrics.gather(&pool(3, 7, 10), queue_ok(42, 5, 1)).unwrap();
    assert_eq!(gauge_value(&snapshot, "docsrs_idle_db_connections"), 3);
    assert_eq!(gauge_value(&snapshot, "docsrs_used_db_connections"), 7);
    assert_eq!(gauge_value(&snapshot, "docsrs_max_db_connections"), 10);
    assert_eq!(gauge_value(&snapshot, "docsrs_queued_crates_count"), 42);
    assert_eq!(gauge_value(&snapshot, "docsrs_prioritized_crates_count"), 5);
    assert_eq!(gauge_value(&snapshot, "docsrs_failed_crates_count"), 1);
}

#[test]
fn process_metrics_exist_where_the_platform_provides_them() {
    let mut backend = new_backend();
    let mut metrics = Metrics::new(&mut backend, true).expect("construction with process metrics");
    let snapshot = metrics
        .gather(&pool(0, 0, 0), queue_ok(0, 0, 0))
        .expect("process introspection is available on this platform");
    assert_eq!(snapshot.families.len(), 18);
    assert!(gauge_value(&snapshot, "docsrs_open_file_descriptors") > 0);
    assert!(gauge_value(&snapshot, "docsrs_running_threads") > 0);
}

#[test]
fn process_metrics_absent_where_the_platform_lacks_them() {
    let mut backend = new_backend();
    let mut metrics = Metrics::new(&mut backend, false).unwrap();
    let snapshot = metrics.gather(&pool(0, 0, 0), queue_ok(0, 0, 0)).unwrap();
    assert!(snapshot.families.iter().all(|f| f.name != "docsrs_open_file_descriptors"));
    assert!(snapshot.families.iter().all(|f| f.name != "docsrs_running_threads"));
}

#[test]
fn fresh_backends_accept_the_schema_while_a_used_one_refuses_it() {
    // Two registries cannot share one backend: the second declaration of the
    // same names is refused, while a fresh backend accepts the schema again.
    let mut first_backend = new_backend();
    let mut second_backend = new_backend();
    assert!(Metrics::new(&mut first_backend, false).is_ok());
    assert!(Metrics::new(&mut second_backend, false).is_ok());
    assert!(Metrics::new(&mut first_backend, false).is_err());
}
