use relayer_metrics::collector::{
    IDX_RPC_ERRORS, IDX_RPC_REQUESTS, IDX_TRANSACTIONS_FAILED, IDX_TRANSACTIONS_SUCCESS,
    IDX_TRANSACTIONS_TOTAL,
};
use relayer_metrics::registry::{Instrument, MetricValue, MetricsCollector, MetricsError};
use relayer_metrics::text::MICROS_PER_UNIT;

fn fresh() -> MetricsCollector {
    MetricsCollector::new().expect("the standard catalog must register")
}

fn export(c: &MetricsCollector) -> String {
    c.export_metrics().expect("export never fails")
}

#[test]
fn standard_catalog_registers() {
    let c = fresh();
    assert_eq!(c.instruments.len(), 23);
}

#[test]
fn export_emits_one_block_per_instrument() {
    let c = fresh();
    let text = export(&c);
    assert_eq!(text.matches("# HELP ").count(), 23);
    assert_eq!(text.matches("# TYPE ").count(), 23);
    assert!(text.contains(
        "# HELP gas_relayer_transactions_total Total number of transactions processed\n"
    ));
    assert!(text.contains("# TYPE gas_relayer_transactions_total counter\n"));
    assert!(text.contains("# TYPE gas_relayer_queue_depth gauge\n"));
    assert!(text.contains("# TYPE gas_relayer_rpc_latency_seconds histogram\n"));
    assert!(text.contains("gas_relayer_transactions_total 0\n"));
    assert!(text.contains("gas_relayer_gas_used_total 0\n"));
    assert!(text.contains("gas_relayer_gas_price_gwei 0\n"));
    assert!(text.contains("gas_relayer_rpc_latency_seconds_count 0\n"));
    assert!(text.contains("gas_relayer_rpc_latency_seconds_bucket{le=\"+Inf\"} 0\n"));
}

#[test]
fn rpc_calls_appear_in_export() {
    let mut c = fresh();
    let fifth_of_a_second: i64 = (MICROS_PER_UNIT / 5) as i64;
    let half_a_second: i64 = (MICROS_PER_UNIT / 2) as i64;
    c.record_rpc_call(fifth_of_a_second, true);
    c.record_rpc_call(half_a_second, false);
    let text = export(&c);
    assert!(text.contains("gas_relayer_rpc_requests_total 2\n"));
    assert!(text.contains("gas_relayer_rpc_errors_total 1\n"));
    assert!(text.contains("gas_relayer_rpc_latency_seconds_sum 0.7\n"));
    assert!(text.contains("gas_relayer_rpc_latency_seconds_count 2\n"));
    assert!(text.contains("gas_relayer_rpc_latency_seconds_bucket{le=\"0.1\"} 0\n"));
    assert!(text.contains("gas_relayer_rpc_latency_seconds_bucket{le=\"0.5\"} 2\n"));
    assert!(text.contains("gas_relayer_rpc_latency_seconds_bucket{le=\"+Inf\"} 2\n"));
}

#[test]
fn duplicate_name_fails_registration() {
    let mut c = fresh();
    let dup = Instrument::counter("gas_relayer_transactions_total", "another counter");
    assert_eq!(c.register(dup), Err(MetricsError::DuplicateName));
    assert_eq!(c.instruments.len(), 23);
}

#[test]
fn duplicate_name_fails_startup_list() {
    let mut list = Vec::new();
    list.push(Instrument::counter("requests", "a"));
    list.push(Instrument::counter("requests", "b"));
    assert!(MetricsCollector::from_instruments(list).is_err());
}

#[test]
fn malformed_buckets_fail_registration() {
    let mut c = MetricsCollector::empty();
    let empty = Instrument::histogram("h_empty", "no buckets", Vec::new());
    assert_eq!(c.register(empty), Err(MetricsError::InvalidBuckets));
    let unsorted = Instrument::histogram("h_unsorted", "descending", vec![5, 3]);
    assert_eq!(c.register(unsorted), Err(MetricsError::InvalidBuckets));
    let flat = Instrument::histogram("h_flat", "not strictly ascending", vec![3, 3]);
    assert_eq!(c.register(flat), Err(MetricsError::InvalidBuckets));
    let good = Instrument::histogram("h_good", "ascending", vec![3, 5]);
    assert_eq!(c.register(good), Ok(()));
}

#[test]
fn transaction_outcomes_accumulate() {
    let mut c = fresh();
    c.record_transaction_outcome(true, 300000, 1500000);
    c.record_transaction_outcome(false, 700000, 999999);
    c.record_transaction_outcome(true, 1200000, 500000);
    let text = export(&c);
    assert!(text.contains("gas_relayer_transactions_total 3\n"));
    assert!(text.contains("gas_relayer_transactions_success_total 2\n"));
    assert!(text.contains("gas_relayer_transactions_failed_total 1\n"));
    // gas counts only the successful outcomes: 1.5 + 0.5
    assert!(text.contains("gas_relayer_gas_used_total 2\n"));
    assert!(text.contains("gas_relayer_transaction_processing_duration_seconds_count 3\n"));
    assert!(text.contains("gas_relayer_transaction_processing_duration_seconds_sum 2.2\n"));
}

#[test]
fn outcome_order_does_not_matter() {
    // Any serialization of the same multiset of outcomes yields the same
    // registry state, and so the same exposition text.
    let mut a = fresh();
    a.record_transaction_outcome(true, 100000, 700000);
    a.record_transaction_outcome(false, 200000, 0);
    a.record_transaction_outcome(true, 300000, 300000);
    let mut b = fresh();
    b.record_transaction_outcome(false, 200000, 0);
    b.record_transaction_outcome(true, 300000, 300000);
    b.record_transaction_outcome(true, 100000, 700000);
    assert_eq!(export(&a), export(&b));
}

#[test]
fn success_and_failure_helpers_match_outcome() {
    let mut a = fresh();
    a.record_transaction_success(100000, 200000);
    a.record_transaction_failure(300000);
    let mut b = fresh();
    b.record_transaction_outcome(true, 100000, 200000);
    b.record_transaction_outcome(false, 300000, 0);
    assert_eq!(export(&a), export(&b));
}

#[test]
fn negative_measurements_clamp_to_zero() {
    let mut c = fresh();
    c.record_rpc_call(-250000, true);
    let text = export(&c);
    assert!(text.contains("gas_relayer_rpc_latency_seconds_sum 0\n"));
    assert!(text.contains("gas_relayer_rpc_latency_seconds_count 1\n"));
    assert!(text.contains("gas_relayer_rpc_latency_seconds_bucket{le=\"0.1\"} 1\n"));
}

#[test]
fn db_queries_count_errors_only_on_failure() {
    let mut c = fresh();
    c.record_db_query(2000, true);
    c.record_db_query(7000, false);
    let text = export(&c);
    assert!(text.contains("gas_relayer_db_errors_total 1\n"));
    assert!(text.contains("gas_relayer_db_query_duration_seconds_count 2\n"));
    assert!(text.contains("gas_relayer_db_query_duration_seconds_bucket{le=\"0.005\"} 1\n"));
    assert!(text.contains("gas_relayer_db_query_duration_seconds_bucket{le=\"0.01\"} 2\n"));
    assert!(text.contains("gas_relayer_db_query_duration_seconds_sum 0.009\n"));
}

#[test]
fn http_requests_classify_status_codes() {
    let mut c = fresh();
    let line = c.record_http_request("GET", "/metrics", 200, 12500);
    assert_eq!(line, "method=GET path=/metrics status=200 duration_ms=12 HTTP request processed");
    let line = c.record_http_request("GET", "/missing", 404, 2000000);
    assert_eq!(
        line,
        "method=GET path=/missing status=404 duration_ms=2000 HTTP request processed"
    );
    let text = export(&c);
    assert!(text.contains("gas_relayer_rpc_requests_total 2\n"));
    assert!(text.contains("gas_relayer_rpc_errors_total 1\n"));
}

#[test]
fn export_is_deterministic() {
    let mut a = fresh();
    let mut b = fresh();
    a.record_rpc_call(123456, false);
    b.record_rpc_call(123456, false);
    assert_eq!(export(&a), export(&b));
}

#[test]
fn catalog_indices_name_their_instruments() {
    let c = fresh();
    assert_eq!(
        c.instruments[IDX_TRANSACTIONS_TOTAL].name,
        "gas_relayer_transactions_total"
    );
    assert_eq!(
        c.instruments[IDX_TRANSACTIONS_SUCCESS].name,
        "gas_relayer_transactions_success_total"
    );
    assert_eq!(
        c.instruments[IDX_TRANSACTIONS_FAILED].name,
        "gas_relayer_transactions_failed_total"
    );
    assert_eq!(c.instruments[IDX_RPC_REQUESTS].name, "gas_relayer_rpc_requests_total");
    assert_eq!(c.instruments[IDX_RPC_ERRORS].name, "gas_relayer_rpc_errors_total");
    match &c.instruments[IDX_TRANSACTIONS_TOTAL].value {
        MetricValue::Counter { count } => assert_eq!(*count, 0),
        _ => panic!("transactions_total must be a counter"),
    }
}
