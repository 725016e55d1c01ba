//! The relayer's standard metric catalog and its recording operations.
//!
//! [`MetricsCollector::new`] registers every instrument of the process up
//! front, grouped by domain (transaction, gas, queue, database, RPC, relayer,
//! security), and fails — so that startup can abort before the server binds —
//! if any name collides or a histogram's bucket list is malformed.  The
//! recording operations update fixed, named instruments; each states exactly
//! which counters grow and how the histogram of interest absorbs the
//! observation.  Measurements arrive as signed micro-unit fixed-point values;
//! negative measurements are clamped to zero rather than rejected.

use vstd::prelude::*;
use crate::registry::clamp0;
use crate::registry::hist_observed;
use crate::registry::instruments_wf;
use crate::registry::sat_add;
use crate::registry::sat_add64;
use crate::registry::value_fresh;
use crate::registry::value_wf;
use crate::registry::Instrument;
use crate::registry::MetricValue;
use crate::registry::MetricsCollector;
use crate::registry::MetricsError;
use crate::text::chars_to_string;
use crate::text::dec_str;
use crate::text::push_dec;
use crate::text::push_str_chars;

verus! {

pub const IDX_TRANSACTIONS_TOTAL: usize = 0;

pub const IDX_TRANSACTIONS_SUCCESS: usize = 1;

pub const IDX_TRANSACTIONS_FAILED: usize = 2;

pub const IDX_TRANSACTIONS_PENDING: usize = 3;

pub const IDX_TRANSACTION_DURATION: usize = 4;

pub const IDX_GAS_USED: usize = 5;

pub const IDX_GAS_PRICE: usize = 6;

pub const IDX_GAS_LIMIT_VIOLATIONS: usize = 7;

pub const IDX_QUEUE_DEPTH: usize = 8;

pub const IDX_QUEUE_TIME: usize = 9;

pub const IDX_QUEUE_RETRIES: usize = 10;

pub const IDX_DB_CONNECTIONS: usize = 11;

pub const IDX_DB_DURATION: usize = 12;

pub const IDX_DB_ERRORS: usize = 13;

pub const IDX_RPC_REQUESTS: usize = 14;

pub const IDX_RPC_ERRORS: usize = 15;

pub const IDX_RPC_LATENCY: usize = 16;

pub const IDX_RELAYER_BALANCE: usize = 17;

pub const IDX_RELAYER_NONCE: usize = 18;

pub const IDX_RELAYER_TX_SENT: usize = 19;

pub const IDX_INVALID_SIGNATURES: usize = 20;

pub const IDX_REPLAY_ATTACKS: usize = 21;

pub const IDX_RATE_LIMIT_HITS: usize = 22;

/// The number of instruments in the standard catalog.
pub const CATALOG_LEN: usize = 23;

/// Bucket bounds of the transaction processing duration histogram, in
/// micro-seconds (0.1 s up to 60 s).
pub open spec fn tx_duration_bounds() -> Seq<u64> {
    seq![
        100000u64,
        500000u64,
        1000000u64,
        2500000u64,
        5000000u64,
        10000000u64,
        30000000u64,
        60000000u64,
    ]
}

/// Bucket bounds of the queue residence time histogram, in micro-seconds
/// (1 s up to 600 s).
pub open spec fn queue_time_bounds() -> Seq<u64> {
    seq![
        1000000u64,
        5000000u64,
        10000000u64,
        30000000u64,
        60000000u64,
        300000000u64,
        600000000u64,
    ]
}

/// Bucket bounds of the database query duration histogram, in micro-seconds
/// (1 ms up to 1 s).
pub open spec fn db_duration_bounds() -> Seq<u64> {
    seq![1000u64, 5000u64, 10000u64, 50000u64, 100000u64, 500000u64, 1000000u64]
}

/// Bucket bounds of the RPC latency histogram, in micro-seconds
/// (0.1 s up to 30 s).
pub open spec fn rpc_latency_bounds() -> Seq<u64> {
    seq![
        100000u64,
        500000u64,
        1000000u64,
        2000000u64,
        5000000u64,
        10000000u64,
        30000000u64,
    ]
}

/// The name of catalog instrument `i`.
pub open spec fn catalog_name(i: int) -> Seq<char> {
    if i == 0 {
        "gas_relayer_transactions_total"@
    } else if i == 1 {
        "gas_relayer_transactions_success_total"@
    } else if i == 2 {
        "gas_relayer_transactions_failed_total"@
    } else if i == 3 {
        "gas_relayer_transactions_pending"@
    } else if i == 4 {
        "gas_relayer_transaction_processing_duration_seconds"@
    } else if i == 5 {
        "gas_relayer_gas_used_total"@
    } else if i == 6 {
        "gas_relayer_gas_price_gwei"@
    } else if i == 7 {
        "gas_relayer_gas_limit_violations_total"@
    } else if i == 8 {
        "gas_relayer_queue_depth"@
    } else if i == 9 {
        "gas_relayer_queue_processing_time_seconds"@
    } else if i == 10 {
        "gas_relayer_queue_retries_total"@
    } else if i == 11 {
        "gas_relayer_db_connections_active"@
    } else if i == 12 {
        "gas_relayer_db_query_duration_seconds"@
    } else if i == 13 {
        "gas_relayer_db_errors_total"@
    } else if i == 14 {
        "gas_relayer_rpc_requests_total"@
    } else if i == 15 {
        "gas_relayer_rpc_errors_total"@
    } else if i == 16 {
        "gas_relayer_rpc_latency_seconds"@
    } else if i == 17 {
        "gas_relayer_balance_eth"@
    } else if i == 18 {
        "gas_relayer_nonce_current"@
    } else if i == 19 {
        "gas_relayer_tx_sent_total"@
    } else if i == 20 {
        "gas_relayer_invalid_signatures_total"@
    } else if i == 21 {
        "gas_relayer_replay_attacks_total"@
    } else {
        "gas_relayer_rate_limit_hits_total"@
    }
}

/// The help text of catalog instrument `i`.
pub open spec fn catalog_help(i: int) -> Seq<char> {
    if i == 0 {
        "Total number of transactions processed"@
    } else if i == 1 {
        "Total number of successful transactions"@
    } else if i == 2 {
        "Total number of failed transactions"@
    } else if i == 3 {
        "Number of transactions currently pending"@
    } else if i == 4 {
        "Time spent processing transactions"@
    } else if i == 5 {
        "Total gas used by relayed transactions"@
    } else if i == 6 {
        "Current gas price in Gwei"@
    } else if i == 7 {
        "Number of transactions exceeding gas limits"@
    } else if i == 8 {
        "Number of transactions in processing queue"@
    } else if i == 9 {
        "Time transactions spend in queue"@
    } else if i == 10 {
        "Total number of transaction retries"@
    } else if i == 11 {
        "Number of active database connections"@
    } else if i == 12 {
        "Database query execution time"@
    } else if i == 13 {
        "Total number of database errors"@
    } else if i == 14 {
        "Total number of RPC requests"@
    } else if i == 15 {
        "Total number of RPC errors"@
    } else if i == 16 {
        "RPC request latency"@
    } else if i == 17 {
        "Relayer wallet balance in ETH"@
    } else if i == 18 {
        "Current nonce of relayer wallet"@
    } else if i == 19 {
        "Total transactions sent by relayer"@
    } else if i == 20 {
        "Total number of invalid signatures detected"@
    } else if i == 21 {
        "Total number of replay attacks detected"@
    } else {
        "Total number of rate limit violations"@
    }
}

/// The kind (and, for a histogram, the bucket bounds) that catalog
/// instrument `i` must have.
pub open spec fn catalog_shape_ok(i: int, v: MetricValue) -> bool {
    if i == IDX_GAS_USED as int {
        v matches MetricValue::ScaledCounter { .. }
    } else if i == IDX_TRANSACTIONS_PENDING as int || i == IDX_QUEUE_DEPTH as int || i
        == IDX_DB_CONNECTIONS as int || i == IDX_RELAYER_NONCE as int {
        v matches MetricValue::Gauge { .. }
    } else if i == IDX_GAS_PRICE as int || i == IDX_RELAYER_BALANCE as int {
        v matches MetricValue::ScaledGauge { .. }
    } else if i == IDX_TRANSACTION_DURATION as int {
        v matches MetricValue::Histogram { bounds, .. } && bounds@ == tx_duration_bounds()
    } else if i == IDX_QUEUE_TIME as int {
        v matches MetricValue::Histogram { bounds, .. } && bounds@ == queue_time_bounds()
    } else if i == IDX_DB_DURATION as int {
        v matches MetricValue::Histogram { bounds, .. } && bounds@ == db_duration_bounds()
    } else if i == IDX_RPC_LATENCY as int {
        v matches MetricValue::Histogram { bounds, .. } && bounds@ == rpc_latency_bounds()
    } else {
        v matches MetricValue::Counter { .. }
    }
}

/// The structured line logged for one HTTP request.
pub open spec fn http_log_line(
    method: Seq<char>,
    path: Seq<char>,
    status: u16,
    duration_micros: u64,
) -> Seq<char> {
    "method="@ + method + " path="@ + path + " status="@ + dec_str(status as nat)
        + " duration_ms="@ + dec_str((duration_micros / 1000) as nat)
        + " HTTP request processed"@
}

/// A 4xx or 5xx status code denotes a failed request.
pub open spec fn spec_status_is_error(status: u16) -> bool {
    400 <= status < 600
}

/// Classify a response status code; errors are the 4xx and 5xx classes.
pub fn http_status_is_error(status: u16) -> (r: bool)
    ensures
        r == spec_status_is_error(status),
{
    400 <= status && status < 600
}

/// Instrument `inst` is what the standard catalog prescribes at position
/// `i`: its name, its help text and its kind (the value is unconstrained).
pub open spec fn catalog_entry_ok(i: int, inst: Instrument) -> bool {
    &&& inst.name@ == catalog_name(i)
    &&& inst.help@ == catalog_help(i)
    &&& catalog_shape_ok(i, inst.value)
}

impl MetricsCollector {
    /// The registry holds exactly the standard catalog.
    pub open spec fn standard_layout(self) -> bool {
        &&& self.instruments@.len() == CATALOG_LEN as int
        &&& forall|i: int|
            0 <= i < CATALOG_LEN as int ==> catalog_entry_ok(i, #[trigger] self.instruments@[i])
    }

    /// Every instrument still holds its initial (zero) value.
    pub open spec fn fresh(self) -> bool {
        forall|i: int|
            0 <= i < self.instruments@.len() ==> value_fresh(
                #[trigger] self.instruments@[i].value,
            )
    }
}

/// The catalog itself is registerable: names pairwise distinct, every
/// histogram bucket list nonempty and strictly ascending.
pub open spec fn catalog_feasible() -> bool {
    &&& forall|i: int, j: int|
        0 <= i < j < CATALOG_LEN as int ==> catalog_name(i) != catalog_name(j)
    &&& bounds_ascending(tx_duration_bounds())
    &&& bounds_ascending(queue_time_bounds())
    &&& bounds_ascending(db_duration_bounds())
    &&& bounds_ascending(rpc_latency_bounds())
}

/// A nonempty, strictly ascending bucket list.
pub open spec fn bounds_ascending(b: Seq<u64>) -> bool {
    b.len() > 0 && forall|p: int, q: int| 0 <= p < q < b.len() ==> b[p] < b[q]
}

impl Instrument {
    /// A fresh plain counter.
    pub fn counter(name: &str, help: &str) -> (r: Instrument)
        ensures
            r.name@ == name@,
            r.help@ == help@,
            r.value == (MetricValue::Counter { count: 0 }),
    {
        Instrument {
            name: String::from_str(name),
            help: String::from_str(help),
            value: MetricValue::Counter { count: 0 },
        }
    }

    /// A fresh fixed-point counter.
    pub fn scaled_counter(name: &str, help: &str) -> (r: Instrument)
        ensures
            r.name@ == name@,
            r.help@ == help@,
            r.value == (MetricValue::ScaledCounter { micros: 0 }),
    {
        Instrument {
            name: String::from_str(name),
            help: String::from_str(help),
            value: MetricValue::ScaledCounter { micros: 0 },
        }
    }

    /// A fresh plain gauge.
    pub fn gauge(name: &str, help: &str) -> (r: Instrument)
        ensures
            r.name@ == name@,
            r.help@ == help@,
            r.value == (MetricValue::Gauge { value: 0 }),
    {
        Instrument {
            name: String::from_str(name),
            help: String::from_str(help),
            value: MetricValue::Gauge { value: 0 },
        }
    }

    /// A fresh fixed-point gauge.
    pub fn scaled_gauge(name: &str, help: &str) -> (r: Instrument)
        ensures
            r.name@ == name@,
            r.help@ == help@,
            r.value == (MetricValue::ScaledGauge { level_micros: 0 }),
    {
        Instrument {
            name: String::from_str(name),
            help: String::from_str(help),
            value: MetricValue::ScaledGauge { level_micros: 0 },
        }
    }

    /// A fresh histogram over the given bucket bounds.
    #[verifier::loop_isolation(false)]
    pub fn histogram(name: &str, help: &str, bounds: Vec<u64>) -> (r: Instrument)
        ensures
            r.name@ == name@,
            r.help@ == help@,
            r.value matches MetricValue::Histogram {
                bounds: b,
                cumulative: c,
                sum_micros,
                count,
            } && b@ == bounds@ && c@.len() == bounds@.len() && sum_micros == 0 && count == 0
                && (forall|p: int| 0 <= p < c@.len() ==> c@[p] == 0),
            value_fresh(r.value),
    {
        let m: usize = bounds.len();
        let mut cumulative: Vec<u64> = Vec::new();
        let mut j: usize = 0;
        while j < m
            invariant
                j <= m,
                cumulative@.len() == j,
                forall|p: int| 0 <= p < j ==> cumulative@[p] == 0,
            decreases m - j,
        {
            cumulative.push(0);
            j = j + 1;
        }
        Instrument {
            name: String::from_str(name),
            help: String::from_str(help),
            value: MetricValue::Histogram { bounds, cumulative, sum_micros: 0, count: 0 },
        }
    }
}

impl MetricsCollector {
    /// Build the standard catalog.  Succeeds exactly when the catalog is
    /// feasible (it is; the check is the fail-fast startup guard), and then
    /// every instrument starts at zero.
    pub fn new() -> (r: Result<MetricsCollector, MetricsError>)
        ensures
            match r {
                Ok(c) => c.wf() && c.standard_layout() && c.fresh(),
                Err(_) => !catalog_feasible(),
            },
    {
        let mut list: Vec<Instrument> = Vec::new();
        list.push(
            Instrument::counter(
                "gas_relayer_transactions_total",
                "Total number of transactions processed",
            ),
        );
        list.push(
            Instrument::counter(
                "gas_relayer_transactions_success_total",
                "Total number of successful transactions",
            ),
        );
        list.push(
            Instrument::counter(
                "gas_relayer_transactions_failed_total",
                "Total number of failed transactions",
            ),
        );
        list.push(
            Instrument::gauge(
                "gas_relayer_transactions_pending",
                "Number of transactions currently pending",
            ),
        );
        let mut tx_bounds: Vec<u64> = Vec::new();
        tx_bounds.push(100000);
        tx_bounds.push(500000);
        tx_bounds.push(1000000);
        tx_bounds.push(2500000);
        tx_bounds.push(5000000);
        tx_bounds.push(10000000);
        tx_bounds.push(30000000);
        tx_bounds.push(60000000);
        proof {
            assert(tx_bounds@ =~= tx_duration_bounds());
        }
        list.push(
            Instrument::histogram(
                "gas_relayer_transaction_processing_duration_seconds",
                "Time spent processing transactions",
                tx_bounds,
            ),
        );
        list.push(
            Instrument::scaled_counter(
                "gas_relayer_gas_used_total",
                "Total gas used by relayed transactions",
            ),
        );
        list.push(Instrument::scaled_gauge("gas_relayer_gas_price_gwei", "Current gas price in Gwei"));
        list.push(
            Instrument::counter(
                "gas_relayer_gas_limit_violations_total",
                "Number of transactions exceeding gas limits",
            ),
        );
        list.push(
            Instrument::gauge(
                "gas_relayer_queue_depth",
                "Number of transactions in processing queue",
            ),
        );
        let mut q_bounds: Vec<u64> = Vec::new();
        q_bounds.push(1000000);
        q_bounds.push(5000000);
        q_bounds.push(10000000);
        q_bounds.push(30000000);
        q_bounds.push(60000000);
        q_bounds.push(300000000);
        q_bounds.push(600000000);
        proof {
            assert(q_bounds@ =~= queue_time_bounds());
        }
        list.push(
            Instrument::histogram(
                "gas_relayer_queue_processing_time_seconds",
                "Time transactions spend in queue",
                q_bounds,
            ),
        );
        list.push(
            Instrument::counter(
                "gas_relayer_queue_retries_total",
                "Total number of transaction retries",
            ),
        );
        list.push(
            Instrument::gauge(
                "gas_relayer_db_connections_active",
                "Number of active database connections",
            ),
        );
        let mut db_bounds: Vec<u64> = Vec::new();
        db_bounds.push(1000);
        db_bounds.push(5000);
        db_bounds.push(10000);
        db_bounds.push(50000);
        db_bounds.push(100000);
        db_bounds.push(500000);
        db_bounds.push(1000000);
        proof {
            assert(db_bounds@ =~= db_duration_bounds());
        }
        list.push(
            Instrument::histogram(
                "gas_relayer_db_query_duration_seconds",
                "Database query execution time",
                db_bounds,
            ),
        );
        list.push(
            Instrument::counter("gas_relayer_db_errors_total", "Total number of database errors"),
        );
        list.push(
            Instrument::counter("gas_relayer_rpc_requests_total", "Total number of RPC requests"),
        );
        list.push(
            Instrument::counter("gas_relayer_rpc_errors_total", "Total number of RPC errors"),
        );
        let mut rpc_bounds: Vec<u64> = Vec::new();
        rpc_bounds.push(100000);
        rpc_bounds.push(500000);
        rpc_bounds.push(1000000);
        rpc_bounds.push(2000000);
        rpc_bounds.push(5000000);
        rpc_bounds.push(10000000);
        rpc_bounds.push(30000000);
        proof {
            assert(rpc_bounds@ =~= rpc_latency_bounds());
        }
        list.push(
            Instrument::histogram(
                "gas_relayer_rpc_latency_seconds",
                "RPC request latency",
                rpc_bounds,
            ),
        );
        list.push(
            Instrument::scaled_gauge("gas_relayer_balance_eth", "Relayer wallet balance in ETH"),
        );
        list.push(
            Instrument::gauge("gas_relayer_nonce_current", "Current nonce of relayer wallet"),
        );
        list.push(
            Instrument::counter("gas_relayer_tx_sent_total", "Total transactions sent by relayer"),
        );
        list.push(
            Instrument::counter(
                "gas_relayer_invalid_signatures_total",
                "Total number of invalid signatures detected",
            ),
        );
        list.push(
            Instrument::counter(
                "gas_relayer_replay_attacks_total",
                "Total number of replay attacks detected",
            ),
        );
        list.push(
            Instrument::counter(
                "gas_relayer_rate_limit_hits_total",
                "Total number of rate limit violations",
            ),
        );
        proof {
            assert(list@.len() == CATALOG_LEN as int);
            assert forall|i: int| 0 <= i < CATALOG_LEN as int implies catalog_entry_ok(
                i,
                #[trigger] list@[i],
            ) && value_fresh(list@[i].value) by {}
        }
        let r = MetricsCollector::from_instruments(list);
        proof {
            if r matches Err(_) {
                assert(catalog_feasible() ==> instruments_wf(list@)) by {
                    if catalog_feasible() {
                        assert forall|i: int| 0 <= i < list@.len() implies value_wf(
                            #[trigger] list@[i].value,
                        ) by {
                            assert(catalog_entry_ok(i, list@[i]));
                            assert(value_fresh(list@[i].value));
                        }
                        assert forall|i: int, j: int|
                            0 <= i < j < list@.len() implies list@[i].name@ != list@[j].name@ by {
                            assert(catalog_entry_ok(i, list@[i]));
                            assert(catalog_entry_ok(j, list@[j]));
                            assert(catalog_name(i) != catalog_name(j));
                        }
                    }
                }
            }
        }
        r
    }

    /// Increase a plain counter by one, saturating.
    pub(crate) fn inc_counter(&mut self, i: usize)
        requires
            i < old(self).instruments@.len(),
            old(self).instruments@[i as int].value matches MetricValue::Counter { .. },
        ensures
            final(self).instruments@ == old(self).instruments@.update(
                i as int,
                Instrument {
                    name: old(self).instruments@[i as int].name,
                    help: old(self).instruments@[i as int].help,
                    value: MetricValue::Counter {
                        count: sat_add64(old(self).counter_at(i as int), 1),
                    },
                },
            ),
            old(self).wf() ==> final(self).wf(),
            old(self).standard_layout() ==> final(self).standard_layout(),
    {
        let c: u64 = match &self.instruments[i].value {
            MetricValue::Counter { count } => *count,
            _ => 0,
        };
        self.instruments[i].value = MetricValue::Counter { count: sat_add(c, 1) };
        proof {
            lemma_point_update(*old(self), *self, i as int);
        }
    }

    /// Add a fixed-point amount to a scaled counter, saturating.
    pub(crate) fn add_scaled_counter(&mut self, i: usize, d: u64)
        requires
            i < old(self).instruments@.len(),
            old(self).instruments@[i as int].value matches MetricValue::ScaledCounter { .. },
        ensures
            final(self).instruments@ == old(self).instruments@.update(
                i as int,
                Instrument {
                    name: old(self).instruments@[i as int].name,
                    help: old(self).instruments@[i as int].help,
                    value: MetricValue::ScaledCounter {
                        micros: sat_add64(old(self).scaled_counter_at(i as int), d),
                    },
                },
            ),
            old(self).wf() ==> final(self).wf(),
            old(self).standard_layout() ==> final(self).standard_layout(),
    {
        let c: u64 = match &self.instruments[i].value {
            MetricValue::ScaledCounter { micros } => *micros,
            _ => 0,
        };
        self.instruments[i].value = MetricValue::ScaledCounter { micros: sat_add(c, d) };
        proof {
            lemma_point_update(*old(self), *self, i as int);
        }
    }

    /// Record one observation in a histogram.
    #[verifier::loop_isolation(false)]
    pub(crate) fn observe(&mut self, i: usize, d: u64)
        requires
            i < old(self).instruments@.len(),
            old(self).instruments@[i as int].value matches MetricValue::Histogram { .. },
            value_wf(old(self).instruments@[i as int].value),
        ensures
            final(self).instruments@.len() == old(self).instruments@.len(),
            forall|j: int|
                0 <= j < old(self).instruments@.len() && j != i as int
                    ==> final(self).instruments@[j] == old(self).instruments@[j],
            final(self).instruments@[i as int].name == old(self).instruments@[i as int].name,
            final(self).instruments@[i as int].help == old(self).instruments@[i as int].help,
            hist_observed(
                old(self).instruments@[i as int].value,
                final(self).instruments@[i as int].value,
                d,
            ),
            value_wf(final(self).instruments@[i as int].value),
            old(self).wf() ==> final(self).wf(),
            old(self).standard_layout() ==> final(self).standard_layout(),
    {
        let (nb, ncm, ns, nn): (Vec<u64>, Vec<u64>, u64, u64) = match &self.instruments[i].value {
            MetricValue::Histogram { bounds, cumulative, sum_micros, count } => {
                let m: usize = bounds.len();
                let mut nb: Vec<u64> = Vec::new();
                let mut ncm: Vec<u64> = Vec::new();
                let mut j: usize = 0;
                while j < m
                    invariant
                        j <= m,
                        m == bounds@.len(),
                        m == cumulative@.len(),
                        nb@.len() == j,
                        ncm@.len() == j,
                        forall|p: int| 0 <= p < j ==> nb@[p] == bounds@[p],
                        forall|p: int|
                            0 <= p < j ==> ncm@[p] == (if d <= bounds@[p] {
                                sat_add64(cumulative@[p], 1)
                            } else {
                                cumulative@[p]
                            }),
                    decreases m - j,
                {
                    nb.push(bounds[j]);
                    if d <= bounds[j] {
                        ncm.push(sat_add(cumulative[j], 1));
                    } else {
                        ncm.push(cumulative[j]);
                    }
                    j = j + 1;
                }
                (nb, ncm, sat_add(*sum_micros, d), sat_add(*count, 1))
            },
            _ => {
                proof {
                    assert(false);
                }
                (Vec::new(), Vec::new(), 0u64, 0u64)
            },
        };
        self.instruments[i].value = MetricValue::Histogram {
            bounds: nb,
            cumulative: ncm,
            sum_micros: ns,
            count: nn,
        };
        proof {
            assert(nb@ == match old(self).instruments@[i as int].value {
                MetricValue::Histogram { bounds, .. } => bounds@,
                _ => arbitrary(),
            });
            assert(ncm@.len() == match old(self).instruments@[i as int].value {
                MetricValue::Histogram { cumulative, .. } => cumulative@.len(),
                _ => arbitrary(),
            });
            assert(value_wf(self.instruments@[i as int].value));
            lemma_point_update(*old(self), *self, i as int);
        }
    }

    /// Record the outcome of one processed transaction: the total counter
    /// always grows, the success or failure counter grows according to the
    /// outcome, the duration histogram absorbs the (clamped) processing
    /// time, and gas is added to the running gas total only on success.
    pub fn record_transaction_outcome(
        &mut self,
        success: bool,
        duration_micros: i64,
        gas_micros: i64,
    )
        requires
            old(self).wf(),
            old(self).standard_layout(),
        ensures
            final(self).wf(),
            final(self).standard_layout(),
            final(self).counter_at(IDX_TRANSACTIONS_TOTAL as int) == sat_add64(
                old(self).counter_at(IDX_TRANSACTIONS_TOTAL as int),
                1,
            ),
            final(self).counter_at(IDX_TRANSACTIONS_SUCCESS as int) == (if success {
                sat_add64(old(self).counter_at(IDX_TRANSACTIONS_SUCCESS as int), 1)
            } else {
                old(self).counter_at(IDX_TRANSACTIONS_SUCCESS as int)
            }),
            final(self).counter_at(IDX_TRANSACTIONS_FAILED as int) == (if success {
                old(self).counter_at(IDX_TRANSACTIONS_FAILED as int)
            } else {
                sat_add64(old(self).counter_at(IDX_TRANSACTIONS_FAILED as int), 1)
            }),
            hist_observed(
                old(self).instruments@[IDX_TRANSACTION_DURATION as int].value,
                final(self).instruments@[IDX_TRANSACTION_DURATION as int].value,
                clamp0(duration_micros),
            ),
            final(self).scaled_counter_at(IDX_GAS_USED as int) == (if success {
                sat_add64(old(self).scaled_counter_at(IDX_GAS_USED as int), clamp0(gas_micros))
            } else {
                old(self).scaled_counter_at(IDX_GAS_USED as int)
            }),
            old(self).frame(
                *final(self),
                set![
                    IDX_TRANSACTIONS_TOTAL as int,
                    IDX_TRANSACTIONS_SUCCESS as int,
                    IDX_TRANSACTIONS_FAILED as int,
                    IDX_TRANSACTION_DURATION as int,
                    IDX_GAS_USED as int,
                ],
            ),
    {
        let d: u64 = clamp_measure(duration_micros);
        self.inc_counter(IDX_TRANSACTIONS_TOTAL);
        if success {
            self.inc_counter(IDX_TRANSACTIONS_SUCCESS);
        } else {
            self.inc_counter(IDX_TRANSACTIONS_FAILED);
        }
        self.observe(IDX_TRANSACTION_DURATION, d);
        if success {
            let g: u64 = clamp_measure(gas_micros);
            self.add_scaled_counter(IDX_GAS_USED, g);
        }
    }

    /// Record one successfully processed transaction.
    pub fn record_transaction_success(&mut self, processing_micros: i64, gas_micros: i64)
        requires
            old(self).wf(),
            old(self).standard_layout(),
        ensures
            final(self).wf(),
            final(self).standard_layout(),
            final(self).counter_at(IDX_TRANSACTIONS_TOTAL as int) == sat_add64(
                old(self).counter_at(IDX_TRANSACTIONS_TOTAL as int),
                1,
            ),
            final(self).counter_at(IDX_TRANSACTIONS_SUCCESS as int) == sat_add64(
                old(self).counter_at(IDX_TRANSACTIONS_SUCCESS as int),
                1,
            ),
            hist_observed(
                old(self).instruments@[IDX_TRANSACTION_DURATION as int].value,
                final(self).instruments@[IDX_TRANSACTION_DURATION as int].value,
                clamp0(processing_micros),
            ),
            final(self).scaled_counter_at(IDX_GAS_USED as int) == sat_add64(
                old(self).scaled_counter_at(IDX_GAS_USED as int),
                clamp0(gas_micros),
            ),
            old(self).frame(
                *final(self),
                set![
                    IDX_TRANSACTIONS_TOTAL as int,
                    IDX_TRANSACTIONS_SUCCESS as int,
                    IDX_TRANSACTIONS_FAILED as int,
                    IDX_TRANSACTION_DURATION as int,
                    IDX_GAS_USED as int,
                ],
            ),
    {
        self.record_transaction_outcome(true, processing_micros, gas_micros);
    }

    /// Record one failed transaction.
    pub fn record_transaction_failure(&mut self, processing_micros: i64)
        requires
            old(self).wf(),
            old(self).standard_layout(),
        ensures
            final(self).wf(),
            final(self).standard_layout(),
            final(self).counter_at(IDX_TRANSACTIONS_TOTAL as int) == sat_add64(
                old(self).counter_at(IDX_TRANSACTIONS_TOTAL as int),
                1,
            ),
            final(self).counter_at(IDX_TRANSACTIONS_FAILED as int) == sat_add64(
                old(self).counter_at(IDX_TRANSACTIONS_FAILED as int),
                1,
            ),
            hist_observed(
                old(self).instruments@[IDX_TRANSACTION_DURATION as int].value,
                final(self).instruments@[IDX_TRANSACTION_DURATION as int].value,
                clamp0(processing_micros),
            ),
            old(self).frame(
                *final(self),
                set![
                    IDX_TRANSACTIONS_TOTAL as int,
                    IDX_TRANSACTIONS_SUCCESS as int,
                    IDX_TRANSACTIONS_FAILED as int,
                    IDX_TRANSACTION_DURATION as int,
                    IDX_GAS_USED as int,
                ],
            ),
    {
        self.record_transaction_outcome(false, processing_micros, 0);
    }

    /// Record one RPC call: the request counter grows, the latency histogram
    /// absorbs the (clamped) latency, and the error counter grows exactly
    /// when the call failed.
    pub fn record_rpc_call(&mut self, latency_micros: i64, success: bool)
        requires
            old(self).wf(),
            old(self).standard_layout(),
        ensures
            final(self).wf(),
            final(self).standard_layout(),
            final(self).counter_at(IDX_RPC_REQUESTS as int) == sat_add64(
                old(self).counter_at(IDX_RPC_REQUESTS as int),
                1,
            ),
            hist_observed(
                old(self).instruments@[IDX_RPC_LATENCY as int].value,
                final(self).instruments@[IDX_RPC_LATENCY as int].value,
                clamp0(latency_micros),
            ),
            final(self).counter_at(IDX_RPC_ERRORS as int) == (if success {
                old(self).counter_at(IDX_RPC_ERRORS as int)
            } else {
                sat_add64(old(self).counter_at(IDX_RPC_ERRORS as int), 1)
            }),
            old(self).frame(
                *final(self),
                set![IDX_RPC_REQUESTS as int, IDX_RPC_ERRORS as int, IDX_RPC_LATENCY as int],
            ),
    {
        let d: u64 = clamp_measure(latency_micros);
        self.inc_counter(IDX_RPC_REQUESTS);
        self.observe(IDX_RPC_LATENCY, d);
        if !success {
            self.inc_counter(IDX_RPC_ERRORS);
        }
    }

    /// Record one database query: the duration histogram absorbs the
    /// (clamped) duration, and the error counter grows exactly when the
    /// query failed.
    pub fn record_db_query(&mut self, duration_micros: i64, success: bool)
        requires
            old(self).wf(),
            old(self).standard_layout(),
        ensures
            final(self).wf(),
            final(self).standard_layout(),
            hist_observed(
                old(self).instruments@[IDX_DB_DURATION as int].value,
                final(self).instruments@[IDX_DB_DURATION as int].value,
                clamp0(duration_micros),
            ),
            final(self).counter_at(IDX_DB_ERRORS as int) == (if success {
                old(self).counter_at(IDX_DB_ERRORS as int)
            } else {
                sat_add64(old(self).counter_at(IDX_DB_ERRORS as int), 1)
            }),
            old(self).frame(
                *final(self),
                set![IDX_DB_DURATION as int, IDX_DB_ERRORS as int],
            ),
    {
        let d: u64 = clamp_measure(duration_micros);
        self.observe(IDX_DB_DURATION, d);
        if !success {
            self.inc_counter(IDX_DB_ERRORS);
        }
    }

    /// Record one handled HTTP request against the RPC instruments (the
    /// current design attaches no per-request labels): the request counter
    /// grows, the latency histogram absorbs the (clamped) duration, and the
    /// error counter grows exactly when the status code is a 4xx or 5xx.
    /// Returns the structured log line for the request.
    pub fn record_http_request(
        &mut self,
        method: &str,
        path: &str,
        status: u16,
        duration_micros: i64,
    ) -> (log_line: String)
        requires
            old(self).wf(),
            old(self).standard_layout(),
        ensures
            final(self).wf(),
            final(self).standard_layout(),
            final(self).counter_at(IDX_RPC_REQUESTS as int) == sat_add64(
                old(self).counter_at(IDX_RPC_REQUESTS as int),
                1,
            ),
            hist_observed(
                old(self).instruments@[IDX_RPC_LATENCY as int].value,
                final(self).instruments@[IDX_RPC_LATENCY as int].value,
                clamp0(duration_micros),
            ),
            final(self).counter_at(IDX_RPC_ERRORS as int) == (if spec_status_is_error(status) {
                sat_add64(old(self).counter_at(IDX_RPC_ERRORS as int), 1)
            } else {
                old(self).counter_at(IDX_RPC_ERRORS as int)
            }),
            old(self).frame(
                *final(self),
                set![IDX_RPC_REQUESTS as int, IDX_RPC_ERRORS as int, IDX_RPC_LATENCY as int],
            ),
            log_line@ == http_log_line(method@, path@, status, clamp0(duration_micros)),
    {
        let d: u64 = clamp_measure(duration_micros);
        self.inc_counter(IDX_RPC_REQUESTS);
        self.observe(IDX_RPC_LATENCY, d);
        if http_status_is_error(status) {
            self.inc_counter(IDX_RPC_ERRORS);
        }
        let mut out: Vec<char> = Vec::new();
        push_str_chars(&mut out, "method=");
        push_str_chars(&mut out, method);
        push_str_chars(&mut out, " path=");
        push_str_chars(&mut out, path);
        push_str_chars(&mut out, " status=");
        push_dec(&mut out, status as u64);
        push_str_chars(&mut out, " duration_ms=");
        push_dec(&mut out, d / 1000);
        push_str_chars(&mut out, " HTTP request processed");
        proof {
            assert(out@ =~= http_log_line(method@, path@, status, clamp0(duration_micros)));
        }
        chars_to_string(out)
    }
}

/// Clamp a signed micro-unit measurement to a nonnegative amount.
pub fn clamp_measure(x: i64) -> (r: u64)
    ensures
        r == clamp0(x),
{
    if x < 0 {
        0
    } else {
        x as u64
    }
}



/// How many of the outcomes in `s` are successes.
pub open spec fn count_true(s: Seq<bool>) -> nat
    decreases s.len(),
{
    if s.len() == 0 {
        0
    } else {
        count_true(s.drop_last()) + (if s.last() {
            1nat
        } else {
            0nat
        })
    }
}

/// No more successes than outcomes.
pub proof fn lemma_count_true_bound(s: Seq<bool>)
    ensures
        count_true(s) <= s.len(),
    decreases s.len(),
{
    if s.len() > 0 {
        lemma_count_true_bound(s.drop_last());
    }
}

/// One [`MetricsCollector::record_transaction_outcome`] call takes `pre` to
/// `post`: exactly what that operation's contract says of the three
/// transaction counters.
pub open spec fn outcome_step(pre: MetricsCollector, post: MetricsCollector, success: bool) -> bool {
    &&& post.counter_at(IDX_TRANSACTIONS_TOTAL as int) == sat_add64(
        pre.counter_at(IDX_TRANSACTIONS_TOTAL as int),
        1,
    )
    &&& post.counter_at(IDX_TRANSACTIONS_SUCCESS as int) == (if success {
        sat_add64(pre.counter_at(IDX_TRANSACTIONS_SUCCESS as int), 1)
    } else {
        pre.counter_at(IDX_TRANSACTIONS_SUCCESS as int)
    })
    &&& post.counter_at(IDX_TRANSACTIONS_FAILED as int) == (if success {
        pre.counter_at(IDX_TRANSACTIONS_FAILED as int)
    } else {
        sat_add64(pre.counter_at(IDX_TRANSACTIONS_FAILED as int), 1)
    })
}

/// Law: however `n` transaction outcomes with `count_true(outcomes)`
/// successes interleave, the result of recording all of them is the same,
/// because each call is atomic and the counters grow by amounts that depend
/// only on how many successes and failures there were: afterwards the total
/// counter has grown by `n`, the success counter by the number of successes
/// and the failure counter by the number of failures.  The `states` sequence
/// is any serialization of the concurrent calls, each step obeying the
/// recording operation's contract; the bounds keep the counters below the
/// point where an addition would saturate.
pub proof fn lemma_outcome_accumulation(states: Seq<MetricsCollector>, outcomes: Seq<bool>)
    requires
        states.len() == outcomes.len() + 1,
        forall|k: int|
            0 <= k < outcomes.len() ==> outcome_step(states[k], states[k + 1], outcomes[k]),
        states[0].counter_at(IDX_TRANSACTIONS_TOTAL as int) + outcomes.len() <= u64::MAX,
        states[0].counter_at(IDX_TRANSACTIONS_SUCCESS as int) + outcomes.len() <= u64::MAX,
        states[0].counter_at(IDX_TRANSACTIONS_FAILED as int) + outcomes.len() <= u64::MAX,
    ensures
        states.last().counter_at(IDX_TRANSACTIONS_TOTAL as int) == states[0].counter_at(
            IDX_TRANSACTIONS_TOTAL as int,
        ) + outcomes.len(),
        states.last().counter_at(IDX_TRANSACTIONS_SUCCESS as int) == states[0].counter_at(
            IDX_TRANSACTIONS_SUCCESS as int,
        ) + count_true(outcomes),
        states.last().counter_at(IDX_TRANSACTIONS_FAILED as int) == states[0].counter_at(
            IDX_TRANSACTIONS_FAILED as int,
        ) + (outcomes.len() - count_true(outcomes)),
    decreases outcomes.len(),
{
    if outcomes.len() > 0 {
        let prefix_states = states.drop_last();
        let prefix = outcomes.drop_last();
        assert forall|k: int| 0 <= k < prefix.len() implies outcome_step(
            prefix_states[k],
            prefix_states[k + 1],
            prefix[k],
        ) by {
            assert(outcome_step(states[k], states[k + 1], outcomes[k]));
        }
        lemma_outcome_accumulation(prefix_states, prefix);
        lemma_count_true_bound(prefix);
        lemma_count_true_bound(outcomes);
        assert(outcome_step(states[states.len() - 2], states.last(), outcomes.last()));
        assert(prefix_states.last() == states[states.len() - 2]);
        assert(count_true(outcomes) == count_true(prefix) + (if outcomes.last() {
            1nat
        } else {
            0nat
        }));
    }
}

/// An update that keeps an instrument's name, help, kind and histogram
/// bounds, and keeps its value consistent, preserves well-formedness and the
/// standard layout.
proof fn lemma_point_update(pre: MetricsCollector, post: MetricsCollector, i: int)
    requires
        0 <= i < pre.instruments@.len(),
        post.instruments@.len() == pre.instruments@.len(),
        forall|j: int|
            0 <= j < pre.instruments@.len() && j != i ==> post.instruments@[j]
                == pre.instruments@[j],
        post.instruments@[i].name == pre.instruments@[i].name,
        post.instruments@[i].help == pre.instruments@[i].help,
        value_wf(post.instruments@[i].value),
        same_kind(pre.instruments@[i].value, post.instruments@[i].value),
    ensures
        pre.wf() ==> post.wf(),
        pre.standard_layout() ==> post.standard_layout(),
{
    if pre.wf() {
        assert forall|a: int| 0 <= a < post.instruments@.len() implies value_wf(
            #[trigger] post.instruments@[a].value,
        ) by {
            if a != i {
                assert(post.instruments@[a] == pre.instruments@[a]);
            }
        }
        assert forall|a: int, b: int| 0 <= a < b < post.instruments@.len() implies post.instruments@[a].name@
            != post.instruments@[b].name@ by {
            if a != i {
                assert(post.instruments@[a] == pre.instruments@[a]);
            }
            if b != i {
                assert(post.instruments@[b] == pre.instruments@[b]);
            }
        }
    }
    if pre.standard_layout() {
        assert forall|k: int| 0 <= k < CATALOG_LEN as int implies catalog_entry_ok(
            k,
            #[trigger] post.instruments@[k],
        ) by {
            assert(catalog_entry_ok(k, pre.instruments@[k]));
        }
    }
}

/// Two values of the same kind; histograms additionally keep their bounds.
pub open spec fn same_kind(a: MetricValue, b: MetricValue) -> bool {
    match (a, b) {
        (MetricValue::Counter { .. }, MetricValue::Counter { .. }) => true,
        (MetricValue::ScaledCounter { .. }, MetricValue::ScaledCounter { .. }) => true,
        (MetricValue::Gauge { .. }, MetricValue::Gauge { .. }) => true,
        (MetricValue::ScaledGauge { .. }, MetricValue::ScaledGauge { .. }) => true,
        (MetricValue::Histogram { bounds: b0, .. }, MetricValue::Histogram { bounds: b1, .. }) => {
            b1@ == b0@
        },
        _ => false,
    }
}

} // verus!
