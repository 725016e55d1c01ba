//! The metric registry: named instruments with counter, gauge and histogram
//! values.
//!
//! Quantities that the service measures in fractional units (seconds of
//! latency, gas) are carried as fixed-point integers counting millionths,
//! see [`crate::text`].  A *scaled* counter or gauge holds such a
//! fixed-point value; a plain counter or gauge counts whole events.
//!
//! Instrument names are unique within a registry and the set of instruments
//! is fixed after construction; registration of a duplicate name or of a
//! histogram with an empty or non-ascending bucket list fails, and such a
//! failure is meant to abort startup.  Recording operations never fail:
//! additions saturate at the counter's maximum instead of overflowing.

use vstd::prelude::*;

verus! {

/// The state of one metric instrument.
#[derive(PartialEq, Eq)]
pub enum MetricValue {
    /// A monotone count of whole events.
    Counter { count: u64 },
    /// A monotone fixed-point total, in micro-units.
    ScaledCounter { micros: u64 },
    /// A signed level of whole units.
    Gauge { value: i64 },
    /// A signed fixed-point level, in micro-units.
    ScaledGauge { level_micros: i64 },
    /// An observation histogram: ascending bucket bounds in micro-units,
    /// cumulative per-bucket counts, and a running sum and count.
    Histogram { bounds: Vec<u64>, cumulative: Vec<u64>, sum_micros: u64, count: u64 },
}

/// A named instrument with immutable help text.
pub struct Instrument {
    pub name: String,
    pub help: String,
    pub value: MetricValue,
}

/// Why a registration was rejected.
#[derive(Clone, Copy, Debug, PartialEq, Eq, Structural)]
pub enum MetricsError {
    /// An instrument with the same name is already registered.
    DuplicateName,
    /// A histogram's bucket list is empty or not strictly ascending.
    InvalidBuckets,
}

/// Owns all instruments of the process; constructed once at startup and
/// shared by every recording and exporting caller.
pub struct MetricsCollector {
    pub instruments: Vec<Instrument>,
}

/// `a + b`, saturating at `u64::MAX`.
pub open spec fn sat_add64(a: u64, b: u64) -> u64 {
    if a + b > u64::MAX {
        u64::MAX
    } else {
        (a + b) as u64
    }
}

/// A negative measurement is clamped to zero rather than rejected.
pub open spec fn clamp0(x: i64) -> u64 {
    if x < 0 {
        0
    } else {
        x as u64
    }
}

/// Internal consistency of one instrument value.  For a histogram: at least
/// one bucket, strictly ascending bounds, one cumulative count per bucket,
/// counts nondecreasing across buckets and never above the total count.
pub open spec fn value_wf(v: MetricValue) -> bool {
    match v {
        MetricValue::Histogram { bounds, cumulative, sum_micros: _, count } => {
            &&& bounds@.len() > 0
            &&& cumulative@.len() == bounds@.len()
            &&& forall|p: int, q: int|
                0 <= p < q < bounds@.len() ==> bounds@[p] < bounds@[q]
            &&& forall|p: int, q: int|
                0 <= p <= q < cumulative@.len() ==> cumulative@[p] <= cumulative@[q]
            &&& forall|p: int| 0 <= p < cumulative@.len() ==> cumulative@[p] <= count
        },
        _ => true,
    }
}

/// A freshly registered value: every count and sum is zero.
pub open spec fn value_fresh(v: MetricValue) -> bool {
    match v {
        MetricValue::Counter { count } => count == 0,
        MetricValue::ScaledCounter { micros } => micros == 0,
        MetricValue::Gauge { value } => value == 0,
        MetricValue::ScaledGauge { level_micros } => level_micros == 0,
        MetricValue::Histogram { bounds: _, cumulative, sum_micros, count } => {
            &&& sum_micros == 0
            &&& count == 0
            &&& forall|p: int| 0 <= p < cumulative@.len() ==> cumulative@[p] == 0
        },
    }
}

/// Every value consistent and every name unique.
pub open spec fn instruments_wf(s: Seq<Instrument>) -> bool {
    &&& forall|i: int| 0 <= i < s.len() ==> value_wf(#[trigger] s[i].value)
    &&& forall|i: int, j: int| 0 <= i < j < s.len() ==> s[i].name@ != s[j].name@
}

/// How one observation changes a histogram: every bucket whose bound admits
/// the observation counts it, and the running sum and count grow, saturating.
pub open spec fn hist_observed(oldv: MetricValue, newv: MetricValue, d: u64) -> bool {
    match (oldv, newv) {
        (
            MetricValue::Histogram { bounds: b0, cumulative: c0, sum_micros: s0, count: n0 },
            MetricValue::Histogram { bounds: b1, cumulative: c1, sum_micros: s1, count: n1 },
        ) => {
            &&& b1@ == b0@
            &&& c1@.len() == c0@.len()
            &&& forall|p: int|
                0 <= p < c0@.len() ==> c1@[p] == (if d <= b0@[p] {
                    sat_add64(c0@[p], 1)
                } else {
                    c0@[p]
                })
            &&& s1 == sat_add64(s0, d)
            &&& n1 == sat_add64(n0, 1)
        },
        _ => false,
    }
}

impl MetricsCollector {
    /// The registry's instruments are consistent and uniquely named.
    pub open spec fn wf(self) -> bool {
        instruments_wf(self.instruments@)
    }

    /// The count of a plain counter instrument.
    pub open spec fn counter_at(self, i: int) -> u64 {
        match self.instruments@[i].value {
            MetricValue::Counter { count } => count,
            _ => arbitrary(),
        }
    }

    /// The fixed-point total of a scaled counter instrument.
    pub open spec fn scaled_counter_at(self, i: int) -> u64 {
        match self.instruments@[i].value {
            MetricValue::ScaledCounter { micros } => micros,
            _ => arbitrary(),
        }
    }

    /// Everything outside `changed` is untouched, and even at changed
    /// indices the instrument keeps its name and help.
    pub open spec fn frame(self, post: MetricsCollector, changed: Set<int>) -> bool {
        &&& post.instruments@.len() == self.instruments@.len()
        &&& forall|j: int|
            0 <= j < self.instruments@.len() && !changed.contains(j)
                ==> post.instruments@[j] == self.instruments@[j]
        &&& forall|j: int|
            0 <= j < self.instruments@.len() ==> #[trigger] post.instruments@[j].name@
                == self.instruments@[j].name@ && post.instruments@[j].help@
                == self.instruments@[j].help@
    }

    /// An empty registry.
    pub fn empty() -> (r: MetricsCollector)
        ensures
            r.wf(),
            r.instruments@.len() == 0,
    {
        MetricsCollector { instruments: Vec::new() }
    }

    /// Add one instrument.  Fails exactly when the value is malformed or the
    /// name is already taken; the registry is unchanged on failure.
    #[verifier::loop_isolation(false)]
    pub fn register(&mut self, inst: Instrument) -> (r: Result<(), MetricsError>)
        requires
            old(self).wf(),
        ensures
            final(self).wf(),
            ({
                let pre = old(self).instruments@;
                match r {
                    Ok(()) => {
                        &&& value_wf(inst.value)
                        &&& forall|j: int| 0 <= j < pre.len() ==> pre[j].name@ != inst.name@
                        &&& final(self).instruments@ == pre.push(inst)
                    },
                    Err(e) => {
                        &&& final(self).instruments@ == pre
                        &&& (e == MetricsError::InvalidBuckets <==> !value_wf(inst.value))
                        &&& (e == MetricsError::DuplicateName ==> exists|j: int|
                            0 <= j < pre.len() && pre[j].name@ == inst.name@)
                    },
                }
            }),
    {
        if !value_valid(&inst.value) {
            return Err(MetricsError::InvalidBuckets);
        }
        let n: usize = self.instruments.len();
        let mut j: usize = 0;
        while j < n
            invariant
                j <= n,
                n == self.instruments@.len(),
                forall|k: int| 0 <= k < j ==> self.instruments@[k].name@ != inst.name@,
            decreases n - j,
        {
            if self.instruments[j].name == inst.name {
                return Err(MetricsError::DuplicateName);
            }
            j = j + 1;
        }
        self.instruments.push(inst);
        Ok(())
    }

    /// Build a registry from a list of instruments, registering each in
    /// order.  Succeeds exactly when every value is consistent and every
    /// name is unique.
    #[verifier::loop_isolation(false)]
    pub fn from_instruments(list: Vec<Instrument>) -> (r: Result<MetricsCollector, MetricsError>)
        ensures
            match r {
                Ok(c) => c.wf() && c.instruments@ == list@,
                Err(_) => !instruments_wf(list@),
            },
    {
        let ghost orig: Seq<Instrument> = list@;
        let mut rest = list;
        let mut c = MetricsCollector::empty();
        let ghost mut k: int = 0;
        while rest.len() > 0
            invariant
                c.wf(),
                0 <= k <= orig.len(),
                c.instruments@ == orig.take(k),
                rest@ == orig.skip(k),
            decreases rest.len(),
        {
            let inst = rest.remove(0);
            assert(inst == orig[k]);
            assert(rest@ =~= orig.skip(k + 1));
            match c.register(inst) {
                Ok(()) => {},
                Err(e) => {
                    proof {
                        if e == MetricsError::InvalidBuckets {
                            assert(!value_wf(orig[k].value));
                        } else {
                            let j = choose|j: int|
                                0 <= j < orig.take(k).len() && orig.take(k)[j].name@
                                    == orig[k].name@;
                            assert(orig[j].name@ == orig[k].name@);
                        }
                        assert(!instruments_wf(orig));
                    }
                    return Err(e);
                },
            }
            proof {
                assert(c.instruments@ =~= orig.take(k + 1));
            }
            proof {
                k = k + 1;
            }
        }
        proof {
            assert(c.instruments@ =~= orig);
        }
        Ok(c)
    }

}

/// Check one instrument value for internal consistency.
#[verifier::loop_isolation(false)]
pub fn value_valid(v: &MetricValue) -> (b: bool)
    ensures
        b == value_wf(*v),
{
    match v {
        MetricValue::Histogram { bounds, cumulative, sum_micros: _, count } => {
            let m: usize = bounds.len();
            if m == 0 {
                return false;
            }
            if cumulative.len() != m {
                return false;
            }
            let mut j: usize = 1;
            while j < m
                invariant
                    1 <= j <= m,
                    m == bounds@.len(),
                    forall|k: int| 1 <= k < j ==> bounds@[k - 1] < #[trigger] bounds@[k],
                decreases m - j,
            {
                if bounds[j - 1] >= bounds[j] {
                    return false;
                }
                j = j + 1;
            }
            proof {
                lemma_adjacent_lt_implies_sorted(bounds@);
            }
            let mut j: usize = 1;
            while j < m
                invariant
                    1 <= j <= m,
                    m == cumulative@.len(),
                    forall|k: int| 1 <= k < j ==> cumulative@[k - 1] <= #[trigger] cumulative@[k],
                decreases m - j,
            {
                if cumulative[j - 1] > cumulative[j] {
                    return false;
                }
                j = j + 1;
            }
            proof {
                lemma_adjacent_le_implies_sorted(cumulative@);
            }
            if cumulative[m - 1] > *count {
                return false;
            }
            proof {
                assert forall|p: int| 0 <= p < cumulative@.len() implies cumulative@[p]
                    <= *count by {
                    assert(cumulative@[p] <= cumulative@[m - 1]);
                }
            }
            true
        },
        _ => true,
    }
}

/// `a + b`, saturating at `u64::MAX`.
pub fn sat_add(a: u64, b: u64) -> (r: u64)
    ensures
        r == sat_add64(a, b),
{
    if a <= u64::MAX - b {
        a + b
    } else {
        u64::MAX
    }
}

/// In a chain of strictly increasing neighbours, every earlier element is
/// below every later one.
proof fn lemma_chain_lt(s: Seq<u64>, p: int, q: int)
    requires
        forall|k: int| 1 <= k < s.len() ==> s[k - 1] < #[trigger] s[k],
        0 <= p < q < s.len(),
    ensures
        s[p] < s[q],
    decreases q - p,
{
    if p + 1 < q {
        lemma_chain_lt(s, p + 1, q);
    }
}

proof fn lemma_adjacent_lt_implies_sorted(s: Seq<u64>)
    requires
        forall|k: int| 1 <= k < s.len() ==> s[k - 1] < #[trigger] s[k],
    ensures
        forall|p: int, q: int| 0 <= p < q < s.len() ==> s[p] < s[q],
{
    assert forall|p: int, q: int| 0 <= p < q < s.len() implies s[p] < s[q] by {
        lemma_chain_lt(s, p, q);
    }
}

proof fn lemma_chain_le(s: Seq<u64>, p: int, q: int)
    requires
        forall|k: int| 1 <= k < s.len() ==> s[k - 1] <= #[trigger] s[k],
        0 <= p <= q < s.len(),
    ensures
        s[p] <= s[q],
    decreases q - p,
{
    if p < q {
        lemma_chain_le(s, p + 1, q);
    }
}

proof fn lemma_adjacent_le_implies_sorted(s: Seq<u64>)
    requires
        forall|k: int| 1 <= k < s.len() ==> s[k - 1] <= #[trigger] s[k],
    ensures
        forall|p: int, q: int| 0 <= p <= q < s.len() ==> s[p] <= s[q],
{
    assert forall|p: int, q: int| 0 <= p <= q < s.len() implies s[p] <= s[q] by {
        lemma_chain_le(s, p, q);
    }
}

} // verus!
