//! The text exposition format.
//!
//! [`MetricsCollector::export_metrics`] serializes every instrument as one
//! block: a `# HELP` line, a `# TYPE` line, then one sample line per value —
//! counters and gauges emit a single sample; histograms emit one cumulative
//! `_bucket` line per bound, an implicit `+Inf` bucket, a `_sum` and a
//! `_count` line.  The output equals [`export_str`] exactly, so it is
//! deterministic; the lemmas at the end state the shape guarantees: one
//! block per registered instrument, and every emitted value numeric.

use vstd::prelude::*;
use crate::registry::Instrument;
use crate::registry::MetricValue;
use crate::registry::MetricsCollector;
use crate::registry::MetricsError;
use crate::registry::value_wf;
use crate::text::chars_to_string;
use crate::text::dec_str;
use crate::text::fixed_str;
use crate::text::frac6;
use crate::text::push_dec;
use crate::text::push_fixed;
use crate::text::push_signed_dec;
use crate::text::push_signed_fixed;
use crate::text::push_str_chars;
use crate::text::signed_dec_str;
use crate::text::signed_fixed_str;
use crate::text::strip0;

verus! {

/// The keyword of the `# TYPE` line for a value's kind.
pub open spec fn kind_str(v: MetricValue) -> Seq<char> {
    match v {
        MetricValue::Counter { .. } => "counter"@,
        MetricValue::ScaledCounter { .. } => "counter"@,
        MetricValue::Gauge { .. } => "gauge"@,
        MetricValue::ScaledGauge { .. } => "gauge"@,
        MetricValue::Histogram { .. } => "histogram"@,
    }
}

/// The cumulative `_bucket` lines for the first `n` buckets.
pub open spec fn bucket_lines(
    name: Seq<char>,
    bounds: Seq<u64>,
    cum: Seq<u64>,
    n: int,
) -> Seq<char>
    decreases n,
{
    if n <= 0 {
        Seq::empty()
    } else {
        bucket_lines(name, bounds, cum, n - 1) + name + "_bucket{le=\""@ + fixed_str(
            bounds[n - 1] as nat,
        ) + "\"} "@ + dec_str(cum[n - 1] as nat) + "\n"@
    }
}

/// The sample lines of one instrument.
pub open spec fn sample_lines(name: Seq<char>, v: MetricValue) -> Seq<char> {
    match v {
        MetricValue::Counter { count } => name + " "@ + dec_str(count as nat) + "\n"@,
        MetricValue::ScaledCounter { micros } => name + " "@ + fixed_str(micros as nat) + "\n"@,
        MetricValue::Gauge { value } => name + " "@ + signed_dec_str(value as int) + "\n"@,
        MetricValue::ScaledGauge { level_micros } => name + " "@ + signed_fixed_str(
            level_micros as int,
        ) + "\n"@,
        MetricValue::Histogram { bounds, cumulative, sum_micros, count } => hist_sample_lines(
            name,
            bounds@,
            cumulative@,
            sum_micros,
            count,
        ),
    }
}

/// The histogram sample lines: cumulative buckets, the implicit `+Inf`
/// bucket, the running sum and the observation count.
pub open spec fn hist_sample_lines(
    name: Seq<char>,
    bounds: Seq<u64>,
    cum: Seq<u64>,
    sum_micros: u64,
    count: u64,
) -> Seq<char> {
    bucket_lines(name, bounds, cum, bounds.len() as int) + name + "_bucket{le=\"+Inf\"} "@
        + dec_str(count as nat) + "\n"@ + name + "_sum "@ + fixed_str(sum_micros as nat) + "\n"@
        + name + "_count "@ + dec_str(count as nat) + "\n"@
}

/// The HELP and TYPE lines of one instrument.
pub open spec fn header_str(inst: Instrument) -> Seq<char> {
    "# HELP "@ + inst.name@ + " "@ + inst.help@ + "\n"@ + "# TYPE "@ + inst.name@ + " "@
        + kind_str(inst.value) + "\n"@
}

/// The whole block of one instrument: HELP line, TYPE line, sample lines.
pub open spec fn block_str(inst: Instrument) -> Seq<char> {
    header_str(inst) + sample_lines(inst.name@, inst.value)
}

/// The whole exposition text: one block per instrument, in order.
pub open spec fn export_str(s: Seq<Instrument>) -> Seq<char>
    decreases s.len(),
{
    if s.len() == 0 {
        Seq::empty()
    } else {
        export_str(s.drop_last()) + block_str(s.last())
    }
}

/// Append the HELP and TYPE lines of one instrument.
fn push_header(out: &mut Vec<char>, inst: &Instrument)
    ensures
        final(out)@ == old(out)@ + header_str(*inst),
{
    push_str_chars(out, "# HELP ");
    push_str_chars(out, inst.name.as_str());
    push_str_chars(out, " ");
    push_str_chars(out, inst.help.as_str());
    push_str_chars(out, "\n");
    push_str_chars(out, "# TYPE ");
    push_str_chars(out, inst.name.as_str());
    push_str_chars(out, " ");
    match &inst.value {
        MetricValue::Counter { .. } => push_str_chars(out, "counter"),
        MetricValue::ScaledCounter { .. } => push_str_chars(out, "counter"),
        MetricValue::Gauge { .. } => push_str_chars(out, "gauge"),
        MetricValue::ScaledGauge { .. } => push_str_chars(out, "gauge"),
        MetricValue::Histogram { .. } => push_str_chars(out, "histogram"),
    }
    push_str_chars(out, "\n");
    proof {
        assert(out@ =~= old(out)@ + header_str(*inst));
    }
}

/// Append the sample lines of one histogram.
#[verifier::rlimit(100)]
#[verifier::loop_isolation(false)]
fn push_hist_samples(
    out: &mut Vec<char>,
    name: &str,
    bounds: &Vec<u64>,
    cumulative: &Vec<u64>,
    sum_micros: u64,
    count: u64,
)
    requires
        cumulative@.len() == bounds@.len(),
    ensures
        final(out)@ == old(out)@ + hist_sample_lines(
            name@,
            bounds@,
            cumulative@,
            sum_micros,
            count,
        ),
{
    let m: usize = bounds.len();
    let ghost base: Seq<char> = out@;
    let mut j: usize = 0;
    while j < m
        invariant
            j <= m,
            out@ == base + bucket_lines(name@, bounds@, cumulative@, j as int),
        decreases m - j,
    {
        push_str_chars(out, name);
        push_str_chars(out, "_bucket{le=\"");
        push_fixed(out, bounds[j]);
        push_str_chars(out, "\"} ");
        push_dec(out, cumulative[j]);
        push_str_chars(out, "\n");
        j = j + 1;
        proof {
            assert(out@ =~= base + bucket_lines(name@, bounds@, cumulative@, j as int));
        }
    }
    push_str_chars(out, name);
    push_str_chars(out, "_bucket{le=\"+Inf\"} ");
    push_dec(out, count);
    push_str_chars(out, "\n");
    push_str_chars(out, name);
    push_str_chars(out, "_sum ");
    push_fixed(out, sum_micros);
    push_str_chars(out, "\n");
    push_str_chars(out, name);
    push_str_chars(out, "_count ");
    push_dec(out, count);
    push_str_chars(out, "\n");
    proof {
        assert(out@ =~= base + hist_sample_lines(name@, bounds@, cumulative@, sum_micros, count));
    }
}

/// Append the block of one instrument.
#[verifier::rlimit(100)]
fn push_block(out: &mut Vec<char>, inst: &Instrument)
    requires
        value_wf(inst.value),
    ensures
        final(out)@ == old(out)@ + block_str(*inst),
{
    push_header(out, inst);
    let ghost mid: Seq<char> = out@;
    match &inst.value {
        MetricValue::Counter { count } => {
            push_str_chars(out, inst.name.as_str());
            push_str_chars(out, " ");
            push_dec(out, *count);
            push_str_chars(out, "\n");
            proof {
                assert(out@ =~= mid + sample_lines(inst.name@, inst.value));
            }
        },
        MetricValue::ScaledCounter { micros } => {
            push_str_chars(out, inst.name.as_str());
            push_str_chars(out, " ");
            push_fixed(out, *micros);
            push_str_chars(out, "\n");
            proof {
                assert(out@ =~= mid + sample_lines(inst.name@, inst.value));
            }
        },
        MetricValue::Gauge { value } => {
            push_str_chars(out, inst.name.as_str());
            push_str_chars(out, " ");
            push_signed_dec(out, *value);
            push_str_chars(out, "\n");
            proof {
                assert(out@ =~= mid + sample_lines(inst.name@, inst.value));
            }
        },
        MetricValue::ScaledGauge { level_micros } => {
            push_str_chars(out, inst.name.as_str());
            push_str_chars(out, " ");
            push_signed_fixed(out, *level_micros);
            push_str_chars(out, "\n");
            proof {
                assert(out@ =~= mid + sample_lines(inst.name@, inst.value));
            }
        },
        MetricValue::Histogram { bounds, cumulative, sum_micros, count } => {
            push_hist_samples(out, inst.name.as_str(), bounds, cumulative, *sum_micros, *count);
            proof {
                assert(out@ == mid + sample_lines(inst.name@, inst.value));
            }
        },
    }
    proof {
        assert(out@ =~= old(out)@ + block_str(*inst));
    }
}

impl MetricsCollector {
    /// Serialize every instrument into the stable text exposition format.
    /// The result is exactly [`export_str`] of the current instruments, so
    /// equal registry states export equal text.
    #[verifier::loop_isolation(false)]
    pub fn export_metrics(&self) -> (r: Result<String, MetricsError>)
        requires
            self.wf(),
        ensures
            r matches Ok(text) && text@ == export_str(self.instruments@),
    {
        let mut out: Vec<char> = Vec::new();
        let n: usize = self.instruments.len();
        let mut idx: usize = 0;
        while idx < n
            invariant
                idx <= n,
                out@ == export_str(self.instruments@.take(idx as int)),
            decreases n - idx,
        {
            push_block(&mut out, &self.instruments[idx]);
            idx = idx + 1;
            proof {
                let pre = self.instruments@.take(idx - 1);
                let cur = self.instruments@.take(idx as int);
                assert(cur.drop_last() =~= pre);
                assert(cur.last() == self.instruments@[idx - 1]);
            }
        }
        proof {
            assert(self.instruments@.take(n as int) =~= self.instruments@);
        }
        Ok(chars_to_string(out))
    }
}

/// The block of each instrument, in order.
pub open spec fn blocks(s: Seq<Instrument>) -> Seq<Seq<char>> {
    s.map(|i: int, inst: Instrument| block_str(inst))
}

/// Concatenation of a list of text pieces.
pub open spec fn concat_pieces(bs: Seq<Seq<char>>) -> Seq<char>
    decreases bs.len(),
{
    if bs.len() == 0 {
        Seq::empty()
    } else {
        concat_pieces(bs.drop_last()) + bs.last()
    }
}

/// Law: the exposition text is the concatenation, in registration order, of
/// exactly one block per registered instrument, and each block opens with
/// that instrument's HELP and TYPE lines followed by its sample lines.
pub proof fn lemma_export_one_block_per_instrument(s: Seq<Instrument>)
    ensures
        blocks(s).len() == s.len(),
        export_str(s) == concat_pieces(blocks(s)),
        forall|i: int|
            0 <= i < s.len() ==> blocks(s)[i] == header_str(s[i]) + sample_lines(
                s[i].name@,
                s[i].value,
            ),
    decreases s.len(),
{
    if s.len() > 0 {
        lemma_export_one_block_per_instrument(s.drop_last());
        assert(blocks(s).drop_last() =~= blocks(s.drop_last()));
        assert(blocks(s).last() == block_str(s.last()));
    }
}

/// A decimal digit character.
pub open spec fn is_digit_char(c: char) -> bool {
    c == '0' || c == '1' || c == '2' || c == '3' || c == '4' || c == '5' || c == '6' || c == '7'
        || c == '8' || c == '9'
}

/// Law: the decimal rendering of a number is nonempty and all digits.
pub proof fn lemma_dec_str_digits(n: nat)
    ensures
        dec_str(n).len() > 0,
        forall|k: int| 0 <= k < dec_str(n).len() ==> is_digit_char(#[trigger] dec_str(n)[k]),
    decreases n,
{
    if n >= 10 {
        lemma_dec_str_digits(n / 10);
    }
}

/// Stripping trailing zeros keeps a prefix.
proof fn lemma_strip0_prefix(s: Seq<char>)
    ensures
        strip0(s).len() <= s.len(),
        forall|k: int| 0 <= k < strip0(s).len() ==> strip0(s)[k] == s[k],
    decreases s.len(),
{
    if s.len() > 0 && s.last() == '0' {
        lemma_strip0_prefix(s.drop_last());
        assert forall|k: int| 0 <= k < strip0(s).len() implies strip0(s)[k] == s[k] by {
            assert(strip0(s) == strip0(s.drop_last()));
            assert(strip0(s)[k] == s.drop_last()[k]);
            assert(s.drop_last()[k] == s[k]);
        }
    }
}

/// Law: every fixed-point value the exposition format emits is numeric and
/// well-formed — nonempty, opening with a digit, and made of digits with at
/// most one decimal point.
pub proof fn lemma_fixed_str_numeric(m: nat)
    ensures
        fixed_str(m).len() > 0,
        is_digit_char(fixed_str(m)[0]),
        forall|k: int|
            0 <= k < fixed_str(m).len() ==> is_digit_char(#[trigger] fixed_str(m)[k])
                || fixed_str(m)[k] == '.',
        forall|k: int, l: int|
            0 <= k < l < fixed_str(m).len() && fixed_str(m)[k] == '.' ==> fixed_str(m)[l]
                != '.',
        fixed_str(m).last() != '.',
{
    let ip = m / 1000000;
    let fr = m % 1000000;
    lemma_dec_str_digits(ip);
    if fr != 0 {
        lemma_frac_nonempty(fr);
        let whole = dec_str(ip);
        let tail = strip0(frac6(fr));
        lemma_strip0_prefix(frac6(fr));
        assert(fixed_str(m) == whole + seq!['.'] + tail);
        assert forall|k: int| 0 <= k < fixed_str(m).len() implies is_digit_char(
            #[trigger] fixed_str(m)[k],
        ) || fixed_str(m)[k] == '.' by {
            if k < whole.len() {
                assert(fixed_str(m)[k] == whole[k]);
            } else if k == whole.len() {
                assert(fixed_str(m)[k] == '.');
            } else {
                assert(fixed_str(m)[k] == tail[k - whole.len() - 1]);
                assert(tail[k - whole.len() - 1] == frac6(fr)[k - whole.len() - 1]);
            }
        }
        assert forall|k: int, l: int|
            0 <= k < l < fixed_str(m).len() && fixed_str(m)[k] == '.' implies fixed_str(m)[l]
            != '.' by {
            if k < whole.len() {
                assert(is_digit_char(whole[k]));
            }
            if l > whole.len() {
                assert(fixed_str(m)[l] == frac6(fr)[l - whole.len() - 1]);
            }
        }
    }
}


/// Law: every signed integer value the exposition format emits is numeric:
/// an optional leading minus sign followed by decimal digits.
pub proof fn lemma_signed_dec_str_numeric(v: int)
    ensures
        signed_dec_str(v).len() > 0,
        v >= 0 ==> signed_dec_str(v) == dec_str(v as nat),
        v < 0 ==> signed_dec_str(v)[0] == '-' && signed_dec_str(v).skip(1) == dec_str((-v) as nat),
{
    if v < 0 {
        lemma_dec_str_digits((-v) as nat);
        assert(signed_dec_str(v).skip(1) =~= dec_str((-v) as nat));
    } else {
        lemma_dec_str_digits(v as nat);
    }
}

/// Law: every signed fixed-point value the exposition format emits is
/// numeric: an optional leading minus sign followed by a fixed-point number.
pub proof fn lemma_signed_fixed_str_numeric(v: int)
    ensures
        signed_fixed_str(v).len() > 0,
        v >= 0 ==> signed_fixed_str(v) == fixed_str(v as nat),
        v < 0 ==> signed_fixed_str(v)[0] == '-' && signed_fixed_str(v).skip(1) == fixed_str(
            (-v) as nat,
        ),
{
    if v < 0 {
        lemma_fixed_str_numeric((-v) as nat);
        assert(signed_fixed_str(v).skip(1) =~= fixed_str((-v) as nat));
    } else {
        lemma_fixed_str_numeric(v as nat);
    }
}

/// A stripped sequence is empty only when every character was a zero digit.
proof fn lemma_strip0_empty_all_zero(s: Seq<char>)
    requires
        strip0(s).len() == 0,
    ensures
        forall|k: int| 0 <= k < s.len() ==> s[k] == '0',
    decreases s.len(),
{
    if s.len() > 0 {
        assert(s.last() == '0');
        lemma_strip0_empty_all_zero(s.drop_last());
        assert forall|k: int| 0 <= k < s.len() implies s[k] == '0' by {
            if k < s.len() - 1 {
                assert(s.drop_last()[k] == '0');
            }
        }
    }
}

/// A nonzero fraction keeps at least one digit after stripping, so a
/// fixed-point value never ends in a bare decimal point.
proof fn lemma_frac_nonempty(fr: nat)
    requires
        0 < fr < 1000000,
    ensures
        strip0(frac6(fr)).len() > 0,
{
    if strip0(frac6(fr)).len() == 0 {
        lemma_strip0_empty_all_zero(frac6(fr));
        assert(frac6(fr)[0] == '0');
        assert(frac6(fr)[1] == '0');
        assert(frac6(fr)[2] == '0');
        assert(frac6(fr)[3] == '0');
        assert(frac6(fr)[4] == '0');
        assert(frac6(fr)[5] == '0');
        assert(fr / 100000 % 10 == 0);
        assert(fr / 10000 % 10 == 0);
        assert(fr / 1000 % 10 == 0);
        assert(fr / 100 % 10 == 0);
        assert(fr / 10 % 10 == 0);
        assert(fr % 10 == 0);
        assert(fr == 0) by (nonlinear_arith)
            requires
                fr < 1000000,
                fr / 100000 % 10 == 0,
                fr / 10000 % 10 == 0,
                fr / 1000 % 10 == 0,
                fr / 100 % 10 == 0,
                fr / 10 % 10 == 0,
                fr % 10 == 0,
        {}
    }
}

} // verus!
