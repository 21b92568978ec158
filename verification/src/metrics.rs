//! Throughput counters, latency bookkeeping around an HDR histogram, the
//! integer parts of multi-worker aggregation, and latency formatting.

use vstd::prelude::*;
use vstd::string::*;

verus! {

/// Declares `std::time::Instant`, the start time of the collectors.
#[verifier::external_type_specification]
#[verifier::external_body]
pub struct ExInstant(std::time::Instant);

/// The HDR histogram that holds latency samples.
#[verifier::external_body]
pub struct LatencyHistogram {
    /// The histogram itself, for the floating-point statistics (mean,
    /// deviation, percentiles) computed by the program around the library.
    pub inner: hdrhistogram::Histogram<u64>,
}

/// Declares the histogram's creation error.
#[verifier::external_type_specification]
#[verifier::external_body]
pub struct ExCreationError(hdrhistogram::CreationError);

/// Declares the histogram's recording error.
#[verifier::external_type_specification]
#[verifier::external_body]
pub struct ExRecordError(hdrhistogram::RecordError);

/// Number of samples a histogram has recorded (`Histogram::len`).
pub uninterp spec fn histogram_len(h: LatencyHistogram) -> nat;

/// What `Histogram::min` reports for a histogram.
pub uninterp spec fn histogram_reported_min(h: LatencyHistogram) -> u64;

/// What `Histogram::max` reports for a histogram.
pub uninterp spec fn histogram_reported_max(h: LatencyHistogram) -> u64;

/// A histogram's highest trackable value (`Histogram::high`).
pub uninterp spec fn histogram_high(h: LatencyHistogram) -> u64;

/// A histogram's lowest discernible value (`Histogram::low`).
pub uninterp spec fn histogram_low(h: LatencyHistogram) -> u64;

/// The current instant, from `Instant::now`. Nothing is claimed of it.
#[verifier::external_body]
fn instant_now() -> std::time::Instant {
    std::time::Instant::now()
}

/// Nanoseconds elapsed since `start`, from `Instant::elapsed` (truncated to
/// 64 bits). Nothing is claimed of the value: it depends on the clock.
#[verifier::external_body]
fn elapsed_ns(start: &std::time::Instant) -> u64 {
    start.elapsed().as_nanos() as u64
}

/// Creates a histogram tracking values from 1 to `high` with `sigfig`
/// significant figures and no auto-resizing (`Histogram::new_with_max`).
/// Claimed, from the crate's argument checks: it succeeds when
/// `2 <= high` and `sigfig <= 5`; a created histogram has recorded
/// nothing, reports 0 as minimum and maximum, has `high` as its highest
/// trackable value and 1 as its lowest discernible value.
#[verifier::external_body]
fn histogram_new_with_max(high: u64, sigfig: u8) -> (r: Result<
    LatencyHistogram,
    hdrhistogram::CreationError,
>)
    ensures
        (2 <= high && sigfig <= 5) ==> r is Ok,
        r matches Ok(h) ==> {
            &&& histogram_len(h) == 0
            &&& histogram_reported_min(h) == 0
            &&& histogram_reported_max(h) == 0
            &&& histogram_high(h) == high
            &&& histogram_low(h) == 1
        },
{
    match hdrhistogram::Histogram::<u64>::new_with_max(high, sigfig) {
        Ok(inner) => Ok(LatencyHistogram { inner }),
        Err(e) => Err(e),
    }
}

/// Records one sample (`Histogram::record`). Claimed: a value up to the
/// highest trackable value is always recorded, without changing that
/// bound; on success the sample count grows by one, saturating at
/// `u64::MAX`; the lowest discernible value never changes. Nothing else is
/// claimed of the histogram after a failure.
#[verifier::external_body]
fn histogram_record(h: &mut LatencyHistogram, value: u64) -> (r: Result<(), hdrhistogram::RecordError>)
    ensures
        value <= histogram_high(*old(h)) ==> r is Ok && histogram_high(*final(h)) == histogram_high(
            *old(h),
        ),
        histogram_low(*final(h)) == histogram_low(*old(h)),
        r is Ok ==> histogram_len(*final(h)) == (if histogram_len(*old(h)) < u64::MAX {
            histogram_len(*old(h)) + 1
        } else {
            histogram_len(*old(h))
        }),
{
    h.inner.record(value)
}

/// Clears samples and statistics, keeping the configuration
/// (`Histogram::reset`). Claimed: afterwards the histogram has recorded
/// nothing and reports 0 as minimum, its bounds are unchanged, and with a
/// lowest discernible value of 1 it reports 0 as maximum.
#[verifier::external_body]
fn histogram_reset(h: &mut LatencyHistogram)
    ensures
        histogram_len(*final(h)) == 0,
        histogram_reported_min(*final(h)) == 0,
        histogram_high(*final(h)) == histogram_high(*old(h)),
        histogram_low(*final(h)) == histogram_low(*old(h)),
        histogram_low(*old(h)) == 1 ==> histogram_reported_max(*final(h)) == 0,
{
    h.inner.reset()
}

/// Lowest recorded value (`Histogram::min`), named by
/// `histogram_reported_min`. Claimed, as documented: 0 for a histogram
/// without samples; its value is not stated otherwise.
#[verifier::external_body]
fn histogram_min(h: &LatencyHistogram) -> (v: u64)
    ensures
        v == histogram_reported_min(*h),
        histogram_len(*h) == 0 ==> v == 0,
{
    h.inner.min()
}

/// Highest recorded value level (`Histogram::max`), named by
/// `histogram_reported_max`; its value is not stated.
#[verifier::external_body]
fn histogram_max(h: &LatencyHistogram) -> (v: u64)
    ensures
        v == histogram_reported_max(*h),
{
    h.inner.max()
}

/// Largest latency a collector records: one minute, in nanoseconds.
pub const MAX_LATENCY_NS: u64 = 60_000_000_000;

/// Kind of latency a collector measures.
#[derive(Clone, Copy, Debug, PartialEq, Eq, Structural)]
pub enum LatencyType {
    /// Sender to receiver.
    OneWay,
    /// Request to response.
    RoundTrip,
}

/// Why a metrics operation failed.
#[derive(Clone, Copy, Debug, PartialEq, Eq, Structural)]
pub enum MetricsError {
    /// The histogram could not be created.
    HistogramCreation,
    /// The sample is above the largest latency the collector tracks.
    HistogramRecord,
    /// Aggregation was asked for over no worker results.
    EmptyAggregation,
    /// Latency aggregation was asked for over no latency summaries.
    EmptyLatencyAggregation,
}

impl MetricsError {
    /// The error's description.
    pub fn message(&self) -> (s: String)
        ensures
            *self == MetricsError::HistogramCreation ==> s@ == "The histogram could not be created"@,
            *self == MetricsError::HistogramRecord ==> s@
                == "The value to record is not representable in this histogram and resizing is disabled"@,
            *self == MetricsError::EmptyAggregation ==> s@ == "Cannot aggregate empty metrics"@,
            *self == MetricsError::EmptyLatencyAggregation ==> s@
                == "Cannot aggregate empty latency metrics"@,
    {
        match self {
            MetricsError::HistogramCreation => String::from_str("The histogram could not be created"),
            MetricsError::HistogramRecord => String::from_str(
                "The value to record is not representable in this histogram and resizing is disabled",
            ),
            MetricsError::EmptyAggregation => String::from_str("Cannot aggregate empty metrics"),
            MetricsError::EmptyLatencyAggregation => String::from_str(
                "Cannot aggregate empty latency metrics",
            ),
        }
    }
}

/// Integer totals of a throughput measurement.
#[derive(Clone, Copy, Debug, PartialEq, Eq, Structural)]
pub struct ThroughputTotals {
    /// Messages counted.
    pub total_messages: usize,
    /// Bytes counted.
    pub total_bytes: usize,
    /// Length of the measurement in nanoseconds.
    pub duration_ns: u64,
}

/// Counts messages and bytes since a start instant.
pub struct ThroughputCalculator {
    start_time: std::time::Instant,
    message_count: usize,
    byte_count: usize,
}

impl ThroughputCalculator {
    /// Messages counted since the start or the last reset.
    pub closed spec fn spec_message_count(&self) -> nat {
        self.message_count as nat
    }

    /// Bytes counted since the start or the last reset.
    pub closed spec fn spec_byte_count(&self) -> nat {
        self.byte_count as nat
    }

    /// The instant the measurement started.
    pub closed spec fn spec_start_time(&self) -> std::time::Instant {
        self.start_time
    }

    /// A calculator starting now with zero counts.
    pub fn new() -> (t: ThroughputCalculator)
        ensures
            t.spec_message_count() == 0,
            t.spec_byte_count() == 0,
    {
        ThroughputCalculator { start_time: instant_now(), message_count: 0, byte_count: 0 }
    }

    /// Counts one message of `message_size` bytes.
    pub fn record_message(&mut self, message_size: usize)
        requires
            old(self).spec_message_count() + 1 <= usize::MAX,
            old(self).spec_byte_count() + message_size <= usize::MAX,
        ensures
            final(self).spec_message_count() == old(self).spec_message_count() + 1,
            final(self).spec_byte_count() == old(self).spec_byte_count() + message_size,
            final(self).spec_start_time() == old(self).spec_start_time(),
    {
        self.message_count = self.message_count + 1;
        self.byte_count = self.byte_count + message_size;
    }

    /// Adds counts measured elsewhere (a worker's totals).
    pub fn add_counts(&mut self, messages: usize, bytes: usize)
        requires
            old(self).spec_message_count() + messages <= usize::MAX,
            old(self).spec_byte_count() + bytes <= usize::MAX,
        ensures
            final(self).spec_message_count() == old(self).spec_message_count() + messages,
            final(self).spec_byte_count() == old(self).spec_byte_count() + bytes,
            final(self).spec_start_time() == old(self).spec_start_time(),
    {
        self.message_count = self.message_count + messages;
        self.byte_count = self.byte_count + bytes;
    }

    /// Messages counted.
    pub fn message_count(&self) -> (n: usize)
        ensures
            n == self.spec_message_count(),
    {
        self.message_count
    }

    /// Bytes counted.
    pub fn byte_count(&self) -> (n: usize)
        ensures
            n == self.spec_byte_count(),
    {
        self.byte_count
    }

    /// Totals so far; the duration is the time elapsed since the start.
    pub fn totals(&self) -> (t: ThroughputTotals)
        ensures
            t.total_messages == self.spec_message_count(),
            t.total_bytes == self.spec_byte_count(),
    {
        self.totals_with_elapsed(elapsed_ns(&self.start_time))
    }

    /// Totals when `elapsed_ns` nanoseconds have passed since the start: the
    /// counts so far, with that elapsed time as the duration.
    pub fn totals_with_elapsed(&self, elapsed_ns: u64) -> (t: ThroughputTotals)
        ensures
            t.total_messages == self.spec_message_count(),
            t.total_bytes == self.spec_byte_count(),
            t.duration_ns == elapsed_ns,
    {
        ThroughputTotals {
            total_messages: self.message_count,
            total_bytes: self.byte_count,
            duration_ns: elapsed_ns,
        }
    }

    /// Restarts the measurement now with zero counts.
    pub fn reset(&mut self)
        ensures
            final(self).spec_message_count() == 0,
            final(self).spec_byte_count() == 0,
    {
        self.start_time = instant_now();
        self.message_count = 0;
        self.byte_count = 0;
    }
}

impl Default for ThroughputCalculator {
    /// Same as `ThroughputCalculator::new`.
    fn default() -> (t: ThroughputCalculator)
        ensures
            t.spec_message_count() == 0,
            t.spec_byte_count() == 0,
    {
        ThroughputCalculator::new()
    }
}

/// Sum of the message counts of `ts`.
pub open spec fn spec_sum_messages(ts: Seq<ThroughputTotals>) -> nat
    decreases ts.len(),
{
    if ts.len() == 0 {
        0
    } else {
        spec_sum_messages(ts.drop_last()) + ts.last().total_messages as nat
    }
}

/// Sum of the byte counts of `ts`.
pub open spec fn spec_sum_bytes(ts: Seq<ThroughputTotals>) -> nat
    decreases ts.len(),
{
    if ts.len() == 0 {
        0
    } else {
        spec_sum_bytes(ts.drop_last()) + ts.last().total_bytes as nat
    }
}

/// Largest duration in `ts` (0 for none).
pub open spec fn spec_max_duration(ts: Seq<ThroughputTotals>) -> u64
    decreases ts.len(),
{
    if ts.len() == 0 {
        0
    } else {
        let m = spec_max_duration(ts.drop_last());
        if ts.last().duration_ns > m {
            ts.last().duration_ns
        } else {
            m
        }
    }
}

/// Combines worker throughput totals: counts add up, and the duration is
/// the longest worker's.
pub fn aggregate_throughput_totals(ts: &[ThroughputTotals]) -> (t: ThroughputTotals)
    requires
        spec_sum_messages(ts@) <= usize::MAX,
        spec_sum_bytes(ts@) <= usize::MAX,
    ensures
        t.total_messages == spec_sum_messages(ts@),
        t.total_bytes == spec_sum_bytes(ts@),
        t.duration_ns == spec_max_duration(ts@),
        forall|i: int| 0 <= i < ts@.len() ==> #[trigger] ts@[i].duration_ns <= t.duration_ns,
        ts@.len() > 0 ==> exists|i: int| 0 <= i < ts@.len() && ts@[i].duration_ns == t.duration_ns,
        ts@.len() == 0 ==> t.duration_ns == 0,
{
    proof {
        lemma_max_duration_bounds(ts@);
    }
    let mut messages: usize = 0;
    let mut bytes: usize = 0;
    let mut longest: u64 = 0;
    let mut i: usize = 0;
    while i < ts.len()
        invariant
            i <= ts@.len(),
            spec_sum_messages(ts@) <= usize::MAX,
            spec_sum_bytes(ts@) <= usize::MAX,
            messages == spec_sum_messages(ts@.subrange(0, i as int)),
            bytes == spec_sum_bytes(ts@.subrange(0, i as int)),
            longest == spec_max_duration(ts@.subrange(0, i as int)),
        decreases ts@.len() - i,
    {
        let ghost prefix = ts@.subrange(0, i as int + 1);
        proof {
            assert(prefix.drop_last() =~= ts@.subrange(0, i as int));
            lemma_sums_monotone(ts@, i as int + 1);
        }
        messages = messages + ts[i].total_messages;
        bytes = bytes + ts[i].total_bytes;
        if ts[i].duration_ns > longest {
            longest = ts[i].duration_ns;
        }
        i = i + 1;
    }
    assert(ts@.subrange(0, ts@.len() as int) =~= ts@);
    ThroughputTotals { total_messages: messages, total_bytes: bytes, duration_ns: longest }
}

/// Sums over a prefix never exceed the sums over the whole sequence.
pub proof fn lemma_sums_monotone(ts: Seq<ThroughputTotals>, k: int)
    requires
        0 <= k <= ts.len(),
    ensures
        spec_sum_messages(ts.subrange(0, k)) <= spec_sum_messages(ts),
        spec_sum_bytes(ts.subrange(0, k)) <= spec_sum_bytes(ts),
    decreases ts.len() - k,
{
    if k < ts.len() {
        lemma_sums_monotone(ts, k + 1);
        assert(ts.subrange(0, k + 1).drop_last() =~= ts.subrange(0, k));
    } else {
        assert(ts.subrange(0, k) =~= ts);
    }
}

/// `m` is one of `s` and no element of `s` is smaller.
pub open spec fn spec_is_least(m: u64, s: Seq<u64>) -> bool {
    &&& forall|i: int| 0 <= i < s.len() ==> m <= #[trigger] s[i]
    &&& exists|i: int| 0 <= i < s.len() && s[i] == m
}

/// `m` is one of `s` and no element of `s` is larger.
pub open spec fn spec_is_greatest(m: u64, s: Seq<u64>) -> bool {
    &&& forall|i: int| 0 <= i < s.len() ==> #[trigger] s[i] <= m
    &&& exists|i: int| 0 <= i < s.len() && s[i] == m
}

/// Updating a running minimum with a sample gives a value no larger than
/// the sample or the previous minimum, and equal to one of them; likewise,
/// a running maximum becomes no smaller than either and equal to one.
pub proof fn lemma_running_extremes(current_min: Option<u64>, current_max: Option<u64>, v: u64)
    ensures
        spec_min_with(current_min, v) <= v,
        current_min matches Some(c) ==> spec_min_with(current_min, v) <= c,
        spec_min_with(current_min, v) == v || current_min == Some(spec_min_with(current_min, v)),
        spec_max_with(current_max, v) >= v,
        current_max matches Some(c) ==> spec_max_with(current_max, v) >= c,
        spec_max_with(current_max, v) == v || current_max == Some(spec_max_with(current_max, v)),
{
}

/// Running extremes over a sample sequence stay its least and greatest
/// element when a sample is appended.
proof fn lemma_extremes_push(lo: Option<u64>, hi: Option<u64>, s: Seq<u64>, v: u64)
    requires
        lo is None <==> s.len() == 0,
        hi is None <==> s.len() == 0,
        lo matches Some(m) ==> spec_is_least(m, s),
        hi matches Some(m) ==> spec_is_greatest(m, s),
    ensures
        spec_is_least(spec_min_with(lo, v), s.push(v)),
        spec_is_greatest(spec_max_with(hi, v), s.push(v)),
{
    let t = s.push(v);
    lemma_running_extremes(lo, hi, v);
    assert(t[s.len() as int] == v);
    match lo {
        Some(m) => {
            let w = choose|i: int| 0 <= i < s.len() && s[i] == m;
            assert(t[w] == s[w]);
            assert forall|i: int| 0 <= i < t.len() implies spec_min_with(lo, v) <= #[trigger] t[i] by {
                if i < s.len() {
                    assert(t[i] == s[i]);
                }
            }
        },
        None => {},
    }
    match hi {
        Some(m) => {
            let w = choose|i: int| 0 <= i < s.len() && s[i] == m;
            assert(t[w] == s[w]);
            assert forall|i: int| 0 <= i < t.len() implies #[trigger] t[i] <= spec_max_with(hi, v) by {
                if i < s.len() {
                    assert(t[i] == s[i]);
                }
            }
        },
        None => {},
    }
}

/// Smaller of an optional running minimum and a new sample.
pub open spec fn spec_min_with(current: Option<u64>, v: u64) -> u64 {
    match current {
        Some(c) => if v < c {
            v
        } else {
            c
        },
        None => v,
    }
}

/// Larger of an optional running maximum and a new sample.
pub open spec fn spec_max_with(current: Option<u64>, v: u64) -> u64 {
    match current {
        Some(c) => if v > c {
            v
        } else {
            c
        },
        None => v,
    }
}

/// Integer summary of a latency measurement.
#[derive(Clone, Copy, Debug, PartialEq, Eq, Structural)]
pub struct LatencySummary {
    /// Kind of latency measured.
    pub latency_type: LatencyType,
    /// Smallest latency observed.
    pub min_ns: u64,
    /// Largest latency observed.
    pub max_ns: u64,
    /// Number of samples.
    pub total_samples: usize,
}

/// Records latency samples into an HDR histogram and keeps the exact
/// observed minimum and maximum beside it.
pub struct LatencyCollector {
    histogram: LatencyHistogram,
    latency_type: LatencyType,
    start_time: std::time::Instant,
    sample_count: usize,
    observed_min_ns: Option<u64>,
    observed_max_ns: Option<u64>,
    samples: Ghost<Seq<u64>>,
}

impl LatencyCollector {
    /// The samples recorded since creation or the last reset, in order.
    pub closed spec fn spec_samples(&self) -> Seq<u64> {
        self.samples@
    }

    /// Kind of latency measured.
    pub closed spec fn spec_latency_type(&self) -> LatencyType {
        self.latency_type
    }

    /// Samples recorded since creation or the last reset.
    pub closed spec fn spec_sample_count(&self) -> nat {
        self.sample_count as nat
    }

    /// Smallest sample recorded, if any.
    pub closed spec fn spec_observed_min(&self) -> Option<u64> {
        self.observed_min_ns
    }

    /// Largest sample recorded, if any.
    pub closed spec fn spec_observed_max(&self) -> Option<u64> {
        self.observed_max_ns
    }

    /// The histogram holding the samples.
    pub closed spec fn spec_histogram(&self) -> LatencyHistogram {
        self.histogram
    }

    /// Consistency: no observed extremes exactly when no sample was
    /// recorded, the minimum does not exceed the maximum, the histogram
    /// holds every recorded sample and tracks values from 1 to
    /// `MAX_LATENCY_NS`, and an empty histogram reports 0 as both extremes.
    pub closed spec fn wf(&self) -> bool {
        &&& (self.sample_count == 0 <==> self.observed_min_ns is None)
        &&& (self.observed_min_ns is None <==> self.observed_max_ns is None)
        &&& (self.observed_min_ns matches Some(lo) ==> self.observed_max_ns matches Some(hi)
            && lo <= hi)
        &&& self.samples@.len() == self.sample_count
        &&& (self.observed_min_ns matches Some(lo) ==> spec_is_least(lo, self.samples@))
        &&& (self.observed_max_ns matches Some(hi) ==> spec_is_greatest(hi, self.samples@))
        &&& histogram_len(self.histogram) == self.sample_count
        &&& histogram_high(self.histogram) == MAX_LATENCY_NS
        &&& histogram_low(self.histogram) == 1
        &&& (self.sample_count == 0 ==> histogram_reported_min(self.histogram) == 0
            && histogram_reported_max(self.histogram) == 0)
    }

    /// A collector whose histogram keeps 3 significant figures of latencies
    /// up to one minute.
    pub fn new(latency_type: LatencyType) -> (r: Result<LatencyCollector, MetricsError>)
        ensures
            r is Ok,
            r matches Ok(c) ==> c.wf() && c.spec_latency_type() == latency_type
                && c.spec_sample_count() == 0 && c.spec_observed_min() is None
                && c.spec_observed_max() is None && histogram_len(c.spec_histogram()) == 0
                && c.spec_samples() == Seq::<u64>::empty(),
    {
        match histogram_new_with_max(MAX_LATENCY_NS, 3) {
            Err(_) => Err(MetricsError::HistogramCreation),
            Ok(histogram) => Ok(
                LatencyCollector {
                    histogram,
                    latency_type,
                    start_time: instant_now(),
                    sample_count: 0,
                    observed_min_ns: None,
                    observed_max_ns: None,
                    samples: Ghost(Seq::empty()),
                },
            ),
        }
    }

    /// Records one latency sample given in nanoseconds. A sample above
    /// `MAX_LATENCY_NS` is out of range and refused; the collector is then
    /// unchanged.
    pub fn record(&mut self, latency_ns: u64) -> (r: Result<(), MetricsError>)
        requires
            old(self).wf(),
            old(self).spec_sample_count() + 1 <= usize::MAX,
        ensures
            final(self).wf(),
            final(self).spec_latency_type() == old(self).spec_latency_type(),
            r is Ok <==> latency_ns <= MAX_LATENCY_NS,
            r is Err ==> r == Err::<(), MetricsError>(MetricsError::HistogramRecord)
                && final(self).spec_sample_count() == old(self).spec_sample_count()
                && final(self).spec_observed_min() == old(self).spec_observed_min()
                && final(self).spec_observed_max() == old(self).spec_observed_max()
                && final(self).spec_histogram() == old(self).spec_histogram()
                && final(self).spec_samples() == old(self).spec_samples(),
            r is Ok ==> final(self).spec_samples() == old(self).spec_samples().push(latency_ns),
            r is Ok ==> final(self).spec_sample_count() == old(self).spec_sample_count() + 1
                && histogram_len(final(self).spec_histogram()) == histogram_len(
                old(self).spec_histogram(),
            ) + 1 && final(self).spec_observed_min() == Some(
                spec_min_with(old(self).spec_observed_min(), latency_ns),
            ) && final(self).spec_observed_max() == Some(
                spec_max_with(old(self).spec_observed_max(), latency_ns),
            ),
    {
        if latency_ns > MAX_LATENCY_NS {
            return Err(MetricsError::HistogramRecord);
        }
        match histogram_record(&mut self.histogram, latency_ns) {
            Err(_) => {
                Err(MetricsError::HistogramRecord)
            },
            Ok(()) => {
                let ghost prev_min = self.observed_min_ns;
                let ghost prev_max = self.observed_max_ns;
                self.sample_count = self.sample_count + 1;
                self.samples = Ghost(self.samples@.push(latency_ns));
                self.observed_min_ns = Some(
                    match self.observed_min_ns {
                        Some(c) => if latency_ns < c {
                            latency_ns
                        } else {
                            c
                        },
                        None => latency_ns,
                    },
                );
                self.observed_max_ns = Some(
                    match self.observed_max_ns {
                        Some(c) => if latency_ns > c {
                            latency_ns
                        } else {
                            c
                        },
                        None => latency_ns,
                    },
                );
                proof {
                    lemma_extremes_push(prev_min, prev_max, old(self).samples@, latency_ns);
                }
                Ok(())
            },
        }
    }

    /// Integer summary: the exact observed extremes (0 when nothing was
    /// recorded) and the sample count.
    pub fn summary(&self) -> (m: LatencySummary)
        requires
            self.wf(),
        ensures
            m.latency_type == self.spec_latency_type(),
            m.total_samples == self.spec_sample_count(),
            m.min_ns == match self.spec_observed_min() {
                Some(v) => v,
                None => 0,
            },
            m.max_ns == match self.spec_observed_max() {
                Some(v) => v,
                None => 0,
            },
            m.total_samples == self.spec_samples().len(),
            self.spec_samples().len() == 0 ==> m.min_ns == 0 && m.max_ns == 0,
            self.spec_samples().len() > 0 ==> spec_is_least(m.min_ns, self.spec_samples())
                && spec_is_greatest(m.max_ns, self.spec_samples()),
    {
        let min_ns = match self.observed_min_ns {
            Some(v) => v,
            None => histogram_min(&self.histogram),
        };
        let max_ns = match self.observed_max_ns {
            Some(v) => v,
            None => histogram_max(&self.histogram),
        };
        LatencySummary {
            latency_type: self.latency_type,
            min_ns,
            max_ns,
            total_samples: self.sample_count,
        }
    }

    /// The histogram, for statistics computed outside the verified code.
    pub fn histogram(&self) -> (h: &LatencyHistogram)
        ensures
            *h == self.spec_histogram(),
    {
        &self.histogram
    }

    /// Clears the samples and restarts the measurement now; afterwards the
    /// collector reports what a new one reports.
    pub fn reset(&mut self)
        requires
            old(self).wf(),
        ensures
            final(self).wf(),
            final(self).spec_latency_type() == old(self).spec_latency_type(),
            final(self).spec_sample_count() == 0,
            final(self).spec_observed_min() is None,
            final(self).spec_observed_max() is None,
            histogram_len(final(self).spec_histogram()) == 0,
            final(self).spec_samples() == Seq::<u64>::empty(),
    {
        histogram_reset(&mut self.histogram);
        self.sample_count = 0;
        self.start_time = instant_now();
        self.observed_min_ns = None;
        self.observed_max_ns = None;
        self.samples = Ghost(Seq::empty());
    }
}

/// What a collector reports is the exact smallest and largest of the
/// samples recorded since its creation or last reset, and how many there
/// were; with no sample it reports 0 for both extremes.
pub proof fn lemma_collector_reports_extremes(c: &LatencyCollector)
    requires
        c.wf(),
    ensures
        c.spec_sample_count() == c.spec_samples().len(),
        c.spec_samples().len() == 0 ==> c.spec_observed_min() is None && c.spec_observed_max() is None,
        c.spec_observed_min() matches Some(lo) ==> spec_is_least(lo, c.spec_samples()),
        c.spec_observed_max() matches Some(hi) ==> spec_is_greatest(hi, c.spec_samples()),
        c.spec_samples().len() > 0 ==> c.spec_observed_min() is Some && c.spec_observed_max() is Some,
{
}

/// Collects throughput always and latency when a latency type was chosen.
pub struct MetricsCollector {
    /// Latency collection, when enabled.
    pub latency_collector: Option<LatencyCollector>,
    /// Message and byte counts.
    pub throughput_calculator: ThroughputCalculator,
}

impl MetricsCollector {
    /// Well-formedness of the latency part.
    pub open spec fn wf(&self) -> bool {
        self.latency_collector matches Some(c) ==> c.wf()
    }

    /// A collector; latency is measured only when `latency_type` is given.
    pub fn new(latency_type: Option<LatencyType>) -> (r: Result<MetricsCollector, MetricsError>)
        ensures
            r is Ok,
            r matches Ok(m) ==> {
                &&& m.wf()
                &&& m.throughput_calculator.spec_message_count() == 0
                &&& m.throughput_calculator.spec_byte_count() == 0
                &&& match latency_type {
                    None => m.latency_collector is None,
                    Some(t) => m.latency_collector matches Some(c) && c.spec_latency_type() == t
                        && c.spec_sample_count() == 0,
                }
            },
    {
        let latency_collector = match latency_type {
            Some(t) => match LatencyCollector::new(t) {
                Ok(c) => Some(c),
                Err(e) => {
                    return Err(e);
                },
            },
            None => None,
        };
        Ok(MetricsCollector { latency_collector, throughput_calculator: ThroughputCalculator::new() })
    }

    /// Counts a message; records its latency when latency collection is
    /// enabled and a latency is given.
    pub fn record_message(&mut self, message_size: usize, latency_ns: Option<u64>) -> (r: Result<(), MetricsError>)
        requires
            old(self).wf(),
            old(self).throughput_calculator.spec_message_count() + 1 <= usize::MAX,
            old(self).throughput_calculator.spec_byte_count() + message_size <= usize::MAX,
            old(self).latency_collector matches Some(c) ==> c.spec_sample_count() + 1 <= usize::MAX,
        ensures
            final(self).wf(),
            final(self).throughput_calculator.spec_message_count()
                == old(self).throughput_calculator.spec_message_count() + 1,
            final(self).throughput_calculator.spec_byte_count()
                == old(self).throughput_calculator.spec_byte_count() + message_size,
            old(self).latency_collector is None <==> final(self).latency_collector is None,
            final(self).throughput_calculator.spec_start_time()
                == old(self).throughput_calculator.spec_start_time(),
            r is Ok <==> (old(self).latency_collector is None || latency_ns is None
                || latency_ns.unwrap() <= MAX_LATENCY_NS),
            (old(self).latency_collector is None || latency_ns is None)
                ==> final(self).latency_collector == old(self).latency_collector,
            old(self).latency_collector matches Some(c0) ==> latency_ns matches Some(v)
                ==> final(self).latency_collector matches Some(c1) && c1.spec_latency_type()
                == c0.spec_latency_type() && (r is Ok ==> c1.spec_samples()
                == c0.spec_samples().push(v) && c1.spec_sample_count()
                == c0.spec_sample_count() + 1 && histogram_len(c1.spec_histogram())
                == histogram_len(c0.spec_histogram()) + 1 && c1.spec_observed_min() == Some(
                spec_min_with(c0.spec_observed_min(), v),
            ) && c1.spec_observed_max() == Some(spec_max_with(c0.spec_observed_max(), v)))
                && (r is Err ==> r == Err::<(), MetricsError>(MetricsError::HistogramRecord)
                && c1.spec_samples() == c0.spec_samples()
                && c1.spec_sample_count() == c0.spec_sample_count() && c1.spec_histogram()
                == c0.spec_histogram() && c1.spec_observed_min() == c0.spec_observed_min()
                && c1.spec_observed_max() == c0.spec_observed_max()),
    {
        self.throughput_calculator.record_message(message_size);
        match latency_ns {
            Some(v) => match &mut self.latency_collector {
                Some(c) => c.record(v),
                None => Ok(()),
            },
            None => Ok(()),
        }
    }

    /// Adds a worker's message and byte totals to the throughput counts;
    /// latency is not aggregated this way.
    pub fn add_worker_totals(&mut self, worker: &ThroughputTotals)
        requires
            old(self).throughput_calculator.spec_message_count() + worker.total_messages
                <= usize::MAX,
            old(self).throughput_calculator.spec_byte_count() + worker.total_bytes <= usize::MAX,
        ensures
            final(self).latency_collector == old(self).latency_collector,
            final(self).throughput_calculator.spec_message_count()
                == old(self).throughput_calculator.spec_message_count() + worker.total_messages,
            final(self).throughput_calculator.spec_byte_count()
                == old(self).throughput_calculator.spec_byte_count() + worker.total_bytes,
            final(self).throughput_calculator.spec_start_time()
                == old(self).throughput_calculator.spec_start_time(),
    {
        self.throughput_calculator.add_counts(worker.total_messages, worker.total_bytes);
    }

    /// Resets both parts.
    pub fn reset(&mut self)
        requires
            old(self).wf(),
        ensures
            final(self).wf(),
            final(self).throughput_calculator.spec_message_count() == 0,
            final(self).throughput_calculator.spec_byte_count() == 0,
            old(self).latency_collector is None <==> final(self).latency_collector is None,
            old(self).latency_collector matches Some(c0) ==> final(self).latency_collector matches Some(c1)
                && c1.spec_latency_type() == c0.spec_latency_type() && c1.spec_sample_count() == 0,
    {
        match &mut self.latency_collector {
            Some(c) => c.reset(),
            None => {},
        }
        self.throughput_calculator.reset();
    }
}

/// Smallest `min_ns` of a non-empty sequence of summaries.
pub open spec fn spec_min_of(ms: Seq<LatencySummary>) -> u64
    decreases ms.len(),
{
    if ms.len() <= 1 {
        ms[0].min_ns
    } else {
        let m = spec_min_of(ms.drop_last());
        if ms.last().min_ns < m {
            ms.last().min_ns
        } else {
            m
        }
    }
}

/// Largest `max_ns` of a non-empty sequence of summaries.
pub open spec fn spec_max_of(ms: Seq<LatencySummary>) -> u64
    decreases ms.len(),
{
    if ms.len() <= 1 {
        ms[0].max_ns
    } else {
        let m = spec_max_of(ms.drop_last());
        if ms.last().max_ns > m {
            ms.last().max_ns
        } else {
            m
        }
    }
}

/// Total sample count of a sequence of summaries.
pub open spec fn spec_sum_samples(ms: Seq<LatencySummary>) -> nat
    decreases ms.len(),
{
    if ms.len() == 0 {
        0
    } else {
        spec_sum_samples(ms.drop_last()) + ms.last().total_samples as nat
    }
}

/// Index of the summary with the most samples; among equals, the last.
pub open spec fn spec_representative(ms: Seq<LatencySummary>) -> int
    decreases ms.len(),
{
    if ms.len() <= 1 {
        0
    } else {
        let r = spec_representative(ms.drop_last());
        if ms.last().total_samples >= ms[r].total_samples {
            ms.len() - 1
        } else {
            r
        }
    }
}

/// Totals add up over a split of the workers: the sums over `a + b` are the
/// sums over `a` plus the sums over `b`, and one worker's sums are its own
/// counts.
pub proof fn lemma_sums_split(a: Seq<ThroughputTotals>, b: Seq<ThroughputTotals>, w: ThroughputTotals)
    ensures
        spec_sum_messages(a + b) == spec_sum_messages(a) + spec_sum_messages(b),
        spec_sum_bytes(a + b) == spec_sum_bytes(a) + spec_sum_bytes(b),
        spec_sum_messages(seq![w]) == w.total_messages,
        spec_sum_bytes(seq![w]) == w.total_bytes,
    decreases b.len(),
{
    assert(seq![w].drop_last() =~= Seq::<ThroughputTotals>::empty());
    assert(spec_sum_messages(Seq::<ThroughputTotals>::empty()) == 0);
    assert(spec_sum_bytes(Seq::<ThroughputTotals>::empty()) == 0);
    assert(seq![w].last() == w);
    assert(spec_sum_messages(seq![w]) == spec_sum_messages(seq![w].drop_last()) + w.total_messages);
    assert(spec_sum_bytes(seq![w]) == spec_sum_bytes(seq![w].drop_last()) + w.total_bytes);
    if b.len() == 0 {
        assert(a + b =~= a);
    } else {
        lemma_sums_split(a, b.drop_last(), w);
        assert((a + b).drop_last() =~= a + b.drop_last());
        assert((a + b).last() == b.last());
    }
}

/// Sample counts add up over a split of the summaries, and one summary's
/// count is its own.
pub proof fn lemma_sample_sum_split(a: Seq<LatencySummary>, b: Seq<LatencySummary>, m: LatencySummary)
    ensures
        spec_sum_samples(a + b) == spec_sum_samples(a) + spec_sum_samples(b),
        spec_sum_samples(seq![m]) == m.total_samples,
    decreases b.len(),
{
    assert(seq![m].drop_last() =~= Seq::<LatencySummary>::empty());
    assert(spec_sum_samples(Seq::<LatencySummary>::empty()) == 0);
    assert(seq![m].last() == m);
    assert(spec_sum_samples(seq![m]) == spec_sum_samples(seq![m].drop_last()) + m.total_samples);
    if b.len() == 0 {
        assert(a + b =~= a);
    } else {
        lemma_sample_sum_split(a, b.drop_last(), m);
        assert((a + b).drop_last() =~= a + b.drop_last());
        assert((a + b).last() == b.last());
    }
}

/// The aggregated minimum is no larger than any summary's minimum and is
/// one of them; the aggregated maximum is no smaller than any summary's
/// maximum and is one of them.
pub proof fn lemma_min_max_of_bounds(ms: Seq<LatencySummary>)
    requires
        ms.len() > 0,
    ensures
        forall|i: int| 0 <= i < ms.len() ==> spec_min_of(ms) <= #[trigger] ms[i].min_ns,
        exists|i: int| 0 <= i < ms.len() && ms[i].min_ns == spec_min_of(ms),
        forall|i: int| 0 <= i < ms.len() ==> #[trigger] ms[i].max_ns <= spec_max_of(ms),
        exists|i: int| 0 <= i < ms.len() && ms[i].max_ns == spec_max_of(ms),
    decreases ms.len(),
{
    if ms.len() == 1 {
        assert(ms[0].min_ns == spec_min_of(ms));
        assert(ms[0].max_ns == spec_max_of(ms));
    } else {
        let rest = ms.drop_last();
        lemma_min_max_of_bounds(rest);
        let last = ms.len() - 1;
        assert forall|i: int| 0 <= i < ms.len() implies spec_min_of(ms) <= #[trigger] ms[i].min_ns by {
            if i < last {
                assert(ms[i] == rest[i]);
            }
        }
        assert forall|i: int| 0 <= i < ms.len() implies #[trigger] ms[i].max_ns <= spec_max_of(ms) by {
            if i < last {
                assert(ms[i] == rest[i]);
            }
        }
        let wl = choose|i: int| 0 <= i < rest.len() && rest[i].min_ns == spec_min_of(rest);
        let wh = choose|i: int| 0 <= i < rest.len() && rest[i].max_ns == spec_max_of(rest);
        assert(ms[wl] == rest[wl]);
        assert(ms[wh] == rest[wh]);
        assert(ms[last] == ms.last());
    }
}

/// The representative has the most samples, and every summary after it has
/// strictly fewer (it is the last among those with the most).
pub proof fn lemma_representative_is_last_largest(ms: Seq<LatencySummary>)
    requires
        ms.len() > 0,
    ensures
        0 <= spec_representative(ms) < ms.len(),
        forall|i: int| 0 <= i < ms.len() ==> #[trigger] ms[i].total_samples <= ms[spec_representative(
            ms,
        )].total_samples,
        forall|i: int| spec_representative(ms) < i < ms.len() ==> #[trigger] ms[i].total_samples
            < ms[spec_representative(ms)].total_samples,
    decreases ms.len(),
{
    if ms.len() > 1 {
        let rest = ms.drop_last();
        lemma_representative_is_last_largest(rest);
        let r = spec_representative(rest);
        assert(ms[r] == rest[r]);
        assert forall|i: int| 0 <= i < ms.len() - 1 implies #[trigger] ms[i] == rest[i] by {}
    }
}

/// The longest duration is at least every worker's duration and, for a
/// non-empty list, is one of them; for no worker it is 0.
pub proof fn lemma_max_duration_bounds(ts: Seq<ThroughputTotals>)
    ensures
        forall|i: int| 0 <= i < ts.len() ==> #[trigger] ts[i].duration_ns <= spec_max_duration(ts),
        ts.len() > 0 ==> exists|i: int| 0 <= i < ts.len() && ts[i].duration_ns == spec_max_duration(ts),
        ts.len() == 0 ==> spec_max_duration(ts) == 0,
    decreases ts.len(),
{
    if ts.len() > 0 {
        let rest = ts.drop_last();
        lemma_max_duration_bounds(rest);
        let last = ts.len() - 1;
        assert forall|i: int| 0 <= i < ts.len() implies #[trigger] ts[i].duration_ns
            <= spec_max_duration(ts) by {
            if i < last {
                assert(ts[i] == rest[i]);
            }
        }
        assert(ts[last] == ts.last());
        if rest.len() > 0 {
            let w = choose|i: int| 0 <= i < rest.len() && rest[i].duration_ns == spec_max_duration(rest);
            assert(ts[w] == rest[w]);
        }
    }
}

/// The representative is an index of the sequence.
pub proof fn lemma_representative_in_range(ms: Seq<LatencySummary>)
    requires
        ms.len() >= 1,
    ensures
        0 <= spec_representative(ms) < ms.len(),
    decreases ms.len(),
{
    if ms.len() > 1 {
        lemma_representative_in_range(ms.drop_last());
    }
}

/// Sample sums over a prefix never exceed the sum over the whole sequence.
pub proof fn lemma_sample_sum_monotone(ms: Seq<LatencySummary>, k: int)
    requires
        0 <= k <= ms.len(),
    ensures
        spec_sum_samples(ms.subrange(0, k)) <= spec_sum_samples(ms),
    decreases ms.len() - k,
{
    if k < ms.len() {
        lemma_sample_sum_monotone(ms, k + 1);
        assert(ms.subrange(0, k + 1).drop_last() =~= ms.subrange(0, k));
    } else {
        assert(ms.subrange(0, k) =~= ms);
    }
}

/// Combines worker latency summaries: the first worker's latency type, the
/// smallest minimum, the largest maximum and the total sample count. Also
/// returns the index of the worker with the most samples (the last among
/// equals), whose percentiles stand for the whole.
pub fn aggregate_latency_summaries(ms: &[LatencySummary]) -> (r: Result<(LatencySummary, usize), MetricsError>)
    requires
        spec_sum_samples(ms@) <= usize::MAX,
    ensures
        ms@.len() == 0 <==> r == Err::<(LatencySummary, usize), MetricsError>(
            MetricsError::EmptyLatencyAggregation,
        ),
        ms@.len() > 0 ==> r is Ok,
        r matches Ok((s, rep)) ==> {
            &&& s.latency_type == ms@[0].latency_type
            &&& s.min_ns == spec_min_of(ms@)
            &&& s.max_ns == spec_max_of(ms@)
            &&& s.total_samples == spec_sum_samples(ms@)
            &&& rep == spec_representative(ms@)
            &&& forall|i: int| 0 <= i < ms@.len() ==> s.min_ns <= #[trigger] ms@[i].min_ns
            &&& exists|i: int| 0 <= i < ms@.len() && ms@[i].min_ns == s.min_ns
            &&& forall|i: int| 0 <= i < ms@.len() ==> #[trigger] ms@[i].max_ns <= s.max_ns
            &&& exists|i: int| 0 <= i < ms@.len() && ms@[i].max_ns == s.max_ns
            &&& forall|i: int| 0 <= i < ms@.len() ==> #[trigger] ms@[i].total_samples
                <= ms@[rep as int].total_samples
            &&& forall|i: int| rep < i < ms@.len() ==> #[trigger] ms@[i].total_samples
                < ms@[rep as int].total_samples
        },
{
    proof {
        if ms@.len() > 0 {
            lemma_min_max_of_bounds(ms@);
            lemma_representative_is_last_largest(ms@);
        }
    }
    if ms.len() == 0 {
        return Err(MetricsError::EmptyLatencyAggregation);
    }
    let mut lo: u64 = ms[0].min_ns;
    let mut hi: u64 = ms[0].max_ns;
    let mut total: usize = ms[0].total_samples;
    let mut rep: usize = 0;
    let mut i: usize = 1;
    proof {
        let first = ms@.subrange(0, 1);
        assert(first.drop_last() =~= Seq::<LatencySummary>::empty());
        assert(spec_sum_samples(first.drop_last()) == 0);
        assert(spec_sum_samples(first) == ms@[0].total_samples);
        lemma_sample_sum_monotone(ms@, 1);
    }
    while i < ms.len()
        invariant
            1 <= i <= ms@.len(),
            spec_sum_samples(ms@) <= usize::MAX,
            lo == spec_min_of(ms@.subrange(0, i as int)),
            hi == spec_max_of(ms@.subrange(0, i as int)),
            total == spec_sum_samples(ms@.subrange(0, i as int)),
            rep == spec_representative(ms@.subrange(0, i as int)),
            rep < i,
        decreases ms@.len() - i,
    {
        let ghost prefix = ms@.subrange(0, i as int + 1);
        proof {
            assert(prefix.drop_last() =~= ms@.subrange(0, i as int));
            lemma_sample_sum_monotone(ms@, i as int + 1);
        }
        if ms[i].min_ns < lo {
            lo = ms[i].min_ns;
        }
        if ms[i].max_ns > hi {
            hi = ms[i].max_ns;
        }
        total = total + ms[i].total_samples;
        if ms[i].total_samples >= ms[rep].total_samples {
            rep = i;
        }
        i = i + 1;
    }
    assert(ms@.subrange(0, ms@.len() as int) =~= ms@);
    Ok((LatencySummary { latency_type: ms[0].latency_type, min_ns: lo, max_ns: hi, total_samples: total }, rep))
}

/// One worker's integer results: its throughput totals and, when it
/// measured latency, its latency summary.
#[derive(Clone, Copy, Debug, PartialEq, Eq, Structural)]
pub struct WorkerResult {
    /// Throughput totals of the worker.
    pub throughput: ThroughputTotals,
    /// Latency summary, if the worker measured latency.
    pub latency: Option<LatencySummary>,
}

/// The workers' throughput totals, in order.
pub open spec fn spec_worker_throughputs(ws: Seq<WorkerResult>) -> Seq<ThroughputTotals> {
    ws.map_values(|w: WorkerResult| w.throughput)
}

/// The latency summaries of the workers that measured latency, in order.
pub open spec fn spec_worker_latencies(ws: Seq<WorkerResult>) -> Seq<LatencySummary>
    decreases ws.len(),
{
    if ws.len() == 0 {
        Seq::empty()
    } else {
        let rest = spec_worker_latencies(ws.drop_last());
        match ws.last().latency {
            Some(l) => rest.push(l),
            None => rest,
        }
    }
}

/// Combines the results of several workers: throughput as in
/// `aggregate_throughput_totals`, and latency as in
/// `aggregate_latency_summaries` over the workers that measured it (none
/// when no worker did). Fails on an empty list.
pub fn aggregate_worker_results(ws: &[WorkerResult]) -> (r: Result<
    (ThroughputTotals, Option<(LatencySummary, usize)>),
    MetricsError,
>)
    requires
        spec_sum_messages(spec_worker_throughputs(ws@)) <= usize::MAX,
        spec_sum_bytes(spec_worker_throughputs(ws@)) <= usize::MAX,
        spec_sum_samples(spec_worker_latencies(ws@)) <= usize::MAX,
    ensures
        ws@.len() == 0 <==> r == Err::<(ThroughputTotals, Option<(LatencySummary, usize)>), MetricsError>(
            MetricsError::EmptyAggregation,
        ),
        ws@.len() > 0 ==> r is Ok,
        r matches Ok((t, l)) ==> {
            let thr = spec_worker_throughputs(ws@);
            let lats = spec_worker_latencies(ws@);
            &&& t.total_messages == spec_sum_messages(thr)
            &&& t.total_bytes == spec_sum_bytes(thr)
            &&& t.duration_ns == spec_max_duration(thr)
            &&& forall|i: int| 0 <= i < ws@.len() ==> #[trigger] ws@[i].throughput.duration_ns
                <= t.duration_ns
            &&& exists|i: int| 0 <= i < ws@.len() && ws@[i].throughput.duration_ns == t.duration_ns
            &&& (lats.len() == 0 <==> l is None)
            &&& l matches Some((s, rep)) ==> {
                &&& s.latency_type == lats[0].latency_type
                &&& s.min_ns == spec_min_of(lats)
                &&& s.max_ns == spec_max_of(lats)
                &&& s.total_samples == spec_sum_samples(lats)
                &&& rep == spec_representative(lats)
            }
        },
{
    if ws.len() == 0 {
        return Err(MetricsError::EmptyAggregation);
    }
    let mut thr: Vec<ThroughputTotals> = Vec::new();
    let mut lats: Vec<LatencySummary> = Vec::new();
    let mut i: usize = 0;
    while i < ws.len()
        invariant
            i <= ws@.len(),
            thr@ == spec_worker_throughputs(ws@.subrange(0, i as int)),
            lats@ == spec_worker_latencies(ws@.subrange(0, i as int)),
        decreases ws@.len() - i,
    {
        proof {
            assert(ws@.subrange(0, i as int + 1).drop_last() =~= ws@.subrange(0, i as int));
            assert(spec_worker_throughputs(ws@.subrange(0, i as int + 1)) =~= spec_worker_throughputs(
                ws@.subrange(0, i as int),
            ).push(ws@[i as int].throughput));
        }
        thr.push(ws[i].throughput);
        match ws[i].latency {
            Some(l) => lats.push(l),
            None => {},
        }
        i = i + 1;
    }
    assert(ws@.subrange(0, ws@.len() as int) =~= ws@);
    let t = aggregate_throughput_totals(thr.as_slice());
    proof {
        assert forall|i: int| 0 <= i < ws@.len() implies #[trigger] ws@[i].throughput.duration_ns
            <= t.duration_ns by {
            assert(thr@[i] == ws@[i].throughput);
        }
        let w = choose|i: int| 0 <= i < thr@.len() && thr@[i].duration_ns == t.duration_ns;
        assert(thr@[w] == ws@[w].throughput);
    }
    if lats.len() == 0 {
        Ok((t, None))
    } else {
        match aggregate_latency_summaries(lats.as_slice()) {
            Ok(l) => Ok((t, Some(l))),
            Err(e) => Err(e),
        }
    }
}

/// Decimal digit character of `d < 10`.
pub open spec fn spec_digit_char(d: nat) -> char {
    if d == 0 {
        '0'
    } else if d == 1 {
        '1'
    } else if d == 2 {
        '2'
    } else if d == 3 {
        '3'
    } else if d == 4 {
        '4'
    } else if d == 5 {
        '5'
    } else if d == 6 {
        '6'
    } else if d == 7 {
        '7'
    } else if d == 8 {
        '8'
    } else {
        '9'
    }
}

/// Decimal representation of `n` without leading zeros.
pub open spec fn spec_decimal(n: nat) -> Seq<char>
    decreases n,
{
    if n < 10 {
        seq![spec_digit_char(n)]
    } else {
        spec_decimal(n / 10).push(spec_digit_char(n % 10))
    }
}

/// The one-character string of a decimal digit.
pub(crate) fn digit_str(d: u64) -> (s: &'static str)
    requires
        d < 10,
    ensures
        s@ == seq![spec_digit_char(d as nat)],
{
    proof {
        reveal_strlit("0");
        reveal_strlit("1");
        reveal_strlit("2");
        reveal_strlit("3");
        reveal_strlit("4");
        reveal_strlit("5");
        reveal_strlit("6");
        reveal_strlit("7");
        reveal_strlit("8");
        reveal_strlit("9");
    }
    if d == 0 {
        "0"
    } else if d == 1 {
        "1"
    } else if d == 2 {
        "2"
    } else if d == 3 {
        "3"
    } else if d == 4 {
        "4"
    } else if d == 5 {
        "5"
    } else if d == 6 {
        "6"
    } else if d == 7 {
        "7"
    } else if d == 8 {
        "8"
    } else {
        "9"
    }
}

/// Decimal text of `n`.
pub fn decimal_string(n: u64) -> (s: String)
    ensures
        s@ == spec_decimal(n as nat),
{
    decimal_string_wide(n as u128)
}

/// Decimal text of a 128-bit `n`.
pub(crate) fn decimal_string_wide(n: u128) -> (s: String)
    ensures
        s@ == spec_decimal(n as nat),
    decreases n,
{
    if n < 10 {
        String::from_str(digit_str(n as u64))
    } else {
        let mut s = decimal_string_wide(n / 10);
        s.append(digit_str((n % 10) as u64));
        s
    }
}

} // verus!
