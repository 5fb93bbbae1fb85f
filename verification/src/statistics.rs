//! Latency accounting over a bounded window of recent frames.
//!
//! Both endpoints keep one [`StatisticsManager`] per connection. A frame is
//! known by its target timestamp. The window opens a sample when a frame is
//! first reported (on the client when it was decoded, on the server when its
//! tracking arrived) and drops the oldest sample once it is full. All times
//! are nanoseconds on the caller's monotonic clock.

use vstd::prelude::*;
use std::collections::VecDeque;
use crate::scalar::Scalar;

verus! {

/// What the client tells the server about one frame.
#[derive(Clone, Copy, Debug, PartialEq, Eq, Structural)]
pub struct ClientStatistics {
    pub target_timestamp_ns: u64,
    pub frame_interval_ns: u64,
    pub vsync_queue_ns: u64,
    pub total_pipeline_latency_ns: u64,
    pub average_total_pipeline_latency_ns: u64,
}

/// What the window holds about one frame.
#[derive(Clone, Copy, Debug, PartialEq, Eq, Structural)]
pub struct FrameSample {
    /// The frame's target timestamp.
    pub target_timestamp_ns: u64,
    /// The clock when the frame was first reported.
    pub opened_ns: u64,
    /// Time that the submitted frame waits for the display.
    pub vsync_queue_ns: u64,
    /// Time between this frame's display and that of the frame before.
    pub frame_interval_ns: u64,
    /// Time from the first report to the display, once it is known.
    pub total_pipeline_latency_ns: Option<u64>,
}

/// The last charge reported by a device.
#[derive(Clone, Copy, Debug, PartialEq, Eq, Structural)]
pub struct BatteryGauge {
    pub device_id: u64,
    pub gauge_value: Scalar,
}

/// `a - b`, or zero where `b` is the larger.
pub open spec fn minus(a: int, b: int) -> int {
    if a >= b {
        a - b
    } else {
        0
    }
}

/// `a + b`, or the largest 64-bit number where the sum is larger.
pub open spec fn plus(a: int, b: int) -> int {
    if a + b > u64::MAX {
        u64::MAX as int
    } else {
        a + b
    }
}

/// Whether the window holds a sample of the frame.
pub open spec fn has_frame(samples: Seq<FrameSample>, target_timestamp_ns: u64) -> bool {
    exists|i: int|
        0 <= i < samples.len() && (#[trigger] samples[i]).target_timestamp_ns
            == target_timestamp_ns
}

/// The place of the frame's sample in the window.
pub open spec fn frame_index(samples: Seq<FrameSample>, target_timestamp_ns: u64) -> int {
    choose|i: int|
        0 <= i < samples.len() && (#[trigger] samples[i]).target_timestamp_ns
            == target_timestamp_ns
}

/// No frame has two samples.
pub open spec fn distinct_frames(samples: Seq<FrameSample>) -> bool {
    forall|i: int, j: int|
        0 <= i < j < samples.len() ==> (#[trigger] samples[i]).target_timestamp_ns != (
        #[trigger] samples[j]).target_timestamp_ns
}

/// The sum of the pipeline latencies that the samples know.
pub open spec fn latency_sum(samples: Seq<FrameSample>) -> nat
    decreases samples.len(),
{
    if samples.len() == 0 {
        0
    } else {
        latency_sum(samples.drop_last()) + (match samples.last().total_pipeline_latency_ns {
            Some(latency) => latency as nat,
            None => 0,
        })
    }
}

/// The number of samples that know their pipeline latency.
pub open spec fn latency_count(samples: Seq<FrameSample>) -> nat
    decreases samples.len(),
{
    if samples.len() == 0 {
        0
    } else {
        latency_count(samples.drop_last()) + (if samples.last().total_pipeline_latency_ns is Some {
            1nat
        } else {
            0nat
        })
    }
}

/// The mean of the pipeline latencies that the samples know, rounded down;
/// zero where none is known.
pub open spec fn average_latency(samples: Seq<FrameSample>) -> nat {
    if latency_count(samples) == 0 {
        0
    } else {
        latency_sum(samples) / latency_count(samples)
    }
}

/// The window after a frame was first reported at `now_ns`: unchanged where
/// the frame has a sample or the window has no room at all; else the new
/// sample comes first and, where the window was full, the oldest sample
/// leaves.
pub open spec fn opened(
    samples: Seq<FrameSample>,
    capacity: nat,
    target_timestamp_ns: u64,
    now_ns: u64,
) -> Seq<FrameSample> {
    let sample = FrameSample {
        target_timestamp_ns,
        opened_ns: now_ns,
        vsync_queue_ns: 0,
        frame_interval_ns: 0,
        total_pipeline_latency_ns: None,
    };
    if has_frame(samples, target_timestamp_ns) || capacity == 0 {
        samples
    } else if samples.len() >= capacity {
        seq![sample] + samples.subrange(0, capacity - 1)
    } else {
        seq![sample] + samples
    }
}

/// The sample of a frame once it was submitted at `now_ns` with the display
/// `vsync_queue_ns` away, the display before it having been at `prev_vsync_ns`.
pub open spec fn submitted(
    sample: FrameSample,
    vsync_queue_ns: u64,
    now_ns: u64,
    prev_vsync_ns: u64,
) -> FrameSample {
    FrameSample {
        vsync_queue_ns,
        frame_interval_ns: minus(plus(now_ns as int, vsync_queue_ns as int), prev_vsync_ns as int) as u64,
        total_pipeline_latency_ns: Some(
            plus(minus(now_ns as int, sample.opened_ns as int), vsync_queue_ns as int) as u64,
        ),
        ..sample
    }
}

/// The share of the client's pipeline latency that neither its display queue
/// nor one game frame accounts for.
pub open spec fn network_latency_of(report: ClientStatistics, game_frame_interval_ns: u64) -> int {
    minus(
        minus(report.total_pipeline_latency_ns as int, report.vsync_queue_ns as int),
        game_frame_interval_ns as int,
    )
}

/// Whether the device has reported a charge.
pub open spec fn has_gauge(gauges: Seq<BatteryGauge>, device_id: u64) -> bool {
    exists|i: int| 0 <= i < gauges.len() && (#[trigger] gauges[i]).device_id == device_id
}

/// The place of the device's gauge.
pub open spec fn gauge_index(gauges: Seq<BatteryGauge>, device_id: u64) -> int {
    choose|i: int| 0 <= i < gauges.len() && (#[trigger] gauges[i]).device_id == device_id
}

/// The gauges after a device reported its charge: its entry is replaced in
/// place, or added at the end.
pub open spec fn with_gauge(gauges: Seq<BatteryGauge>, device_id: u64, gauge_value: Scalar) -> Seq<
    BatteryGauge,
> {
    let gauge = BatteryGauge { device_id, gauge_value };
    if has_gauge(gauges, device_id) {
        gauges.update(gauge_index(gauges, device_id), gauge)
    } else {
        gauges.push(gauge)
    }
}

fn saturating_minus(a: u64, b: u64) -> (r: u64)
    ensures
        r == minus(a as int, b as int),
{
    if a >= b {
        a - b
    } else {
        0
    }
}

fn saturating_plus(a: u64, b: u64) -> (r: u64)
    ensures
        r == plus(a as int, b as int),
{
    if a > u64::MAX - b {
        u64::MAX
    } else {
        a + b
    }
}

/// The statistics engine of one connection.
pub struct StatisticsManager {
    history: VecDeque<FrameSample>,
    max_history_size: usize,
    prev_vsync_ns: u64,
    last_average_ns: u64,
    gauges: Vec<BatteryGauge>,
}

impl StatisticsManager {
    /// The samples of the window, newest first.
    pub closed spec fn samples(&self) -> Seq<FrameSample> {
        self.history@
    }

    /// The number of samples that the window can hold.
    pub closed spec fn capacity(&self) -> nat {
        self.max_history_size as nat
    }

    /// The display time of the frame submitted last.
    pub closed spec fn prev_vsync(&self) -> u64 {
        self.prev_vsync_ns
    }

    /// The average pipeline latency that the client reported last.
    pub closed spec fn last_average(&self) -> u64 {
        self.last_average_ns
    }

    /// The last charge of each device that reported one.
    pub closed spec fn gauges(&self) -> Seq<BatteryGauge> {
        self.gauges@
    }

    /// The window holds no more samples than it has room for, and no frame
    /// twice; no device has two gauges.
    pub closed spec fn wf(&self) -> bool {
        &&& self.history@.len() <= self.max_history_size
        &&& distinct_frames(self.history@)
        &&& forall|i: int, j: int|
            0 <= i < j < self.gauges@.len() ==> (#[trigger] self.gauges@[i]).device_id != (
            #[trigger] self.gauges@[j]).device_id
    }

    /// The window never holds more samples than it has room for.
    pub proof fn lemma_window_bounded(&self)
        requires
            self.wf(),
        ensures
            self.samples().len() <= self.capacity(),
            distinct_frames(self.samples()),
    {
    }

    /// An engine with an empty window of the given size.
    pub fn new(max_history_size: usize) -> (manager: StatisticsManager)
        ensures
            manager.wf(),
            manager.samples() == Seq::<FrameSample>::empty(),
            manager.capacity() == max_history_size,
            manager.prev_vsync() == 0,
            manager.last_average() == 0,
            manager.gauges() == Seq::<BatteryGauge>::empty(),
    {
        StatisticsManager {
            history: VecDeque::new(),
            max_history_size,
            prev_vsync_ns: 0,
            last_average_ns: 0,
            gauges: Vec::new(),
        }
    }

    /// The number of samples in the window.
    pub fn len(&self) -> (n: usize)
        requires
            self.wf(),
        ensures
            n == self.samples().len(),
            n <= self.capacity(),
    {
        self.history.len()
    }

    /// The size of the window.
    pub fn history_size(&self) -> (n: usize)
        ensures
            n == self.capacity(),
    {
        self.max_history_size
    }

    fn position(&self, target_timestamp_ns: u64) -> (place: Option<usize>)
        requires
            self.wf(),
        ensures
            place is Some <==> has_frame(self.samples(), target_timestamp_ns),
            place matches Some(i) ==> i < self.samples().len() && i == frame_index(
                self.samples(),
                target_timestamp_ns,
            ) && self.samples()[i as int].target_timestamp_ns == target_timestamp_ns,
    {
        let mut i: usize = 0;
        while i < self.history.len()
            invariant
                i <= self.history@.len(),
                self.wf(),
                forall|k: int|
                    0 <= k < i ==> (#[trigger] self.history@[k]).target_timestamp_ns
                        != target_timestamp_ns,
            decreases self.history@.len() - i,
        {
            if self.history[i].target_timestamp_ns == target_timestamp_ns {
                proof {
                    let k = frame_index(self.history@, target_timestamp_ns);
                    assert(self.history@[i as int].target_timestamp_ns == target_timestamp_ns);
                    assert(0 <= k < self.history@.len() && self.history@[k].target_timestamp_ns
                        == target_timestamp_ns);
                }
                return Some(i);
            }
            i = i + 1;
        }
        None
    }

    fn open_frame(&mut self, target_timestamp_ns: u64, now_ns: u64)
        requires
            old(self).wf(),
        ensures
            final(self).wf(),
            final(self).samples() == opened(
                old(self).samples(),
                old(self).capacity(),
                target_timestamp_ns,
                now_ns,
            ),
            final(self).capacity() == old(self).capacity(),
            final(self).prev_vsync() == old(self).prev_vsync(),
            final(self).last_average() == old(self).last_average(),
            final(self).gauges() == old(self).gauges(),
    {
        if self.position(target_timestamp_ns).is_some() || self.max_history_size == 0 {
            return ;
        }
        let ghost before = self.history@;
        let sample = FrameSample {
            target_timestamp_ns,
            opened_ns: now_ns,
            vsync_queue_ns: 0,
            frame_interval_ns: 0,
            total_pipeline_latency_ns: None,
        };
        if self.history.len() >= self.max_history_size {
            let _ = self.history.pop_back();
        }
        let ghost kept = self.history@;
        self.history.push_front(sample);
        proof {
            let after = self.history@;
            assert(forall|k: int| 0 <= k < kept.len() ==> kept[k] == before[k]);
            assert forall|i: int, j: int| 0 <= i < j < after.len() implies (
            #[trigger] after[i]).target_timestamp_ns != (#[trigger] after[j]).target_timestamp_ns by {
                assert(after[j] == before[j - 1]);
                if i > 0 {
                    assert(after[i] == before[i - 1]);
                }
            }
            if before.len() >= self.max_history_size {
                assert(kept =~= before.subrange(0, self.max_history_size - 1));
            }
        }
    }

    /// Records that the tracking of a frame arrived. This is the server's
    /// first report of a frame.
    pub fn report_tracking_received(&mut self, target_timestamp_ns: u64, now_ns: u64)
        requires
            old(self).wf(),
        ensures
            final(self).wf(),
            final(self).samples() == opened(
                old(self).samples(),
                old(self).capacity(),
                target_timestamp_ns,
                now_ns,
            ),
            final(self).samples().len() <= final(self).capacity(),
            final(self).capacity() == old(self).capacity(),
            final(self).prev_vsync() == old(self).prev_vsync(),
            final(self).last_average() == old(self).last_average(),
            final(self).gauges() == old(self).gauges(),
    {
        self.open_frame(target_timestamp_ns, now_ns);
    }

    /// Records that a frame was decoded. This is the client's first report
    /// of a frame.
    pub fn report_frame_decoded(&mut self, target_timestamp_ns: u64, now_ns: u64)
        requires
            old(self).wf(),
        ensures
            final(self).wf(),
            final(self).samples() == opened(
                old(self).samples(),
                old(self).capacity(),
                target_timestamp_ns,
                now_ns,
            ),
            final(self).samples().len() <= final(self).capacity(),
            final(self).capacity() == old(self).capacity(),
            final(self).prev_vsync() == old(self).prev_vsync(),
            final(self).last_average() == old(self).last_average(),
            final(self).gauges() == old(self).gauges(),
    {
        self.open_frame(target_timestamp_ns, now_ns);
    }

    fn replace(&mut self, i: usize, sample: FrameSample)
        requires
            old(self).wf(),
            i < old(self).samples().len(),
            sample.target_timestamp_ns == old(self).samples()[i as int].target_timestamp_ns,
        ensures
            final(self).wf(),
            final(self).samples() == old(self).samples().update(i as int, sample),
            final(self).capacity() == old(self).capacity(),
            final(self).prev_vsync() == old(self).prev_vsync(),
            final(self).last_average() == old(self).last_average(),
            final(self).gauges() == old(self).gauges(),
    {
        let ghost before = self.history@;
        let _ = self.history.remove(i);
        self.history.insert(i, sample);
        proof {
            let after = self.history@;
            assert(after =~= before.update(i as int, sample));
            assert forall|a: int, b: int| 0 <= a < b < after.len() implies (
            #[trigger] after[a]).target_timestamp_ns != (#[trigger] after[b]).target_timestamp_ns by {
                assert(after[a].target_timestamp_ns == before[a].target_timestamp_ns);
                assert(after[b].target_timestamp_ns == before[b].target_timestamp_ns);
            }
        }
    }

    /// Records that a frame was handed to the display, which shows it
    /// `vsync_queue_ns` later. A frame without a sample is ignored.
    pub fn report_submit(&mut self, target_timestamp_ns: u64, vsync_queue_ns: u64, now_ns: u64)
        requires
            old(self).wf(),
        ensures
            final(self).wf(),
            final(self).capacity() == old(self).capacity(),
            final(self).samples().len() == old(self).samples().len(),
            final(self).last_average() == old(self).last_average(),
            final(self).gauges() == old(self).gauges(),
            !has_frame(old(self).samples(), target_timestamp_ns) ==> final(self).samples() == old(self).samples() && final(self).prev_vsync() == old(self).prev_vsync(),
            has_frame(old(self).samples(), target_timestamp_ns) ==> {
                let i = frame_index(old(self).samples(), target_timestamp_ns);
                &&& final(self).samples() == old(self).samples().update(
                    i,
                    submitted(
                        old(self).samples()[i],
                        vsync_queue_ns,
                        now_ns,
                        old(self).prev_vsync(),
                    ),
                )
                &&& final(self).prev_vsync() == plus(now_ns as int, vsync_queue_ns as int)
            },
    {
        match self.position(target_timestamp_ns) {
            None => {},
            Some(i) => {
                let sample = self.history[i];
                let vsync: u64 = saturating_plus(now_ns, vsync_queue_ns);
                let total: u64 = saturating_plus(
                    saturating_minus(now_ns, sample.opened_ns),
                    vsync_queue_ns,
                );
                let updated = FrameSample {
                    target_timestamp_ns: sample.target_timestamp_ns,
                    opened_ns: sample.opened_ns,
                    vsync_queue_ns,
                    frame_interval_ns: saturating_minus(vsync, self.prev_vsync_ns),
                    total_pipeline_latency_ns: Some(total),
                };
                self.replace(i, updated);
                self.prev_vsync_ns = vsync;
            },
        }
    }

    /// The mean pipeline latency over the window; zero while no frame has
    /// been submitted.
    pub fn average_total_pipeline_latency(&self) -> (average_ns: u64)
        requires
            self.wf(),
        ensures
            average_ns == average_latency(self.samples()),
            latency_count(self.samples()) == 0 ==> average_ns == 0,
    {
        let mut sum: u128 = 0;
        let mut count: u64 = 0;
        let mut i: usize = 0;
        assert(self.history@.take(0) =~= Seq::<FrameSample>::empty());
        while i < self.history.len()
            invariant
                i <= self.history@.len(),
                sum == latency_sum(self.history@.take(i as int)),
                count == latency_count(self.history@.take(i as int)),
                count <= i,
                sum <= count * 0xffff_ffff_ffff_ffff,
            decreases self.history@.len() - i,
        {
            proof {
                let next = self.history@.take(i + 1);
                assert(next.drop_last() =~= self.history@.take(i as int));
                assert(next.last() == self.history@[i as int]);
            }
            if let Some(latency) = self.history[i].total_pipeline_latency_ns {
                assert((count + 1) * 0xffff_ffff_ffff_ffff <= 0xffff_ffff_ffff_ffff
                    * 0xffff_ffff_ffff_ffff) by (nonlinear_arith)
                    requires
                        count + 1 <= 0xffff_ffff_ffff_ffff,
                ;
                sum = sum + latency as u128;
                count = count + 1;
            }
            i = i + 1;
        }
        assert(self.history@.take(self.history@.len() as int) =~= self.history@);
        if count == 0 {
            0
        } else {
            let mean: u128 = sum / (count as u128);
            assert(mean <= 0xffff_ffff_ffff_ffff) by (nonlinear_arith)
                requires
                    mean == sum as int / count as int,
                    count > 0,
                    sum <= count * 0xffff_ffff_ffff_ffff,
            ;
            mean as u64
        }
    }

    /// What the client sends about a frame: `None` until the frame was
    /// submitted.
    pub fn summary(&self, target_timestamp_ns: u64) -> (report: Option<ClientStatistics>)
        requires
            self.wf(),
        ensures
            report is Some <==> (has_frame(self.samples(), target_timestamp_ns)
                && self.samples()[frame_index(
                self.samples(),
                target_timestamp_ns,
            )].total_pipeline_latency_ns is Some),
            report matches Some(stats) ==> {
                let sample = self.samples()[frame_index(self.samples(), target_timestamp_ns)];
                &&& stats.target_timestamp_ns == target_timestamp_ns
                &&& stats.frame_interval_ns == sample.frame_interval_ns
                &&& stats.vsync_queue_ns == sample.vsync_queue_ns
                &&& Some(stats.total_pipeline_latency_ns) == sample.total_pipeline_latency_ns
                &&& stats.average_total_pipeline_latency_ns == average_latency(self.samples())
            },
    {
        match self.position(target_timestamp_ns) {
            None => None,
            Some(i) => {
                let sample = self.history[i];
                match sample.total_pipeline_latency_ns {
                    None => None,
                    Some(total) => Some(
                        ClientStatistics {
                            target_timestamp_ns,
                            frame_interval_ns: sample.frame_interval_ns,
                            vsync_queue_ns: sample.vsync_queue_ns,
                            total_pipeline_latency_ns: total,
                            average_total_pipeline_latency_ns: self.average_total_pipeline_latency(),
                        },
                    ),
                }
            },
        }
    }

    /// Folds a client's report into the window and returns the network
    /// latency. The frame's sample, where the window holds one, takes the
    /// reported pipeline latency and display times, and the reported average
    /// is kept.
    pub fn report_statistics(&mut self, client_stats: ClientStatistics, game_frame_interval_ns: u64) -> (network_latency_ns:
        u64)
        requires
            old(self).wf(),
        ensures
            final(self).wf(),
            network_latency_ns == network_latency_of(client_stats, game_frame_interval_ns),
            final(self).capacity() == old(self).capacity(),
            final(self).samples().len() == old(self).samples().len(),
            final(self).prev_vsync() == old(self).prev_vsync(),
            final(self).gauges() == old(self).gauges(),
            final(self).last_average() == client_stats.average_total_pipeline_latency_ns,
            !has_frame(old(self).samples(), client_stats.target_timestamp_ns) ==> final(self).samples() == old(self).samples(),
            has_frame(old(self).samples(), client_stats.target_timestamp_ns) ==> {
                let i = frame_index(old(self).samples(), client_stats.target_timestamp_ns);
                final(self).samples() == old(self).samples().update(
                    i,
                    FrameSample {
                        vsync_queue_ns: client_stats.vsync_queue_ns,
                        frame_interval_ns: client_stats.frame_interval_ns,
                        total_pipeline_latency_ns: Some(client_stats.total_pipeline_latency_ns),
                        ..old(self).samples()[i]
                    },
                )
            },
    {
        self.last_average_ns = client_stats.average_total_pipeline_latency_ns;
        match self.position(client_stats.target_timestamp_ns) {
            None => {},
            Some(i) => {
                let sample = self.history[i];
                let updated = FrameSample {
                    target_timestamp_ns: sample.target_timestamp_ns,
                    opened_ns: sample.opened_ns,
                    vsync_queue_ns: client_stats.vsync_queue_ns,
                    frame_interval_ns: client_stats.frame_interval_ns,
                    total_pipeline_latency_ns: Some(client_stats.total_pipeline_latency_ns),
                };
                self.replace(i, updated);
            },
        }
        saturating_minus(
            saturating_minus(client_stats.total_pipeline_latency_ns, client_stats.vsync_queue_ns),
            game_frame_interval_ns,
        )
    }

    /// The average pipeline latency that the client reported last; zero
    /// before the first report.
    pub fn last_average_total_latency(&self) -> (average_ns: u64)
        ensures
            average_ns == self.last_average(),
    {
        self.last_average_ns
    }

    fn gauge_position(&self, device_id: u64) -> (place: Option<usize>)
        requires
            self.wf(),
        ensures
            place is Some <==> has_gauge(self.gauges(), device_id),
            place matches Some(i) ==> i < self.gauges().len() && i == gauge_index(
                self.gauges(),
                device_id,
            ) && self.gauges()[i as int].device_id == device_id,
    {
        let mut i: usize = 0;
        while i < self.gauges.len()
            invariant
                i <= self.gauges@.len(),
                self.wf(),
                forall|k: int| 0 <= k < i ==> (#[trigger] self.gauges@[k]).device_id != device_id,
            decreases self.gauges@.len() - i,
        {
            if self.gauges[i].device_id == device_id {
                proof {
                    let k = gauge_index(self.gauges@, device_id);
                    assert(self.gauges@[i as int].device_id == device_id);
                    assert(0 <= k < self.gauges@.len() && self.gauges@[k].device_id == device_id);
                }
                return Some(i);
            }
            i = i + 1;
        }
        None
    }

    /// Records the charge of a device.
    pub fn report_battery(&mut self, device_id: u64, gauge_value: Scalar)
        requires
            old(self).wf(),
        ensures
            final(self).wf(),
            final(self).gauges() == with_gauge(old(self).gauges(), device_id, gauge_value),
            final(self).samples() == old(self).samples(),
            final(self).capacity() == old(self).capacity(),
            final(self).prev_vsync() == old(self).prev_vsync(),
            final(self).last_average() == old(self).last_average(),
    {
        let gauge = BatteryGauge { device_id, gauge_value };
        let ghost before = self.gauges@;
        match self.gauge_position(device_id) {
            Some(i) => {
                self.gauges.set(i, gauge);
                proof {
                    let after = self.gauges@;
                    assert forall|a: int, b: int| 0 <= a < b < after.len() implies (
                    #[trigger] after[a]).device_id != (#[trigger] after[b]).device_id by {
                        assert(after[a].device_id == before[a].device_id);
                        assert(after[b].device_id == before[b].device_id);
                    }
                }
            },
            None => {
                self.gauges.push(gauge);
                proof {
                    let after = self.gauges@;
                    assert forall|a: int, b: int| 0 <= a < b < after.len() implies (
                    #[trigger] after[a]).device_id != (#[trigger] after[b]).device_id by {
                        if b < before.len() {
                            assert(after[a] == before[a] && after[b] == before[b]);
                        } else {
                            assert(after[a] == before[a]);
                            assert(before[a].device_id != device_id);
                        }
                    }
                }
            },
        }
    }

    /// The last charge that a device reported.
    pub fn battery_gauge(&self, device_id: u64) -> (gauge: Option<Scalar>)
        requires
            self.wf(),
        ensures
            gauge is Some <==> has_gauge(self.gauges(), device_id),
            gauge matches Some(value) ==> value == self.gauges()[gauge_index(
                self.gauges(),
                device_id,
            )].gauge_value,
    {
        match self.gauge_position(device_id) {
            Some(i) => Some(self.gauges[i].gauge_value),
            None => None,
        }
    }
}

} // verus!
