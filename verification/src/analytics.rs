//! The analytics state of one monitored interface: the current sample, a
//! rolling window of recent samples and a rolling window of hourly summaries.
//!
//! The state has a single writer: every change goes through `&mut self`, so
//! a reader never sees a reading half recorded. Each reading is measured
//! against the one before it; the first reading is measured against the
//! instant at which the state was created, with the same one-second
//! substitute for an interval that is not positive. A clock that did not
//! advance and a counter that went down are never errors; the collector's
//! step reports them so that they can be logged. At most one summary is
//! kept per hour of the clock: asking again within an hour that already has
//! its summary, or for an earlier hour, changes nothing.
//!
//! The fields are private and the state is well-formed at all times, so no
//! operation asks anything of its caller.

use crate::clock::unix_nanos_now;
use crate::interface::{lost_text, InterfaceError};
use crate::rate::RATE_LIMIT;
use crate::sample::{
    derived_sample, initial_sample, HourlySample, MetricsView, NetworkMetrics, NetworkSample,
    SampleView,
};
use crate::units::DataSize;
use crate::window::{keep_last, lemma_keep_last_map, push_bounded};
use std::collections::VecDeque;
use vstd::prelude::*;

verus! {

/// How many recent samples are kept.
pub const RECENT_CAPACITY: usize = 60;

/// How many hourly summaries are kept.
pub const HOURLY_CAPACITY: usize = 24;

/// The largest capacity a window may have; with it the sum of a full window
/// of rates fits in 128 bits.
pub const WINDOW_LIMIT: usize = 4_294_967_295;

/// Nanoseconds in one hour, the span that one summary covers.
pub const NANOS_PER_HOUR: u128 = 3_600_000_000_000;

/// The analytics of one interface.
#[derive(Debug)]
pub struct NetworkAnalytics {
    interface_name: String,
    current_sample: NetworkSample,
    recent_samples: VecDeque<NetworkSample>,
    hourly_samples: VecDeque<HourlySample>,
    max_samples: usize,
    max_hourly_samples: usize,
    last_bytes_received: u64,
    last_bytes_sent: u64,
    last_update: u128,
    data_size: DataSize,
}

/// What a [`NetworkAnalytics`] holds, as mathematical values.
pub struct AnalyticsModel {
    pub interface_name: Seq<char>,
    pub current_sample: SampleView,
    pub recent_samples: Seq<SampleView>,
    pub hourly_samples: Seq<HourlySample>,
    pub max_samples: nat,
    pub max_hourly_samples: nat,
    pub last_bytes_received: nat,
    pub last_bytes_sent: nat,
    pub last_update: nat,
    pub data_size: DataSize,
}

/// What was out of the ordinary in a reading. None of it is an error: the
/// reading is recorded all the same, by the rules for such readings. It is
/// reported so that it can be logged.
#[derive(Debug, Clone, Copy, PartialEq, Eq, Structural)]
pub struct Anomalies {
    /// The clock did not advance since the reading before: one second was
    /// taken as the time elapsed.
    pub clock_stalled: bool,
    /// The counter of bytes received went down: it was taken as restarted.
    pub received_restarted: bool,
    /// The counter of bytes sent went down: it was taken as restarted.
    pub sent_restarted: bool,
}

/// One reading of the interface's cumulative counters, taken at `at`.
pub struct Reading {
    pub bytes_received: u64,
    pub bytes_sent: u64,
    pub at: u128,
}

/// The views of a sequence of samples, in the same order.
pub open spec fn sample_views(samples: Seq<NetworkSample>) -> Seq<SampleView> {
    samples.map_values(|s: NetworkSample| s@)
}

/// The views of a sequence of borrowed samples, in the same order.
pub open spec fn borrowed_sample_views(samples: Seq<&NetworkSample>) -> Seq<SampleView> {
    samples.map_values(|s: &NetworkSample| s@)
}

/// The summaries behind a sequence of borrowed summaries, in the same order.
pub open spec fn borrowed_summaries(summaries: Seq<&HourlySample>) -> Seq<HourlySample> {
    summaries.map_values(|h: &HourlySample| *h)
}

/// The sum of the inbound rates of `samples`.
pub open spec fn total_rate_in(samples: Seq<SampleView>) -> nat
    decreases samples.len(),
{
    if samples.len() == 0 {
        0
    } else {
        total_rate_in(samples.drop_last()) + samples.last().bytes_per_second_in
    }
}

/// The sum of the outbound rates of `samples`.
pub open spec fn total_rate_out(samples: Seq<SampleView>) -> nat
    decreases samples.len(),
{
    if samples.len() == 0 {
        0
    } else {
        total_rate_out(samples.drop_last()) + samples.last().bytes_per_second_out
    }
}

/// The hour of the clock in which `instant` lies, counted from the epoch.
pub open spec fn hour_of(instant: nat) -> nat {
    instant / (NANOS_PER_HOUR as nat)
}

/// Each summary lies in a later hour of the clock than the one before it, so
/// no two summaries share an hour.
pub open spec fn hours_increase(summaries: Seq<HourlySample>) -> bool {
    forall|i: int, j: int|
        0 <= i < j < summaries.len() ==> hour_of(#[trigger] summaries[i].timestamp as nat)
            < hour_of(#[trigger] summaries[j].timestamp as nat)
}

impl AnalyticsModel {
    /// The windows are within their capacities, the capacities within
    /// [`WINDOW_LIMIT`], at least one summary can be kept, every recent rate
    /// is within [`RATE_LIMIT`], the counters of the current sample are
    /// 64-bit counters, and no two summaries share an hour.
    pub open spec fn well_formed(self) -> bool {
        &&& self.current_sample.bytes_received <= u64::MAX
        &&& self.current_sample.bytes_sent <= u64::MAX
        &&& self.recent_samples.len() <= self.max_samples <= WINDOW_LIMIT
        &&& self.hourly_samples.len() <= self.max_hourly_samples <= WINDOW_LIMIT
        &&& 1 <= self.max_hourly_samples
        &&& forall|i: int|
            0 <= i < self.recent_samples.len() ==> {
                &&& (#[trigger] self.recent_samples[i]).bytes_per_second_in <= RATE_LIMIT
                &&& self.recent_samples[i].bytes_per_second_out <= RATE_LIMIT
            }
        &&& hours_increase(self.hourly_samples)
    }

    /// The state at the instant `now` at which monitoring of `interface_name`
    /// begins: zero counters, empty windows.
    pub open spec fn started(interface_name: Seq<char>, data_size: DataSize, now: u128) -> Self {
        AnalyticsModel {
            interface_name,
            current_sample: initial_sample(now as nat),
            recent_samples: Seq::empty(),
            hourly_samples: Seq::empty(),
            max_samples: RECENT_CAPACITY as nat,
            max_hourly_samples: HOURLY_CAPACITY as nat,
            last_bytes_received: 0,
            last_bytes_sent: 0,
            last_update: now as nat,
            data_size,
        }
    }

    /// The sample that `reading` gives in this state.
    pub open spec fn next_sample(self, reading: Reading) -> SampleView {
        derived_sample(
            self.data_size,
            self.last_bytes_received,
            self.last_bytes_sent,
            self.last_update,
            reading.bytes_received as nat,
            reading.bytes_sent as nat,
            reading.at as nat,
        )
    }

    /// What is out of the ordinary in `reading`, taken in this state.
    pub open spec fn anomalies(self, reading: Reading) -> Anomalies {
        Anomalies {
            clock_stalled: reading.at <= self.last_update,
            received_restarted: reading.bytes_received < self.last_bytes_received,
            sent_restarted: reading.bytes_sent < self.last_bytes_sent,
        }
    }

    /// The state after `reading`: its sample is the current one and the
    /// newest of the recent window, and the reading is the one the next will
    /// be measured against. The summaries are untouched.
    pub open spec fn updated(self, reading: Reading) -> Self {
        let sample = self.next_sample(reading);
        AnalyticsModel {
            current_sample: sample,
            recent_samples: keep_last(self.recent_samples.push(sample), self.max_samples),
            last_bytes_received: reading.bytes_received as nat,
            last_bytes_sent: reading.bytes_sent as nat,
            last_update: reading.at as nat,
            ..self
        }
    }

    /// Whether a summary is to be made at `now`: there are recent samples,
    /// and the hour of `now` lies after the hour of the newest summary.
    pub open spec fn summary_due(self, now: u128) -> bool {
        &&& self.recent_samples.len() > 0
        &&& (self.hourly_samples.len() == 0 || hour_of(now as nat) > hour_of(
            self.hourly_samples.last().timestamp as nat,
        ))
    }

    /// The summary of the recent window at `now`: the mean of the recent
    /// rates, rounded down, with the counters of the current sample.
    pub open spec fn summary(self, now: u128) -> HourlySample {
        HourlySample {
            timestamp: now,
            avg_bytes_per_second_in: (total_rate_in(self.recent_samples)
                / self.recent_samples.len()) as u128,
            avg_bytes_per_second_out: (total_rate_out(self.recent_samples)
                / self.recent_samples.len()) as u128,
            total_bytes_received: self.current_sample.bytes_received as u64,
            total_bytes_sent: self.current_sample.bytes_sent as u64,
        }
    }

    /// The state after a summary was asked for at `now`: where one is due it
    /// is the newest of the hourly window, else nothing has changed.
    pub open spec fn aggregated(self, now: u128) -> Self {
        if self.summary_due(now) {
            AnalyticsModel {
                hourly_samples: keep_last(
                    self.hourly_samples.push(self.summary(now)),
                    self.max_hourly_samples,
                ),
                ..self
            }
        } else {
            self
        }
    }

    /// The snapshot that observers are given.
    pub open spec fn metrics(self) -> MetricsView {
        MetricsView {
            interface: self.interface_name,
            current: self.current_sample,
            recent: self.recent_samples,
        }
    }
}

impl View for NetworkAnalytics {
    type V = AnalyticsModel;

    closed spec fn view(&self) -> AnalyticsModel {
        AnalyticsModel {
            interface_name: self.interface_name@,
            current_sample: self.current_sample@,
            recent_samples: sample_views(self.recent_samples@),
            hourly_samples: self.hourly_samples@,
            max_samples: self.max_samples as nat,
            max_hourly_samples: self.max_hourly_samples as nat,
            last_bytes_received: self.last_bytes_received as nat,
            last_bytes_sent: self.last_bytes_sent as nat,
            last_update: self.last_update as nat,
            data_size: self.data_size,
        }
    }
}

impl NetworkAnalytics {
    /// Every state is well-formed: see [`AnalyticsModel::well_formed`].
    #[verifier::type_invariant]
    spec fn always_well_formed(&self) -> bool {
        self@.well_formed()
    }

    /// Begins monitoring `interface_name` at the current time of the system
    /// clock, with rates shown in `data_size`.
    pub fn new(interface_name: String, data_size: DataSize) -> (state: Self)
        ensures
            state@.well_formed(),
            exists|now: u128| state@ == AnalyticsModel::started(interface_name@, data_size, now),
    {
        let now = unix_nanos_now();
        Self::starting_at(interface_name, data_size, now)
    }

    /// Begins monitoring `interface_name` at the instant `now`, with rates
    /// shown in `data_size`.
    pub fn starting_at(interface_name: String, data_size: DataSize, now: u128) -> (state: Self)
        ensures
            state@.well_formed(),
            state@ == AnalyticsModel::started(interface_name@, data_size, now),
    {
        let state = NetworkAnalytics {
            interface_name,
            current_sample: NetworkSample::initial(now),
            recent_samples: VecDeque::with_capacity(RECENT_CAPACITY),
            hourly_samples: VecDeque::with_capacity(HOURLY_CAPACITY),
            max_samples: RECENT_CAPACITY,
            max_hourly_samples: HOURLY_CAPACITY,
            last_bytes_received: 0,
            last_bytes_sent: 0,
            last_update: now,
            data_size,
        };
        assert(state@.recent_samples =~= Seq::empty());
        state
    }

    /// Records a reading of the counters taken at the current time of the
    /// system clock.
    pub fn update_from_sysinfo(&mut self, bytes_received: u64, bytes_sent: u64)
        ensures
            final(self)@.well_formed(),
            exists|now: u128|
                final(self)@ == old(self)@.updated(
                    (Reading { bytes_received, bytes_sent, at: now }),
                ),
    {
        let now = unix_nanos_now();
        self.update(bytes_received, bytes_sent, now);
    }

    /// Records a reading of the counters taken at `now`.
    pub fn update(&mut self, bytes_received: u64, bytes_sent: u64, now: u128)
        ensures
            final(self)@.well_formed(),
            final(self)@ == old(self)@.updated((Reading { bytes_received, bytes_sent, at: now })),
    {
        proof {
            use_type_invariant(&*self);
        }
        let new_sample = NetworkSample::derive(
            self.data_size,
            self.last_bytes_received,
            self.last_bytes_sent,
            self.last_update,
            bytes_received,
            bytes_sent,
            now,
        );
        let mut recent = VecDeque::new();
        std::mem::swap(&mut recent, &mut self.recent_samples);
        let ghost before = recent@;
        push_bounded(&mut recent, new_sample.clone(), self.max_samples);
        proof {
            lemma_keep_last_map(
                before.push(new_sample),
                self.max_samples as nat,
                |s: NetworkSample| s@,
            );
            assert(sample_views(before.push(new_sample)) =~= sample_views(before).push(
                new_sample@,
            ));
        }
        self.recent_samples = recent;
        self.current_sample = new_sample;
        self.last_bytes_received = bytes_received;
        self.last_bytes_sent = bytes_sent;
        self.last_update = now;
    }

    /// What would be out of the ordinary in a reading of `bytes_received`
    /// and `bytes_sent` taken at `now`. The state is not changed.
    pub fn anomalies(&self, bytes_received: u64, bytes_sent: u64, now: u128) -> (found: Anomalies)
        ensures
            found == self@.anomalies((Reading { bytes_received, bytes_sent, at: now })),
    {
        Anomalies {
            clock_stalled: now <= self.last_update,
            received_restarted: bytes_received < self.last_bytes_received,
            sent_restarted: bytes_sent < self.last_bytes_sent,
        }
    }

    /// One step of the collector, taken at `now`. A reading of the counters,
    /// as bytes received and bytes sent, is recorded, and what was out of the
    /// ordinary in it is returned. Without a reading the interface is gone:
    /// nothing is recorded and the error that ends the monitoring is
    /// returned.
    pub fn tick(&mut self, reading: Option<(u64, u64)>, now: u128) -> (outcome: Result<
        Anomalies,
        InterfaceError,
    >)
        ensures
            final(self)@.well_formed(),
            match reading {
                Some((bytes_received, bytes_sent)) => {
                    &&& outcome is Ok
                    &&& outcome->Ok_0 == old(self)@.anomalies(
                        (Reading { bytes_received, bytes_sent, at: now }),
                    )
                    &&& final(self)@ == old(self)@.updated(
                        (Reading { bytes_received, bytes_sent, at: now }),
                    )
                },
                None => {
                    &&& outcome is Err
                    &&& outcome->Err_0@ == lost_text(old(self)@.interface_name)
                    &&& final(self)@ == old(self)@
                },
            },
    {
        match reading {
            Some((bytes_received, bytes_sent)) => {
                let found = self.anomalies(bytes_received, bytes_sent, now);
                self.update(bytes_received, bytes_sent, now);
                Ok(found)
            },
            None => {
                proof {
                    use_type_invariant(&*self);
                }
                Err(InterfaceError::lost(self.interface_name.as_str()))
            },
        }
    }

    /// Summarises the recent window at `timestamp`. Where a summary is due
    /// (there are recent samples, and the hour of `timestamp` has none yet) it
    /// is appended to the hourly window and returned, to be stored durably by
    /// the caller. Otherwise nothing changes and nothing is returned.
    pub fn aggregate_hourly_data(&mut self, timestamp: u128) -> (summary: Option<HourlySample>)
        ensures
            final(self)@.well_formed(),
            final(self)@ == old(self)@.aggregated(timestamp),
            summary == if old(self)@.summary_due(timestamp) {
                Some(old(self)@.summary(timestamp))
            } else {
                None
            },
    {
        proof {
            use_type_invariant(&*self);
        }
        let count = self.recent_samples.len();
        if count == 0 {
            return None;
        }
        let kept = self.hourly_samples.len();
        if kept > 0 && timestamp / NANOS_PER_HOUR <= self.hourly_samples[kept - 1].timestamp
            / NANOS_PER_HOUR {
            return None;
        }
        let ghost views = sample_views(self.recent_samples@);
        let mut total_in: u128 = 0;
        let mut total_out: u128 = 0;
        let mut i: usize = 0;
        while i < count
            invariant
                i <= count,
                count == self.recent_samples@.len(),
                count <= WINDOW_LIMIT,
                views == sample_views(self.recent_samples@),
                forall|k: int|
                    0 <= k < views.len() ==> {
                        &&& (#[trigger] views[k]).bytes_per_second_in <= RATE_LIMIT
                        &&& views[k].bytes_per_second_out <= RATE_LIMIT
                    },
                total_in == total_rate_in(views.subrange(0, i as int)),
                total_out == total_rate_out(views.subrange(0, i as int)),
                total_in <= i * RATE_LIMIT,
                total_out <= i * RATE_LIMIT,
            decreases count - i,
        {
            let sample = &self.recent_samples[i];
            proof {
                assert(views.subrange(0, i + 1).drop_last() =~= views.subrange(0, i as int));
                assert(views.subrange(0, i + 1).last() == views[i as int]);
                assert(views[i as int] == sample@);
            }
            total_in = total_in + sample.bytes_per_second_in;
            total_out = total_out + sample.bytes_per_second_out;
            i = i + 1;
        }
        proof {
            assert(views.subrange(0, count as int) =~= views);
        }
        let summary = HourlySample {
            timestamp,
            avg_bytes_per_second_in: total_in / (count as u128),
            avg_bytes_per_second_out: total_out / (count as u128),
            total_bytes_received: self.current_sample.bytes_received,
            total_bytes_sent: self.current_sample.bytes_sent,
        };
        let mut hourly = VecDeque::new();
        std::mem::swap(&mut hourly, &mut self.hourly_samples);
        push_bounded(&mut hourly, summary, self.max_hourly_samples);
        self.hourly_samples = hourly;
        Some(summary)
    }

    /// The name of the monitored interface.
    pub fn interface_name(&self) -> (name: &String)
        ensures
            name@ == self@.interface_name,
    {
        &self.interface_name
    }

    /// The sample of the latest reading; before the first reading, the sample
    /// that stands in for it.
    pub fn current_sample(&self) -> (sample: &NetworkSample)
        ensures
            sample@ == self@.current_sample,
    {
        &self.current_sample
    }

    /// The recent samples, oldest first.
    pub fn get_recent_samples(&self) -> (samples: Vec<&NetworkSample>)
        ensures
            borrowed_sample_views(samples@) == self@.recent_samples,
            self@.well_formed(),
    {
        proof {
            use_type_invariant(self);
        }
        let mut samples: Vec<&NetworkSample> = Vec::new();
        let count = self.recent_samples.len();
        let mut i: usize = 0;
        while i < count
            invariant
                i <= count,
                count == self.recent_samples@.len(),
                samples@.len() == i,
                forall|k: int| 0 <= k < i ==> *(#[trigger] samples@[k]) == self.recent_samples@[k],
            decreases count - i,
        {
            samples.push(&self.recent_samples[i]);
            i = i + 1;
        }
        assert(borrowed_sample_views(samples@) =~= self@.recent_samples);
        samples
    }

    /// The hourly summaries, oldest first.
    pub fn get_hourly_samples(&self) -> (summaries: Vec<&HourlySample>)
        ensures
            borrowed_summaries(summaries@) == self@.hourly_samples,
            self@.well_formed(),
    {
        proof {
            use_type_invariant(self);
        }
        let mut summaries: Vec<&HourlySample> = Vec::new();
        let count = self.hourly_samples.len();
        let mut i: usize = 0;
        while i < count
            invariant
                i <= count,
                count == self.hourly_samples@.len(),
                summaries@.len() == i,
                forall|k: int|
                    0 <= k < i ==> *(#[trigger] summaries@[k]) == self.hourly_samples@[k],
            decreases count - i,
        {
            summaries.push(&self.hourly_samples[i]);
            i = i + 1;
        }
        assert(borrowed_summaries(summaries@) =~= self@.hourly_samples);
        summaries
    }

    /// A snapshot for observers: the interface's name, the current sample and
    /// a copy of the recent samples, oldest first. The state is not changed.
    pub fn get_metrics(&self) -> (metrics: NetworkMetrics)
        ensures
            metrics@ == self@.metrics(),
            self@.well_formed(),
    {
        proof {
            use_type_invariant(self);
        }
        let mut recent: Vec<NetworkSample> = Vec::new();
        let count = self.recent_samples.len();
        let mut i: usize = 0;
        while i < count
            invariant
                i <= count,
                count == self.recent_samples@.len(),
                recent@.len() == i,
                forall|k: int| 0 <= k < i ==> #[trigger] recent@[k] == self.recent_samples@[k],
            decreases count - i,
        {
            recent.push(self.recent_samples[i].clone());
            i = i + 1;
        }
        let metrics = NetworkMetrics {
            interface: self.interface_name.clone(),
            current: self.current_sample.clone(),
            recent,
        };
        assert(metrics@.recent =~= self@.recent_samples);
        metrics
    }
}

} // verus!
