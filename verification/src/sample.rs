//! The records the analytics keep: one sample per update, one summary per
//! hour, and the read-only snapshot handed to observers.

use crate::rate::{
    counter_delta, delta_since, elapsed_nanos, elapsed_since, rate_between, rate_over, RATE_LIMIT,
};
use crate::units::{rate_text, DataSize};
use vstd::prelude::*;
use vstd::string::*;

verus! {

/// One reading of the interface together with the rates derived from it.
/// Instants are nanoseconds since the Unix epoch; rates are whole bytes per
/// second.
#[derive(Debug)]
pub struct NetworkSample {
    pub timestamp: u128,
    pub bytes_received: u64,
    pub bytes_sent: u64,
    pub bytes_per_second_in: u128,
    pub bytes_per_second_out: u128,
    pub transfer_rate_in: String,
    pub transfer_rate_out: String,
}

/// What a [`NetworkSample`] holds, as mathematical values.
pub struct SampleView {
    pub timestamp: nat,
    pub bytes_received: nat,
    pub bytes_sent: nat,
    pub bytes_per_second_in: nat,
    pub bytes_per_second_out: nat,
    pub transfer_rate_in: Seq<char>,
    pub transfer_rate_out: Seq<char>,
}

/// The summary of one hour: the mean rates over the recent samples and the
/// cumulative counters at the time of the summary.
#[derive(Debug, Clone, Copy, PartialEq, Eq, Structural)]
pub struct HourlySample {
    pub timestamp: u128,
    pub avg_bytes_per_second_in: u128,
    pub avg_bytes_per_second_out: u128,
    pub total_bytes_received: u64,
    pub total_bytes_sent: u64,
}

/// A snapshot of the analytics for observers: it shares nothing with the
/// state it was taken from.
#[derive(Debug)]
pub struct NetworkMetrics {
    pub interface: String,
    pub current: NetworkSample,
    pub recent: Vec<NetworkSample>,
}

/// What a [`NetworkMetrics`] holds, as mathematical values.
pub struct MetricsView {
    pub interface: Seq<char>,
    pub current: SampleView,
    pub recent: Seq<SampleView>,
}

impl View for NetworkMetrics {
    type V = MetricsView;

    open spec fn view(&self) -> MetricsView {
        MetricsView {
            interface: self.interface@,
            current: self.current@,
            recent: self.recent@.map_values(|s: NetworkSample| s@),
        }
    }
}

/// The rate text of the sample that stands in before the first reading.
pub open spec fn initial_rate_text() -> Seq<char> {
    seq!['0', ' ', 'K', 'B', '/', 's']
}

/// The sample that stands in before the first reading: zero counters and
/// zero rates at the instant the monitoring began.
pub open spec fn initial_sample(now: nat) -> SampleView {
    SampleView {
        timestamp: now,
        bytes_received: 0,
        bytes_sent: 0,
        bytes_per_second_in: 0,
        bytes_per_second_out: 0,
        transfer_rate_in: initial_rate_text(),
        transfer_rate_out: initial_rate_text(),
    }
}

/// The sample that a reading of `bytes_received` and `bytes_sent` at `now`
/// gives, after a reading of `last_received` and `last_sent` at
/// `last_update`, with rates shown in `unit`. The numeric rates are whole
/// bytes per second, rounded down; the texts show the rate itself, the bytes
/// counted over the time elapsed, rounded once to two decimal places.
pub open spec fn derived_sample(
    unit: DataSize,
    last_received: nat,
    last_sent: nat,
    last_update: nat,
    bytes_received: nat,
    bytes_sent: nat,
    now: nat,
) -> SampleView {
    let elapsed = elapsed_nanos(last_update, now);
    SampleView {
        timestamp: now,
        bytes_received,
        bytes_sent,
        bytes_per_second_in: rate_between(last_received, bytes_received, last_update, now),
        bytes_per_second_out: rate_between(last_sent, bytes_sent, last_update, now),
        transfer_rate_in: rate_text(unit, counter_delta(last_received, bytes_received), elapsed),
        transfer_rate_out: rate_text(unit, counter_delta(last_sent, bytes_sent), elapsed),
    }
}

impl View for NetworkSample {
    type V = SampleView;

    open spec fn view(&self) -> SampleView {
        SampleView {
            timestamp: self.timestamp as nat,
            bytes_received: self.bytes_received as nat,
            bytes_sent: self.bytes_sent as nat,
            bytes_per_second_in: self.bytes_per_second_in as nat,
            bytes_per_second_out: self.bytes_per_second_out as nat,
            transfer_rate_in: self.transfer_rate_in@,
            transfer_rate_out: self.transfer_rate_out@,
        }
    }
}

impl Clone for NetworkSample {
    fn clone(&self) -> (copy: Self)
        ensures
            copy == *self,
    {
        NetworkSample {
            timestamp: self.timestamp,
            bytes_received: self.bytes_received,
            bytes_sent: self.bytes_sent,
            bytes_per_second_in: self.bytes_per_second_in,
            bytes_per_second_out: self.bytes_per_second_out,
            transfer_rate_in: self.transfer_rate_in.clone(),
            transfer_rate_out: self.transfer_rate_out.clone(),
        }
    }
}

impl NetworkSample {
    /// Both rates lie within what two 64-bit readings can give.
    pub open spec fn rates_within_limit(&self) -> bool {
        &&& self.bytes_per_second_in <= RATE_LIMIT
        &&& self.bytes_per_second_out <= RATE_LIMIT
    }

    /// The sample that stands in before the first reading.
    pub fn initial(now: u128) -> (sample: NetworkSample)
        ensures
            sample@ == initial_sample(now as nat),
            sample.rates_within_limit(),
    {
        proof {
            reveal_strlit("0 KB/s");
        }
        let transfer_rate_in = String::from_str("0 KB/s");
        let transfer_rate_out = String::from_str("0 KB/s");
        assert(transfer_rate_in@ =~= initial_rate_text());
        assert(transfer_rate_out@ =~= initial_rate_text());
        NetworkSample {
            timestamp: now,
            bytes_received: 0,
            bytes_sent: 0,
            bytes_per_second_in: 0,
            bytes_per_second_out: 0,
            transfer_rate_in,
            transfer_rate_out,
        }
    }

    /// Derives the sample for a new reading from the previous reading: the
    /// rates over the time between them, and their text in `unit`.
    pub fn derive(
        unit: DataSize,
        last_received: u64,
        last_sent: u64,
        last_update: u128,
        bytes_received: u64,
        bytes_sent: u64,
        now: u128,
    ) -> (sample: NetworkSample)
        ensures
            sample@ == derived_sample(
                unit,
                last_received as nat,
                last_sent as nat,
                last_update as nat,
                bytes_received as nat,
                bytes_sent as nat,
                now as nat,
            ),
            sample.rates_within_limit(),
    {
        let elapsed = elapsed_since(last_update, now);
        let delta_in = delta_since(last_received, bytes_received);
        let delta_out = delta_since(last_sent, bytes_sent);
        let bytes_per_second_in = rate_over(delta_in, elapsed);
        let bytes_per_second_out = rate_over(delta_out, elapsed);
        let transfer_rate_in = unit.format_rate(delta_in, elapsed);
        let transfer_rate_out = unit.format_rate(delta_out, elapsed);
        NetworkSample {
            timestamp: now,
            bytes_received,
            bytes_sent,
            bytes_per_second_in,
            bytes_per_second_out,
            transfer_rate_in,
            transfer_rate_out,
        }
    }
}

} // verus!
