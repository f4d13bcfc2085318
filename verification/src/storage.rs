//! The durable form of an hourly summary: a row of signed 64-bit columns, as
//! a relational store keeps it, with instants in whole seconds since the
//! epoch. The store itself is the caller's; here are the conversions to and
//! from a row, and the bound of the history that is read back.

use crate::rate::NANOS_PER_SECOND;
use crate::sample::HourlySample;
use vstd::prelude::*;

verus! {

/// The span of durable history that is read back, in seconds: one day.
pub const HISTORY_WINDOW_SECONDS: u64 = 86_400;

/// One stored summary. `timestamp` is in seconds since the epoch; the two
/// totals are 64-bit counters kept in signed columns, bit for bit.
#[derive(Debug, Clone, Copy, PartialEq, Eq, Structural)]
pub struct HourlyRecord {
    pub timestamp: i64,
    pub avg_bytes_per_second_in: u128,
    pub avg_bytes_per_second_out: u128,
    pub total_bytes_received: i64,
    pub total_bytes_sent: i64,
}

/// The signed column that holds the same 64 bits as the counter `value`.
pub open spec fn column_of(value: u64) -> int {
    if value <= i64::MAX {
        value as int
    } else {
        value - 0x1_0000_0000_0000_0000
    }
}

/// The counter that holds the same 64 bits as the signed column `column`.
pub open spec fn counter_of(column: i64) -> int {
    if column >= 0 {
        column as int
    } else {
        column + 0x1_0000_0000_0000_0000
    }
}

/// The row for `sample`, if its instant can be written as a signed 64-bit
/// count of seconds. The instant is rounded down to the second.
pub open spec fn record_of(sample: HourlySample) -> Option<HourlyRecord> {
    if sample.timestamp / NANOS_PER_SECOND <= i64::MAX {
        Some(
            HourlyRecord {
                timestamp: (sample.timestamp / NANOS_PER_SECOND) as i64,
                avg_bytes_per_second_in: sample.avg_bytes_per_second_in,
                avg_bytes_per_second_out: sample.avg_bytes_per_second_out,
                total_bytes_received: column_of(sample.total_bytes_received) as i64,
                total_bytes_sent: column_of(sample.total_bytes_sent) as i64,
            },
        )
    } else {
        None
    }
}

/// The summary that `record` stands for, if its instant is not before the
/// epoch.
pub open spec fn sample_of(record: HourlyRecord) -> Option<HourlySample> {
    if record.timestamp >= 0 {
        Some(
            HourlySample {
                timestamp: (record.timestamp * NANOS_PER_SECOND) as u128,
                avg_bytes_per_second_in: record.avg_bytes_per_second_in,
                avg_bytes_per_second_out: record.avg_bytes_per_second_out,
                total_bytes_received: counter_of(record.total_bytes_received) as u64,
                total_bytes_sent: counter_of(record.total_bytes_sent) as u64,
            },
        )
    } else {
        None
    }
}

/// The instant, in seconds since the epoch, after which stored summaries
/// belong to the history read back at `now`.
pub open spec fn cutoff_seconds(now: u128) -> int {
    now / NANOS_PER_SECOND - HISTORY_WINDOW_SECONDS
}

/// Whether a summary stored with the instant `stored`, in seconds since the
/// epoch, belongs to the history read back at `now`: it does when it lies
/// less than a day before `now`.
pub open spec fn in_history(stored: i64, now: u128) -> bool {
    stored > cutoff_seconds(now)
}

/// Computes [`column_of`].
pub fn to_column(value: u64) -> (column: i64)
    ensures
        column == column_of(value),
{
    if value <= 0x7FFF_FFFF_FFFF_FFFF {
        value as i64
    } else {
        ((value - 0x8000_0000_0000_0000) as i64) + i64::MIN
    }
}

/// Computes [`counter_of`].
pub fn from_column(column: i64) -> (value: u64)
    ensures
        value == counter_of(column),
{
    if column >= 0 {
        column as u64
    } else {
        ((column - i64::MIN) as u64) + 0x8000_0000_0000_0000
    }
}

/// The row in which `sample` is stored; none when its instant is beyond what
/// a signed 64-bit count of seconds can hold.
pub fn to_record(sample: &HourlySample) -> (record: Option<HourlyRecord>)
    ensures
        record == record_of(*sample),
{
    let seconds = sample.timestamp / NANOS_PER_SECOND;
    if seconds <= 0x7FFF_FFFF_FFFF_FFFF {
        Some(
            HourlyRecord {
                timestamp: seconds as i64,
                avg_bytes_per_second_in: sample.avg_bytes_per_second_in,
                avg_bytes_per_second_out: sample.avg_bytes_per_second_out,
                total_bytes_received: to_column(sample.total_bytes_received),
                total_bytes_sent: to_column(sample.total_bytes_sent),
            },
        )
    } else {
        None
    }
}

/// The summary read back from `record`; none when the row's instant lies
/// before the epoch.
pub fn from_record(record: &HourlyRecord) -> (sample: Option<HourlySample>)
    ensures
        sample == sample_of(*record),
{
    if record.timestamp >= 0 {
        Some(
            HourlySample {
                timestamp: (record.timestamp as u128) * NANOS_PER_SECOND,
                avg_bytes_per_second_in: record.avg_bytes_per_second_in,
                avg_bytes_per_second_out: record.avg_bytes_per_second_out,
                total_bytes_received: from_column(record.total_bytes_received),
                total_bytes_sent: from_column(record.total_bytes_sent),
            },
        )
    } else {
        None
    }
}

/// The bound of the history read back at `now`: a stored instant belongs to
/// the history exactly when it is greater than the bound.
pub fn history_cutoff(now: u128) -> (cutoff: i64)
    ensures
        forall|stored: i64| stored > cutoff <==> #[trigger] in_history(stored, now),
        cutoff_seconds(now) <= i64::MAX ==> cutoff == cutoff_seconds(now),
{
    let seconds = now / NANOS_PER_SECOND;
    let window = HISTORY_WINDOW_SECONDS as u128;
    if seconds >= 0x7FFF_FFFF_FFFF_FFFF + window {
        i64::MAX
    } else if seconds >= window {
        (seconds - window) as i64
    } else {
        -((window - seconds) as i64)
    }
}

/// A counter comes back from its column unchanged, and a column from its
/// counter.
pub proof fn lemma_column_roundtrip(value: u64, column: i64)
    ensures
        counter_of(column_of(value) as i64) == value,
        column_of(counter_of(column) as u64) == column,
{
}

/// A summary that is stored and read back is the same summary, with its
/// instant rounded down to the second.
pub proof fn lemma_record_roundtrip(sample: HourlySample)
    requires
        record_of(sample) is Some,
    ensures
        sample_of(record_of(sample)->0) == Some(
            HourlySample {
                timestamp: (sample.timestamp - sample.timestamp % NANOS_PER_SECOND) as u128,
                ..sample
            },
        ),
{
    let seconds = sample.timestamp / NANOS_PER_SECOND;
    assert(seconds * NANOS_PER_SECOND == sample.timestamp - sample.timestamp % NANOS_PER_SECOND);
    lemma_column_roundtrip(sample.total_bytes_received, 0);
    lemma_column_roundtrip(sample.total_bytes_sent, 0);
}

} // verus!
