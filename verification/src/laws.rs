//! What holds of the analytics over whole histories of readings and repeated
//! requests for a summary, stated over the model and proved.

use crate::analytics::{
    hour_of, hours_increase, total_rate_in, total_rate_out, AnalyticsModel, Reading,
};
use crate::rate::{
    bytes_per_second, lemma_rate_within_limit, rate_between, NANOS_PER_SECOND, RATE_LIMIT,
};
use crate::sample::SampleView;
use crate::text::{decimal, fixed2};
use crate::units::{lemma_round_half_even_scaled, lemma_times_unit, rate_text, DataSize};
use crate::window::{keep_last, lemma_keep_last_of_concat, lemma_keep_last_push};
use vstd::arithmetic::div_mod::lemma_fundamental_div_mod_converse;
use vstd::prelude::*;

verus! {

impl AnalyticsModel {
    /// The state after all of `readings`, taken in order.
    pub open spec fn updated_all(self, readings: Seq<Reading>) -> Self
        decreases readings.len(),
    {
        if readings.len() == 0 {
            self
        } else {
            self.updated_all(readings.drop_last()).updated(readings.last())
        }
    }

    /// The samples that `readings`, taken in order, give one after another.
    pub open spec fn samples_of(self, readings: Seq<Reading>) -> Seq<SampleView>
        decreases readings.len(),
    {
        if readings.len() == 0 {
            Seq::empty()
        } else {
            self.samples_of(readings.drop_last()).push(
                self.updated_all(readings.drop_last()).next_sample(readings.last()),
            )
        }
    }
}

/// A reading keeps a well-formed state well-formed, and leaves the
/// capacities, the unit, the name and the summaries as they were.
pub proof fn lemma_update_preserves_well_formed(state: AnalyticsModel, reading: Reading)
    requires
        state.well_formed(),
    ensures
        state.updated(reading).well_formed(),
        state.updated(reading).max_samples == state.max_samples,
        state.updated(reading).max_hourly_samples == state.max_hourly_samples,
        state.updated(reading).hourly_samples == state.hourly_samples,
        state.updated(reading).data_size == state.data_size,
        state.updated(reading).interface_name == state.interface_name,
{
    lemma_rate_within_limit(
        state.last_bytes_received,
        reading.bytes_received as nat,
        state.last_update,
        reading.at as nat,
    );
    lemma_rate_within_limit(
        state.last_bytes_sent,
        reading.bytes_sent as nat,
        state.last_update,
        reading.at as nat,
    );
}

/// The recent window is the bounded tail of the history: after any readings
/// it holds the last `max_samples` of what it held before followed by the
/// samples of those readings, in arrival order, and never more than
/// `max_samples`.
pub proof fn lemma_recent_window_is_tail_of_history(
    state: AnalyticsModel,
    readings: Seq<Reading>,
)
    requires
        state.well_formed(),
    ensures
        state.updated_all(readings).well_formed(),
        state.updated_all(readings).max_samples == state.max_samples,
        state.samples_of(readings).len() == readings.len(),
        state.updated_all(readings).recent_samples == keep_last(
            state.recent_samples + state.samples_of(readings),
            state.max_samples,
        ),
        state.updated_all(readings).recent_samples.len() <= state.max_samples,
    decreases readings.len(),
{
    if readings.len() == 0 {
        assert(state.recent_samples + state.samples_of(readings) =~= state.recent_samples);
    } else {
        let earlier = readings.drop_last();
        let before = state.updated_all(earlier);
        let sample = before.next_sample(readings.last());
        lemma_recent_window_is_tail_of_history(state, earlier);
        lemma_update_preserves_well_formed(before, readings.last());
        lemma_keep_last_push(
            state.recent_samples + state.samples_of(earlier),
            sample,
            state.max_samples,
        );
        assert((state.recent_samples + state.samples_of(earlier)).push(sample)
            =~= state.recent_samples + state.samples_of(readings));
    }
}

/// Once more readings have arrived than the window can hold, the window
/// holds exactly the samples of the most recent `max_samples` readings, in
/// arrival order.
pub proof fn lemma_recent_window_after_overflow(state: AnalyticsModel, readings: Seq<Reading>)
    requires
        state.well_formed(),
        readings.len() > state.max_samples,
    ensures
        state.updated_all(readings).recent_samples.len() == state.max_samples,
        state.updated_all(readings).recent_samples == state.samples_of(readings).subrange(
            readings.len() - state.max_samples,
            readings.len() as int,
        ),
{
    lemma_recent_window_is_tail_of_history(state, readings);
    lemma_keep_last_of_concat(
        state.recent_samples,
        state.samples_of(readings),
        state.max_samples,
    );
}

/// No sample is earlier than one before it.
pub open spec fn instants_ascend(samples: Seq<SampleView>) -> bool {
    forall|i: int, j: int|
        0 <= i <= j < samples.len() ==> (#[trigger] samples[i]).timestamp <= (
        #[trigger] samples[j]).timestamp
}

/// No reading is taken earlier than one before it.
pub open spec fn readings_ascend(readings: Seq<Reading>) -> bool {
    forall|i: int, j: int|
        0 <= i <= j < readings.len() ==> (#[trigger] readings[i]).at <= (#[trigger] readings[j]).at
}

/// Each sample carries the instant and the counters of its reading.
pub proof fn lemma_samples_follow_readings(state: AnalyticsModel, readings: Seq<Reading>)
    ensures
        state.samples_of(readings).len() == readings.len(),
        forall|k: int|
            0 <= k < readings.len() ==> {
                &&& (#[trigger] state.samples_of(readings)[k]).timestamp == readings[k].at
                &&& state.samples_of(readings)[k].bytes_received == readings[k].bytes_received
                &&& state.samples_of(readings)[k].bytes_sent == readings[k].bytes_sent
            },
    decreases readings.len(),
{
    if readings.len() > 0 {
        lemma_samples_follow_readings(state, readings.drop_last());
    }
}

/// While the clock does not step back, the recent window is ordered by
/// time: if the window is, and no reading is earlier than a sample in the
/// window or than a reading before it, the window after the readings is
/// ordered too.
pub proof fn lemma_recent_window_is_time_ordered(state: AnalyticsModel, readings: Seq<Reading>)
    requires
        state.well_formed(),
        instants_ascend(state.recent_samples),
        readings_ascend(readings),
        forall|i: int, k: int|
            0 <= i < state.recent_samples.len() && 0 <= k < readings.len() ==> (
            #[trigger] state.recent_samples[i]).timestamp <= (#[trigger] readings[k]).at,
    ensures
        instants_ascend(state.updated_all(readings).recent_samples),
{
    lemma_recent_window_is_tail_of_history(state, readings);
    lemma_samples_follow_readings(state, readings);
    let samples = state.samples_of(readings);
    let history = state.recent_samples + samples;
    assert forall|i: int, j: int| 0 <= i <= j < history.len() implies (
    #[trigger] history[i]).timestamp <= (#[trigger] history[j]).timestamp by {
        let kept = state.recent_samples.len() as int;
        if j < kept {
            assert(history[i] == state.recent_samples[i]);
            assert(history[j] == state.recent_samples[j]);
        } else if i < kept {
            assert(history[i] == state.recent_samples[i]);
            assert(history[j] == samples[j - kept]);
            assert(samples[j - kept].timestamp == readings[j - kept].at);
        } else {
            assert(history[i] == samples[i - kept]);
            assert(history[j] == samples[j - kept]);
            assert(samples[i - kept].timestamp == readings[i - kept].at);
            assert(samples[j - kept].timestamp == readings[j - kept].at);
        }
    }
    assert(instants_ascend(history));
    let window = keep_last(history, state.max_samples);
    assert forall|i: int, j: int| 0 <= i <= j < window.len() implies (
    #[trigger] window[i]).timestamp <= (#[trigger] window[j]).timestamp by {
        if history.len() > state.max_samples {
            let skipped = history.len() - state.max_samples;
            assert(window[i] == history[i + skipped]);
            assert(window[j] == history[j + skipped]);
        }
    }
}

/// Over exactly one second the rate is the number of bytes counted, and a
/// counter that restarted counts from zero: after a reading of `last`, a
/// lower reading of `current` one second later gives a rate of `current`.
pub proof fn lemma_rate_over_one_second(last: nat, current: nat, last_update: nat)
    ensures
        bytes_per_second(current, NANOS_PER_SECOND as nat) == current,
        current >= last ==> rate_between(
            last,
            current,
            last_update,
            last_update + NANOS_PER_SECOND as nat,
        ) == current - last,
        current < last ==> rate_between(
            last,
            current,
            last_update,
            last_update + NANOS_PER_SECOND as nat,
        ) == current,
        rate_between(last, current, last_update, last_update) == if current >= last {
            current - last
        } else {
            current as int
        },
{
    assert forall|n: nat| #[trigger] bytes_per_second(n, NANOS_PER_SECOND as nat) == n by {
        assert((n * 1_000_000_000) / 1_000_000_000 == n);
    }
}

/// Over exactly one second the rate shown is the byte count itself,
/// expressed in the unit.
pub proof fn lemma_rate_shown_over_one_second(unit: DataSize, bytes: nat)
    ensures
        unit.rate_hundredths(bytes, NANOS_PER_SECOND as nat) == unit.hundredths_of(bytes),
{
    let size = unit.bytes_per_unit();
    lemma_times_unit(unit, 1);
    lemma_round_half_even_scaled(bytes as int * 100, size, 1_000_000_000);
    assert(bytes * 1_000_000_000 * 100 == (bytes * 100) * 1_000_000_000);
    assert(1_000_000_000 * size == size * 1_000_000_000);
}

/// A whole number of units is shown exactly: `units` times the size of the
/// unit converts to `units` with nothing over, and such a count over one
/// second reads as `units` followed by `.00`.
pub proof fn lemma_whole_units_are_exact(unit: DataSize, units: nat)
    ensures
        (units * unit.bytes_per_unit()) / unit.bytes_per_unit() == units,
        (units * unit.bytes_per_unit()) % unit.bytes_per_unit() == 0,
        unit.hundredths_of((units * unit.bytes_per_unit()) as nat) == units * 100,
        unit.rate_hundredths((units * unit.bytes_per_unit()) as nat, NANOS_PER_SECOND as nat)
            == units * 100,
        rate_text(unit, (units * unit.bytes_per_unit()) as nat, NANOS_PER_SECOND as nat)
            == decimal(units) + seq!['.', '0', '0', ' '] + unit.suffix_text() + seq!['/', 's'],
{
    let size = unit.bytes_per_unit();
    lemma_times_unit(unit, units as int);
    lemma_times_unit(unit, 1);
    let bytes = (units * size) as nat;
    lemma_fundamental_div_mod_converse(units * size, size, units as int, 0);
    assert(bytes * 100 == (units * 100) * size + 0) by (nonlinear_arith)
        requires
            bytes == units * size,
    ;
    lemma_fundamental_div_mod_converse(bytes as int * 100, size, units as int * 100, 0);
    assert(unit.hundredths_of(bytes) == units * 100);
    lemma_rate_shown_over_one_second(unit, bytes);
    let hundredths = unit.rate_hundredths(bytes, NANOS_PER_SECOND as nat);
    assert(hundredths == units * 100);
    assert(hundredths / 100 == units);
    assert(hundredths % 100 == 0);
    assert(fixed2(hundredths) =~= decimal(units) + seq!['.', '0', '0']);
    assert(rate_text(unit, bytes, NANOS_PER_SECOND as nat) =~= decimal(units) + seq![
        '.',
        '0',
        '0',
        ' ',
    ] + unit.suffix_text() + seq!['/', 's']);
}

/// The sample of a reading is determined by the reading, the reading before
/// it and the unit: two states that agree on these give the same sample,
/// rates and texts alike.
pub proof fn lemma_update_is_deterministic(
    first: AnalyticsModel,
    second: AnalyticsModel,
    reading: Reading,
)
    requires
        first.last_bytes_received == second.last_bytes_received,
        first.last_bytes_sent == second.last_bytes_sent,
        first.last_update == second.last_update,
        first.data_size == second.data_size,
    ensures
        first.updated(reading).current_sample == second.updated(reading).current_sample,
{
}

/// Two states that began at the same instant with the same unit give the
/// same sample for the same first reading, whatever the interface is called.
pub proof fn lemma_fresh_states_agree(
    first_name: Seq<char>,
    second_name: Seq<char>,
    data_size: DataSize,
    start: u128,
    reading: Reading,
)
    ensures
        AnalyticsModel::started(first_name, data_size, start).updated(reading).current_sample
            == AnalyticsModel::started(second_name, data_size, start).updated(
            reading,
        ).current_sample,
{
}

/// The sum of rates that are each within [`RATE_LIMIT`] is within that
/// limit times their number.
pub proof fn lemma_totals_within_limit(samples: Seq<SampleView>)
    requires
        forall|i: int|
            0 <= i < samples.len() ==> {
                &&& (#[trigger] samples[i]).bytes_per_second_in <= RATE_LIMIT
                &&& samples[i].bytes_per_second_out <= RATE_LIMIT
            },
    ensures
        total_rate_in(samples) <= samples.len() * RATE_LIMIT,
        total_rate_out(samples) <= samples.len() * RATE_LIMIT,
    decreases samples.len(),
{
    if samples.len() > 0 {
        let earlier = samples.drop_last();
        assert forall|i: int| 0 <= i < earlier.len() implies {
            &&& (#[trigger] earlier[i]).bytes_per_second_in <= RATE_LIMIT
            &&& earlier[i].bytes_per_second_out <= RATE_LIMIT
        } by {
            assert(earlier[i] == samples[i]);
        }
        lemma_totals_within_limit(earlier);
    }
}

/// The summary of a well-formed state with recent samples holds what it is
/// meant to: the instant asked for, the means of the recent rates rounded
/// down, and the counters of the current sample. None of them is cut to fit
/// its field.
pub proof fn lemma_summary_is_the_mean(state: AnalyticsModel, now: u128)
    requires
        state.well_formed(),
        state.recent_samples.len() > 0,
    ensures
        state.summary(now).timestamp == now,
        state.summary(now).avg_bytes_per_second_in == total_rate_in(state.recent_samples)
            / state.recent_samples.len(),
        state.summary(now).avg_bytes_per_second_out == total_rate_out(state.recent_samples)
            / state.recent_samples.len(),
        state.summary(now).avg_bytes_per_second_in <= RATE_LIMIT,
        state.summary(now).avg_bytes_per_second_out <= RATE_LIMIT,
        state.summary(now).total_bytes_received == state.current_sample.bytes_received,
        state.summary(now).total_bytes_sent == state.current_sample.bytes_sent,
{
    let count = state.recent_samples.len() as int;
    let total_in = total_rate_in(state.recent_samples) as int;
    let total_out = total_rate_out(state.recent_samples) as int;
    lemma_totals_within_limit(state.recent_samples);
    lemma_mean_within_limit(total_in, count, RATE_LIMIT as int);
    lemma_mean_within_limit(total_out, count, RATE_LIMIT as int);
}

/// The mean of `count` numbers whose sum is at most `count` times `limit`
/// is at most `limit`.
pub proof fn lemma_mean_within_limit(total: int, count: int, limit: int)
    requires
        0 <= total <= count * limit,
        0 < count,
    ensures
        0 <= total / count <= limit,
{
    assert(0 <= total / count <= limit) by (nonlinear_arith)
        requires
            0 <= total <= count * limit,
            0 < count,
    ;
}

/// Asking for a summary keeps a well-formed state well-formed and touches
/// nothing but the hourly window.
pub proof fn lemma_aggregate_preserves_well_formed(state: AnalyticsModel, now: u128)
    requires
        state.well_formed(),
    ensures
        state.aggregated(now).well_formed(),
        state.aggregated(now).recent_samples == state.recent_samples,
        state.aggregated(now).current_sample == state.current_sample,
        state.summary_due(now) ==> state.aggregated(now).hourly_samples.last() == state.summary(
            now,
        ),
{
    if state.summary_due(now) {
        let grown = state.hourly_samples.push(state.summary(now));
        assert(hours_increase(grown)) by {
            assert forall|i: int, j: int| 0 <= i < j < grown.len() implies hour_of(
                #[trigger] grown[i].timestamp as nat,
            ) < hour_of(#[trigger] grown[j].timestamp as nat) by {
                if j == grown.len() - 1 && state.hourly_samples.len() > 0 {
                    let newest = state.hourly_samples.len() - 1;
                    if i < newest {
                        assert(hour_of(state.hourly_samples[i].timestamp as nat) < hour_of(
                            state.hourly_samples[newest].timestamp as nat,
                        ));
                    }
                }
            }
        }
    }
}

/// A summary is made at most once per hour: after a summary was asked for
/// at `first`, asking again at any instant `again` that lies in the same
/// hour, or in an earlier one, changes nothing and yields no summary. This
/// holds whether or not readings arrived in between.
pub proof fn lemma_aggregate_is_idempotent(
    state: AnalyticsModel,
    first: u128,
    between: Seq<Reading>,
    again: u128,
)
    requires
        state.well_formed(),
        state.summary_due(first),
        hour_of(again as nat) <= hour_of(first as nat),
    ensures
        !state.aggregated(first).updated_all(between).summary_due(again),
        state.aggregated(first).updated_all(between).aggregated(again) == state.aggregated(
            first,
        ).updated_all(between),
        state.aggregated(first).updated_all(between).hourly_samples == state.aggregated(
            first,
        ).hourly_samples,
{
    lemma_aggregate_preserves_well_formed(state, first);
    lemma_updates_keep_summaries(state.aggregated(first), between);
}

/// A summary that is not due stays undue however often it is asked for: the
/// request changes nothing.
pub proof fn lemma_undue_aggregate_changes_nothing(state: AnalyticsModel, now: u128)
    requires
        !state.summary_due(now),
    ensures
        state.aggregated(now) == state,
        !state.aggregated(now).summary_due(now),
{
}

/// Readings never touch the summaries.
pub proof fn lemma_updates_keep_summaries(state: AnalyticsModel, readings: Seq<Reading>)
    requires
        state.well_formed(),
    ensures
        state.updated_all(readings).well_formed(),
        state.updated_all(readings).hourly_samples == state.hourly_samples,
    decreases readings.len(),
{
    if readings.len() > 0 {
        lemma_updates_keep_summaries(state, readings.drop_last());
        lemma_update_preserves_well_formed(
            state.updated_all(readings.drop_last()),
            readings.last(),
        );
    }
}

} // verus!
