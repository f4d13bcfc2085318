use net_analytics::sample::HourlySample;
use net_analytics::storage::{
    from_column, from_record, history_cutoff, to_column, to_record, HourlyRecord,
};

const SECOND: u128 = 1_000_000_000;

#[test]
fn columns_hold_the_same_bits() {
    assert_eq!(to_column(0), 0);
    assert_eq!(to_column(42), 42);
    assert_eq!(to_column(i64::MAX as u64), i64::MAX);
    assert_eq!(to_column(i64::MAX as u64 + 1), i64::MIN);
    assert_eq!(to_column(u64::MAX), -1);
    for value in [0u64, 1, 1 << 62, 1 << 63, (1 << 63) + 12345, u64::MAX - 1, u64::MAX] {
        assert_eq!(to_column(value), value as i64);
        assert_eq!(from_column(to_column(value)), value);
    }
    for column in [i64::MIN, i64::MIN + 1, -12345, -1, 0, 1, i64::MAX] {
        assert_eq!(from_column(column), column as u64);
        assert_eq!(to_column(from_column(column)), column);
    }
}

#[test]
fn record_has_whole_seconds() {
    let sample = HourlySample {
        timestamp: 1_700_000_000 * SECOND + 999_999_999,
        avg_bytes_per_second_in: 200,
        avg_bytes_per_second_out: 20,
        total_bytes_received: 600,
        total_bytes_sent: u64::MAX,
    };
    let record = to_record(&sample).unwrap();
    assert_eq!(
        record,
        HourlyRecord {
            timestamp: 1_700_000_000,
            avg_bytes_per_second_in: 200,
            avg_bytes_per_second_out: 20,
            total_bytes_received: 600,
            total_bytes_sent: -1,
        }
    );
    let back = from_record(&record).unwrap();
    assert_eq!(back, HourlySample { timestamp: 1_700_000_000 * SECOND, ..sample });
}

#[test]
fn record_of_an_instant_beyond_the_column_is_refused() {
    let sample = HourlySample {
        timestamp: (i64::MAX as u128 + 1) * SECOND,
        avg_bytes_per_second_in: 0,
        avg_bytes_per_second_out: 0,
        total_bytes_received: 0,
        total_bytes_sent: 0,
    };
    assert!(to_record(&sample).is_none());
    let last = HourlySample { timestamp: (i64::MAX as u128) * SECOND + 5, ..sample };
    assert_eq!(to_record(&last).unwrap().timestamp, i64::MAX);
}

#[test]
fn record_before_the_epoch_is_refused() {
    let record = HourlyRecord {
        timestamp: -1,
        avg_bytes_per_second_in: 1,
        avg_bytes_per_second_out: 1,
        total_bytes_received: 1,
        total_bytes_sent: 1,
    };
    assert!(from_record(&record).is_none());
    let epoch = HourlyRecord { timestamp: 0, ..record };
    assert_eq!(from_record(&epoch).unwrap().timestamp, 0);
}

#[test]
fn cutoff_is_one_day_back() {
    assert_eq!(history_cutoff(1_700_000_000 * SECOND), 1_700_000_000 - 86_400);
    assert_eq!(history_cutoff(1_700_000_000 * SECOND + 999_999_999), 1_700_000_000 - 86_400);
    assert_eq!(history_cutoff(86_400 * SECOND), 0);
}

#[test]
fn cutoff_near_the_epoch_is_negative() {
    assert_eq!(history_cutoff(0), -86_400);
    assert_eq!(history_cutoff(86_399 * SECOND), -1);
}

#[test]
fn cutoff_beyond_the_column_excludes_everything() {
    assert_eq!(history_cutoff(u128::MAX), i64::MAX);
    assert_eq!(history_cutoff((i64::MAX as u128 + 86_400) * SECOND), i64::MAX);
    assert_eq!(history_cutoff((i64::MAX as u128 + 86_399) * SECOND), i64::MAX - 1);
}
