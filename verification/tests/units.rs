use net_analytics::units::{DataSize, UnitQuantity};

const SECOND: u128 = 1_000_000_000;

fn std_text(bytes: u64, divisor: f64, suffix: &str) -> String {
    format!("{:.2} {}/s", bytes as f64 / divisor, suffix)
}

#[test]
fn convert_one_kilobyte_is_one() {
    let q = DataSize::Kilobyte.convert(1024);
    assert_eq!(q, UnitQuantity { unit: DataSize::Kilobyte, whole: 1, remainder: 0 });
}

#[test]
fn convert_one_megabyte_is_one() {
    let q = DataSize::Megabyte.convert(1_048_576);
    assert_eq!(q, UnitQuantity { unit: DataSize::Megabyte, whole: 1, remainder: 0 });
}

#[test]
fn convert_one_gigabyte_is_one() {
    let q = DataSize::Gigabyte.convert(1_073_741_824);
    assert_eq!(q, UnitQuantity { unit: DataSize::Gigabyte, whole: 1, remainder: 0 });
}

#[test]
fn convert_bytes_is_identity() {
    let q = DataSize::Byte.convert(987_654_321);
    assert_eq!(q.whole, 987_654_321);
    assert_eq!(q.remainder, 0);
}

#[test]
fn convert_keeps_the_remainder() {
    let q = DataSize::Kilobyte.convert(1536);
    assert_eq!(q.whole, 1);
    assert_eq!(q.remainder, 512);
    let q = DataSize::Megabyte.convert(3 * 1_048_576 + 7);
    assert_eq!(q.whole, 3);
    assert_eq!(q.remainder, 7);
    let q = DataSize::Gigabyte.convert(u64::MAX);
    assert_eq!(q.whole, 17_179_869_183);
    assert_eq!(q.remainder, 1_073_741_823);
}

#[test]
fn convert_matches_float_division() {
    for bytes in [0u64, 1, 1023, 1024, 1025, 4096, 1_000_000, 123_456_789] {
        let q = DataSize::Kilobyte.convert(bytes);
        let exact = q.whole as f64 + q.remainder as f64 / 1024.0;
        assert_eq!(exact, bytes as f64 / 1024.0);
    }
}

#[test]
fn unit_bytes_are_powers_of_1024() {
    assert_eq!(DataSize::Byte.unit_bytes(), 1);
    assert_eq!(DataSize::Kilobyte.unit_bytes(), 1024);
    assert_eq!(DataSize::Megabyte.unit_bytes(), 1024 * 1024);
    assert_eq!(DataSize::Gigabyte.unit_bytes(), 1024 * 1024 * 1024);
}

#[test]
fn size_suffixes() {
    assert_eq!(DataSize::Byte.get_size_suffix(), "B");
    assert_eq!(DataSize::Kilobyte.get_size_suffix(), "KB");
    assert_eq!(DataSize::Megabyte.get_size_suffix(), "MB");
    assert_eq!(DataSize::Gigabyte.get_size_suffix(), "GB");
}

#[test]
fn hundredths_round_to_nearest() {
    // 1536 bytes are 1.50 KB
    assert_eq!(DataSize::Kilobyte.convert(1536).hundredths(), 150);
    // 1 byte is 0.0009765625 KB
    assert_eq!(DataSize::Kilobyte.convert(1).hundredths(), 0);
    // 6 bytes are 0.005859375 KB
    assert_eq!(DataSize::Kilobyte.convert(6).hundredths(), 1);
    // 1023 bytes are 0.9990234375 KB
    assert_eq!(DataSize::Kilobyte.convert(1023).hundredths(), 100);
    assert_eq!(DataSize::Byte.convert(u64::MAX).hundredths(), u64::MAX as u128 * 100);
}

#[test]
fn hundredths_of_a_quantity_with_an_overfull_remainder() {
    // 1 KB and 1536 bytes are 2.50 KB
    let q = UnitQuantity { unit: DataSize::Kilobyte, whole: 1, remainder: 1536 };
    assert_eq!(q.hundredths(), 250);
}

#[test]
fn hundredths_ties_go_to_even() {
    // 128 bytes are exactly 0.125 KB
    assert_eq!(DataSize::Kilobyte.convert(128).hundredths(), 12);
    // 384 bytes are exactly 0.375 KB
    assert_eq!(DataSize::Kilobyte.convert(384).hundredths(), 38);
    // 640 bytes are exactly 0.625 KB
    assert_eq!(DataSize::Kilobyte.convert(640).hundredths(), 62);
    // 1152 bytes are exactly 1.125 KB
    assert_eq!(DataSize::Kilobyte.convert(1152).hundredths(), 112);
}

#[test]
fn format_rate_examples() {
    assert_eq!(DataSize::Kilobyte.format_rate(1024, SECOND), "1.00 KB/s");
    assert_eq!(DataSize::Kilobyte.format_rate(512, SECOND), "0.50 KB/s");
    assert_eq!(DataSize::Kilobyte.format_rate(0, SECOND), "0.00 KB/s");
    assert_eq!(DataSize::Byte.format_rate(1024, SECOND), "1024.00 B/s");
    assert_eq!(DataSize::Megabyte.format_rate(1_048_576, SECOND), "1.00 MB/s");
    assert_eq!(DataSize::Megabyte.format_rate(1_572_864, SECOND), "1.50 MB/s");
    assert_eq!(DataSize::Gigabyte.format_rate(1_073_741_824, SECOND), "1.00 GB/s");
    assert_eq!(DataSize::Kilobyte.format_rate(10 * 1024 + 51, SECOND), "10.05 KB/s");
    assert_eq!(DataSize::Kilobyte.format_rate(123_456_789, SECOND), "120563.27 KB/s");
}

#[test]
fn format_rate_agrees_with_float_formatting() {
    let samples: [u64; 24] = [
        0, 1, 5, 6, 10, 128, 384, 511, 512, 513, 640, 1023, 1024, 1025, 1152, 1536, 2047, 4096,
        65_535, 1_000_000, 123_456_789, 1_073_741_823, 1_073_741_824, 9_007_199_254_740_991,
    ];
    for bytes in samples {
        assert_eq!(DataSize::Byte.format_rate(bytes, SECOND), std_text(bytes, 1.0, "B"));
        assert_eq!(DataSize::Kilobyte.format_rate(bytes, SECOND), std_text(bytes, 1024.0, "KB"));
        assert_eq!(DataSize::Megabyte.format_rate(bytes, SECOND), std_text(bytes, 1024.0 * 1024.0, "MB"));
        assert_eq!(
            DataSize::Gigabyte.format_rate(bytes, SECOND),
            std_text(bytes, 1024.0 * 1024.0 * 1024.0, "GB")
        );
    }
}

#[test]
fn format_rate_agrees_with_float_formatting_on_a_sweep() {
    let mut bytes: u64 = 0;
    while bytes < 300_000 {
        assert_eq!(DataSize::Kilobyte.format_rate(bytes, SECOND), std_text(bytes, 1024.0, "KB"));
        bytes += 7;
    }
    let mut bytes: u64 = 0;
    while bytes < 3_000_000_000 {
        assert_eq!(DataSize::Megabyte.format_rate(bytes, SECOND), std_text(bytes, 1024.0 * 1024.0, "MB"));
        bytes += 1_234_567;
    }
}

#[test]
fn format_rate_keeps_the_fraction_of_the_rate() {
    // 1000 bytes in 3 s are 333.333... bytes per second
    assert_eq!(DataSize::Byte.format_rate(1000, 3 * SECOND), "333.33 B/s");
    // 2000 bytes in 3 s are 666.666... bytes per second
    assert_eq!(DataSize::Byte.format_rate(2000, 3 * SECOND), "666.67 B/s");
    assert_eq!(DataSize::Byte.format_rate(0, 3 * SECOND), "0.00 B/s");
    // 1 byte in 3 s
    assert_eq!(DataSize::Byte.format_rate(1, 3 * SECOND), "0.33 B/s");
    // 1000 bytes in 3 s are 0.32552... KB per second
    assert_eq!(DataSize::Kilobyte.format_rate(1000, 3 * SECOND), "0.33 KB/s");
    // 10 MB in 4 s
    assert_eq!(DataSize::Megabyte.format_rate(10 * 1_048_576, 4 * SECOND), "2.50 MB/s");
    // 1 GB in half a second
    assert_eq!(DataSize::Gigabyte.format_rate(1_073_741_824, SECOND / 2), "2.00 GB/s");
    // 7 bytes in 1 ns
    assert_eq!(DataSize::Byte.format_rate(7, 1), "7000000000.00 B/s");
}

#[test]
fn format_rate_rounds_once() {
    // 999 bytes in 1000 s are 0.999 B/s: the whole rate is 0, the text is not
    assert_eq!(DataSize::Byte.format_rate(999, 1000 * SECOND), "1.00 B/s");
    // 1994 bytes in 1000 s are 1.994 B/s
    assert_eq!(DataSize::Byte.format_rate(1994, 1000 * SECOND), "1.99 B/s");
    // 1995 bytes in 1000 s are 1.995 B/s, halfway: to the even neighbour
    assert_eq!(DataSize::Byte.format_rate(1995, 1000 * SECOND), "2.00 B/s");
    assert_eq!(DataSize::Byte.format_rate(1985, 1000 * SECOND), "1.98 B/s");
}

#[test]
fn rate_in_hundredths_ties_go_to_even() {
    // 1 byte in 8 s is exactly 0.125 B/s
    assert_eq!(DataSize::Byte.rate_in_hundredths(1, 8 * SECOND), 12);
    // 3 bytes in 8 s are exactly 0.375 B/s
    assert_eq!(DataSize::Byte.rate_in_hundredths(3, 8 * SECOND), 38);
    // 128 bytes in 1 s are exactly 0.125 KB/s
    assert_eq!(DataSize::Kilobyte.rate_in_hundredths(128, SECOND), 12);
    // 384 bytes in 1 s are exactly 0.375 KB/s
    assert_eq!(DataSize::Kilobyte.rate_in_hundredths(384, SECOND), 38);
}

#[test]
fn rate_in_hundredths_over_one_second_is_the_quantity() {
    for bytes in [0u64, 1, 6, 128, 1023, 1024, 1536, 123_456_789, u64::MAX] {
        for unit in [DataSize::Byte, DataSize::Kilobyte, DataSize::Megabyte, DataSize::Gigabyte] {
            assert_eq!(unit.rate_in_hundredths(bytes, SECOND), unit.convert(bytes).hundredths());
        }
    }
}

#[test]
fn rate_in_hundredths_over_a_very_long_time_is_zero() {
    assert_eq!(DataSize::Gigabyte.rate_in_hundredths(u64::MAX, u128::MAX), 0);
    assert_eq!(DataSize::Kilobyte.rate_in_hundredths(u64::MAX, u128::MAX / 1024 + 1), 0);
    assert_eq!(DataSize::Kilobyte.rate_in_hundredths(u64::MAX, u128::MAX / 1024), 0);
    assert_eq!(DataSize::Byte.rate_in_hundredths(u64::MAX, u128::MAX), 0);
    assert_eq!(DataSize::Gigabyte.format_rate(u64::MAX, u128::MAX), "0.00 GB/s");
}

#[test]
fn rate_in_hundredths_of_the_largest_rate() {
    // the full counter range within one nanosecond
    assert_eq!(
        DataSize::Byte.rate_in_hundredths(u64::MAX, 1),
        u64::MAX as u128 * 100_000_000_000
    );
    assert_eq!(
        DataSize::Byte.format_rate(u64::MAX, 1),
        "18446744073709551615000000000.00 B/s"
    );
}
