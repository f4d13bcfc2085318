use net_analytics::text::{push_decimal, push_fixed2};

#[test]
fn push_decimal_writes_the_numeral() {
    for n in [0u128, 7, 10, 99, 100, 1024, 65_535, 1_000_000_007, u64::MAX as u128, u128::MAX] {
        let mut out = String::new();
        push_decimal(&mut out, n);
        assert_eq!(out, format!("{}", n));
    }
}

#[test]
fn push_decimal_appends() {
    let mut out = String::from("n=");
    push_decimal(&mut out, 42);
    assert_eq!(out, "n=42");
}

#[test]
fn push_fixed2_writes_two_places() {
    let cases: [(u128, &str); 6] =
        [(0, "0.00"), (5, "0.05"), (50, "0.50"), (100, "1.00"), (1234, "12.34"), (100_001, "1000.01")];
    for (hundredths, expected) in cases {
        let mut out = String::new();
        push_fixed2(&mut out, hundredths);
        assert_eq!(out, expected);
    }
}
