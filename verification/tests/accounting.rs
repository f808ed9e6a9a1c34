use sloggers::syslog::accounting::{to_decimal, AccountingRecord};

#[test]
fn decimal_of_single_digits() {
    let digits = ["0", "1", "2", "3", "4", "5", "6", "7", "8", "9"];
    for (n, digit) in digits.iter().enumerate() {
        assert_eq!(to_decimal(n), *digit);
    }
}

#[test]
fn decimal_of_longer_numbers() {
    assert_eq!(to_decimal(10), "10");
    assert_eq!(to_decimal(11), "11");
    assert_eq!(to_decimal(99), "99");
    assert_eq!(to_decimal(100), "100");
    assert_eq!(to_decimal(4096), "4096");
    assert_eq!(to_decimal(1_000_000), "1000000");
    assert_eq!(to_decimal(1_234_567_890), "1234567890");
}

#[test]
fn decimal_agrees_with_the_standard_library() {
    let mut n: usize = 1;
    for _ in 0..200 {
        assert_eq!(to_decimal(n), n.to_string());
        n = n.wrapping_mul(31).wrapping_add(7);
    }
    assert_eq!(to_decimal(usize::MAX), usize::MAX.to_string());
}

#[test]
fn accounting_record_names_the_count() {
    let record = AccountingRecord::new(5);
    assert_eq!(record.count, 5);
    assert_eq!(record.message, "disconnected from log service; 5 messages dropped");
    assert_eq!(record.tag, "sloggers::syslog");
    assert_eq!(record.level, slog::Level::Error);
}

#[test]
fn accounting_record_for_many_dropped_records() {
    let record = AccountingRecord::new(120_034);
    assert_eq!(record.count, 120_034);
    assert_eq!(record.message, "disconnected from log service; 120034 messages dropped");
    assert_eq!(AccountingRecord::COUNT_KEY, "count");
}
