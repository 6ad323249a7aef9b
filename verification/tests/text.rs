use driver_update::text::{decimal, join_text};

#[test]
fn decimal_numbers() {
    for n in [0, 1, 9, 10, 11, 99, 100, 1234567890, u64::MAX] {
        assert_eq!(decimal(n), format!("{n}"));
    }
}

#[test]
fn joined_text() {
    assert_eq!(join_text("ab", "c"), "abc");
    assert_eq!(join_text("", ""), "");
}
