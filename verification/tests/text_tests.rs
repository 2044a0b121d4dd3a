use chatui::text::{counter_text, join_lines, status_text, u64_to_dec};

#[test]
fn decimal_rendering_matches_standard_formatting() {
    for n in [0u64, 1, 9, 10, 42, 99, 100, 999, 1000, 9999, 10000, 1234567, u64::MAX] {
        assert_eq!(u64_to_dec(n), format!("{}", n));
    }
}

#[test]
fn counters_are_right_aligned_in_four_columns() {
    assert_eq!(counter_text(0), "   0");
    assert_eq!(counter_text(7), "   7");
    assert_eq!(counter_text(42), "  42");
    assert_eq!(counter_text(999), " 999");
    assert_eq!(counter_text(1000), "1000");
    assert_eq!(counter_text(12345), "12345");
    for n in [0u64, 3, 10, 99, 100, 4000, 123456] {
        assert_eq!(counter_text(n), format!("{:4}", n));
    }
}

#[test]
fn status_line_matches_the_standard_format() {
    for (tx, rx) in [(0u64, 0u64), (1, 2), (15, 3), (1234, 56789)] {
        assert_eq!(
            status_text(tx, rx),
            format!("Messages sent: {tx:4}  Messages received: {rx:4}")
        );
    }
}

#[test]
fn joined_lines_keep_order_with_line_break_separator() {
    assert_eq!(join_lines(&vec![]), "");
    assert_eq!(join_lines(&vec!["".to_string()]), "");
    assert_eq!(join_lines(&vec!["one".to_string()]), "one");
    assert_eq!(
        join_lines(&vec!["one".to_string(), "two".to_string(), "three".to_string()]),
        "one\ntwo\nthree"
    );
    assert_eq!(
        join_lines(&vec!["".to_string(), "".to_string()]),
        "\n"
    );
}
