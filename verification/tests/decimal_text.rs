use connect4::utils::decimal::{i64_to_string, parse_i64_text};

#[test]
fn integers_are_written_in_base_ten() {
    assert_eq!(i64_to_string(0), "0");
    assert_eq!(i64_to_string(42), "42");
    assert_eq!(i64_to_string(-42), "-42");
    assert_eq!(i64_to_string(i64::MAX), i64::MAX.to_string());
    assert_eq!(i64_to_string(i64::MIN), i64::MIN.to_string());
    for n in [1i64, 9, 10, 11, 100, 1000000007, -1, -10, -999] {
        assert_eq!(i64_to_string(n), n.to_string());
    }
}

#[test]
fn integers_are_read_as_rust_reads_them() {
    let cases = [
        "0", "+12", "-12", "007", "-0", "9223372036854775807", "9223372036854775808",
        "-9223372036854775808", "-9223372036854775809", "", "+", "-", "1_0", " 1", "1 ", "++1",
        "--1", "3600", "abc", "12a",
    ];
    for s in cases {
        assert_eq!(parse_i64_text(s), i64::from_str_radix(s, 10).ok(), "reading {s:?}");
    }
}
