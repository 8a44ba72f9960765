//! The reporter: rate computation, thousands grouping and line layout.

use faf_json_bench::report::{compute_rate, format_grouped, report_line};

#[test]
fn zero_bytes_over_three_seconds_is_rate_zero() {
    assert_eq!(compute_rate(0, 3), 0);
    let line = report_line("serde_json to_vec", 0, 3);
    assert_eq!(line, format!("{:<26} {:>13} bytes/sec", "serde_json to_vec", "0"));
}

#[test]
fn grouped_rate_over_one_second() {
    assert_eq!(compute_rate(1_234_567, 1), 1_234_567);
    assert_eq!(format_grouped(1_234_567), "1,234,567");
    let line = report_line("serde_json to_vec", 1_234_567, 1);
    assert_eq!(line, format!("{:<26} {:>13} bytes/sec", "serde_json to_vec", "1,234,567"));
}

#[test]
fn zero_duration_reports_raw_total() {
    assert_eq!(compute_rate(0, 0), 0);
    assert_eq!(compute_rate(123, 0), 123);
    assert_eq!(compute_rate(u64::MAX, 0), u64::MAX);
    let line = report_line("nanoserde ser_json", 4_000, 0);
    assert_eq!(line, format!("{:<26} {:>13} bytes/sec", "nanoserde ser_json", "4,000"));
}

#[test]
fn rate_rounds_to_nearest() {
    assert_eq!(compute_rate(11, 4), 3); // 2.75 rounds up
    assert_eq!(compute_rate(9, 4), 2); // 2.25 rounds down
    assert_eq!(compute_rate(100, 3), 33); // 33.33 rounds down
    assert_eq!(compute_rate(200, 3), 67); // 66.67 rounds up
}

#[test]
fn rate_ties_round_to_even() {
    assert_eq!(compute_rate(5, 2), 2); // 2.5 to even 2
    assert_eq!(compute_rate(7, 2), 4); // 3.5 to even 4
    assert_eq!(compute_rate(10, 4), 2); // 2.5 to even 2
    assert_eq!(compute_rate(14, 4), 4); // 3.5 to even 4
}

#[test]
fn grouping_edges() {
    assert_eq!(format_grouped(0), "0");
    assert_eq!(format_grouped(9), "9");
    assert_eq!(format_grouped(999), "999");
    assert_eq!(format_grouped(1_000), "1,000");
    assert_eq!(format_grouped(999_999), "999,999");
    assert_eq!(format_grouped(1_000_000), "1,000,000");
    assert_eq!(format_grouped(u64::MAX), "18,446,744,073,709,551,615");
}

#[test]
fn line_layout_matches_fixed_columns() {
    let line = report_line("serde_json_core to_slice", 26_000_000, 2);
    assert_eq!(line, "serde_json_core to_slice      13,000,000 bytes/sec");
    assert!(line.ends_with(" bytes/sec"));
    // label column of 26, one separator space, rate column of 13
    assert_eq!(line.len(), 26 + 1 + 13 + " bytes/sec".len());
}

#[test]
fn long_rate_widens_column_without_truncation() {
    let line = report_line("serde_json to_vec", u64::MAX, 0);
    assert_eq!(line, format!("{:<26} {:>13} bytes/sec", "serde_json to_vec", "18,446,744,073,709,551,615"));
}
