//! The timed loop, the mode dispatch and the correctness guard.

use faf_json_bench::clock::{get_epoch_nanos, Timespec};
use faf_json_bench::config::{about_line, clear_line, select_mode, Args, RunMode};
use faf_json_bench::harness::{
    bench_iteration, new_buffers, run_all, run_strategy, validate_record_output, BenchError,
};
use faf_json_bench::report::report_results;
use faf_json_bench::strategies::{all_strategies, Strategy};

const EXPECTED: &[u8] = b"{\"message\":\"Hello World!\"}";

#[test]
fn one_iteration_counts_the_record_length() {
    let mut bufs = new_buffers();
    for strategy in all_strategies() {
        let n = bench_iteration(strategy, &mut bufs).expect("iteration failed");
        assert_eq!(n, 26);
    }
}

#[test]
fn buffer_reuse_stays_correct_across_iterations() {
    let mut bufs = new_buffers();
    for _ in 0..1000 {
        assert_eq!(bench_iteration(Strategy::SerdeJsonToWriter, &mut bufs).unwrap(), 26);
        assert_eq!(bench_iteration(Strategy::NanoserdeSerJson, &mut bufs).unwrap(), 26);
        assert_eq!(bench_iteration(Strategy::SerdeJsonCoreToSlice, &mut bufs).unwrap(), 26);
        assert_eq!(bench_iteration(Strategy::SimdJsonToWriter, &mut bufs).unwrap(), 26);
        assert_eq!(bench_iteration(Strategy::SimdJsonDeriveJsonWrite, &mut bufs).unwrap(), 26);
    }
}

#[test]
fn corrupted_output_is_a_correctness_error() {
    // one-character mutation of the canonical encoding
    let corrupted: &[u8] = b"{\"message\":\"Hello Word!\"}";
    let bufs = new_buffers();
    let verdict = validate_record_output(corrupted, bufs.expected.as_slice());
    assert_eq!(verdict, Err(BenchError::CorrectnessMismatch));
    assert_eq!(validate_record_output(EXPECTED, bufs.expected.as_slice()), Ok(()));
}

#[test]
fn degenerate_zero_duration_run_completes() {
    let res = run_strategy(Strategy::SerdeJsonToVec, 0).expect("run failed");
    assert_eq!(res.strategy, Strategy::SerdeJsonToVec);
    assert_eq!(res.byte_count % 26, 0);
}

#[test]
fn one_second_run_never_stops_early() {
    let res = run_strategy(Strategy::SerdeJsonToVec, 1).expect("run failed");
    assert!(res.elapsed_nanos > 1_000_000_000);
    assert!(res.byte_count > 0);
    assert_eq!(res.byte_count % 26, 0);
}

#[test]
fn run_all_reports_one_line_per_strategy_in_order() {
    let results = run_all(0).expect("run failed");
    let strategies = all_strategies();
    assert_eq!(results.len(), strategies.len());
    assert_eq!(results.len(), 10);
    for (res, strategy) in results.iter().zip(strategies.iter()) {
        assert_eq!(res.strategy, *strategy);
    }
    let lines = report_results(&results, 0);
    assert_eq!(lines.len(), 10);
    for (line, strategy) in lines.iter().zip(strategies.iter()) {
        assert!(line.starts_with(strategy.label()));
        assert!(line.ends_with(" bytes/sec"));
        let rate: &str = line[..line.len() - " bytes/sec".len()].trim_start_matches(
            strategy.label(),
        ).trim();
        assert!(!rate.is_empty());
        assert!(rate.chars().all(|c| c.is_ascii_digit() || c == ','));
    }
}

#[test]
fn strategy_labels_match_registration_order() {
    let labels: Vec<&str> = all_strategies().into_iter().map(|s| s.label()).collect();
    assert_eq!(
        labels,
        vec![
            "serde_json to_vec",
            "serde_json to_writer",
            "serde_json_core to_vec",
            "serde_json_core to_slice",
            "nanoserde serialize_json",
            "nanoserde ser_json",
            "simd_json serde::to_vec",
            "simd_json to_writer",
            "simd_json_derive json_vec",
            "simd_json_derive to_writer",
        ]
    );
}

#[test]
fn about_mode_wins_over_clear_and_bench() {
    let both = Args { debug: false, duration: 3, about: true, clear: true };
    assert_eq!(select_mode(&both), RunMode::About);
    let clear_only = Args { debug: false, duration: 3, about: false, clear: true };
    assert_eq!(select_mode(&clear_only), RunMode::ClearStats);
    let neither = Args::default();
    assert_eq!(select_mode(&neither), RunMode::Bench);
}

#[test]
fn about_line_identifies_the_program() {
    let line = about_line();
    assert!(line.contains("faf_json_bench"));
    assert!(line.contains("v0.1.0"));
    assert_eq!(clear_line(), "Stats Cleared.");
}

#[test]
fn default_configuration_is_three_seconds() {
    let args = Args::default();
    assert!(!args.debug);
    assert_eq!(args.duration, 3);
    assert!(!args.about);
    assert!(!args.clear);
}

#[test]
fn clock_sample_has_split_fields() {
    let mut ts = Timespec { tv_sec: 0, tv_nsec: 0 };
    let nanos = get_epoch_nanos(&mut ts);
    assert!(ts.tv_sec >= 0);
    assert!(ts.tv_nsec >= 0 && ts.tv_nsec < 1_000_000_000);
    assert_eq!(nanos, ts.tv_sec as u64 * 1_000_000_000 + ts.tv_nsec as u64);
}
