use opentelemetry_instrumentation_process::metrics::CallbackOutcome;
use opentelemetry_instrumentation_process::metrics::CpuMode;
use opentelemetry_instrumentation_process::metrics::CtxSwitchKind;
use opentelemetry_instrumentation_process::metrics::IoDirection;
use opentelemetry_instrumentation_process::metrics::cpu_mode_label;
use opentelemetry_instrumentation_process::metrics::cpu_time_callback;
use opentelemetry_instrumentation_process::metrics::ctx_switch_kind_label;
use opentelemetry_instrumentation_process::metrics::ctx_switches_callback;
use opentelemetry_instrumentation_process::metrics::disk_io_callback;
use opentelemetry_instrumentation_process::metrics::io_direction_label;
use opentelemetry_instrumentation_process::metrics::memory_usage_callback;
use opentelemetry_instrumentation_process::metrics::open_fds_callback;
use opentelemetry_instrumentation_process::metrics::thread_count_callback;
use opentelemetry_instrumentation_process::metrics::virtual_memory_callback;
use opentelemetry_instrumentation_process::snapshot::IoSnapshot;
use opentelemetry_instrumentation_process::snapshot::ReadError;
use opentelemetry_instrumentation_process::snapshot::StatSnapshot;
use opentelemetry_instrumentation_process::snapshot::StatusSnapshot;

fn sample_stat() -> StatSnapshot {
    StatSnapshot {
        utime: 100,
        stime: 50,
        rss_bytes: 4096,
        vsize: 1 << 20,
        num_threads: 3,
    }
}

#[test]
fn all_metrics_report_expected_observation_counts() {
    let stat = sample_stat();
    let io = IoSnapshot { read_bytes: 10, write_bytes: 20 };
    let status = StatusSnapshot {
        voluntary_ctxt_switches: Some(5),
        nonvoluntary_ctxt_switches: Some(7),
    };

    match cpu_time_callback(Ok(stat), 100) {
        CallbackOutcome::Report(obs) => {
            assert_eq!(obs.len(), 2);
            assert_eq!(obs[0].mode, CpuMode::User);
            assert_eq!(obs[1].mode, CpuMode::System);
        }
        CallbackOutcome::Skip(_) => panic!("cpu time skipped"),
    }
    match memory_usage_callback(Ok(stat)) {
        CallbackOutcome::Report(obs) => assert_eq!(obs, vec![4096]),
        CallbackOutcome::Skip(_) => panic!("memory usage skipped"),
    }
    match virtual_memory_callback(Ok(stat)) {
        CallbackOutcome::Report(obs) => assert_eq!(obs, vec![1 << 20]),
        CallbackOutcome::Skip(_) => panic!("virtual memory skipped"),
    }
    match disk_io_callback(Ok(io)) {
        CallbackOutcome::Report(obs) => {
            assert_eq!(obs.len(), 2);
            assert_eq!(obs[0].direction, IoDirection::Read);
            assert_eq!(obs[0].bytes, 10);
            assert_eq!(obs[1].direction, IoDirection::Write);
            assert_eq!(obs[1].bytes, 20);
        }
        CallbackOutcome::Skip(_) => panic!("disk io skipped"),
    }
    match thread_count_callback(Ok(stat)) {
        CallbackOutcome::Report(obs) => assert_eq!(obs, vec![3i64]),
        CallbackOutcome::Skip(_) => panic!("thread count skipped"),
    }
    match open_fds_callback(Ok(17usize)) {
        CallbackOutcome::Report(obs) => assert_eq!(obs, vec![17u64]),
        CallbackOutcome::Skip(_) => panic!("open fds skipped"),
    }
    match ctx_switches_callback(Ok(status)) {
        CallbackOutcome::Report(obs) => {
            assert_eq!(obs.len(), 2);
            assert_eq!(obs[0].kind, CtxSwitchKind::Voluntary);
            assert_eq!(obs[0].count, 5);
            assert_eq!(obs[1].kind, CtxSwitchKind::Involuntary);
            assert_eq!(obs[1].count, 7);
        }
        CallbackOutcome::Skip(_) => panic!("context switches skipped"),
    }
}

#[test]
fn cpu_time_conversion_reports_seconds() {
    // utime=100 ticks, stime=50 ticks, 100 ticks per second:
    // user mode is 1.0 s, system mode is 0.5 s.
    let stat = sample_stat();
    match cpu_time_callback(Ok(stat), 100) {
        CallbackOutcome::Report(obs) => {
            assert_eq!(obs[0].ticks, 100);
            assert_eq!(obs[0].ticks_per_second, 100);
            assert_eq!(obs[0].ticks as f64 / obs[0].ticks_per_second as f64, 1.0);
            assert_eq!(obs[1].ticks, 50);
            assert_eq!(obs[1].ticks_per_second, 100);
            assert_eq!(obs[1].ticks as f64 / obs[1].ticks_per_second as f64, 0.5);
        }
        CallbackOutcome::Skip(_) => panic!("cpu time skipped"),
    }
}

#[test]
fn absent_voluntary_counter_reports_only_involuntary() {
    let status = StatusSnapshot {
        voluntary_ctxt_switches: None,
        nonvoluntary_ctxt_switches: Some(42),
    };
    match ctx_switches_callback(Ok(status)) {
        CallbackOutcome::Report(obs) => {
            assert_eq!(obs.len(), 1);
            assert_eq!(obs[0].kind, CtxSwitchKind::Involuntary);
            assert_eq!(obs[0].count, 42);
        }
        CallbackOutcome::Skip(_) => panic!("context switches skipped"),
    }
}

#[test]
fn absent_involuntary_counter_reports_only_voluntary() {
    let status = StatusSnapshot {
        voluntary_ctxt_switches: Some(9),
        nonvoluntary_ctxt_switches: None,
    };
    match ctx_switches_callback(Ok(status)) {
        CallbackOutcome::Report(obs) => {
            assert_eq!(obs.len(), 1);
            assert_eq!(obs[0].kind, CtxSwitchKind::Voluntary);
            assert_eq!(obs[0].count, 9);
        }
        CallbackOutcome::Skip(_) => panic!("context switches skipped"),
    }
}

#[test]
fn both_counters_absent_reports_nothing_without_failing() {
    let status = StatusSnapshot {
        voluntary_ctxt_switches: None,
        nonvoluntary_ctxt_switches: None,
    };
    match ctx_switches_callback(Ok(status)) {
        CallbackOutcome::Report(obs) => assert!(obs.is_empty()),
        CallbackOutcome::Skip(_) => panic!("context switches skipped"),
    }
}

#[test]
fn failed_read_skips_once_then_recovers() {
    let e = ReadError { message: String::from("stat unreadable") };
    match cpu_time_callback(Err(e), 100) {
        CallbackOutcome::Report(_) => panic!("failed read must not report"),
        CallbackOutcome::Skip(why) => assert_eq!(why.message, "stat unreadable"),
    }
    // The next invocation reads fresh and reports normally.
    match cpu_time_callback(Ok(sample_stat()), 100) {
        CallbackOutcome::Report(obs) => assert_eq!(obs.len(), 2),
        CallbackOutcome::Skip(_) => panic!("recovered read must report"),
    }
}

#[test]
fn unchanged_counters_give_identical_observations() {
    let stat = sample_stat();
    let first = match cpu_time_callback(Ok(stat), 100) {
        CallbackOutcome::Report(obs) => obs,
        CallbackOutcome::Skip(_) => panic!("cpu time skipped"),
    };
    let second = match cpu_time_callback(Ok(stat), 100) {
        CallbackOutcome::Report(obs) => obs,
        CallbackOutcome::Skip(_) => panic!("cpu time skipped"),
    };
    assert_eq!(first, second);
}

#[test]
fn failure_in_one_callback_leaves_others_untouched() {
    let io_error = ReadError { message: String::from("io unreadable") };
    let disk = disk_io_callback(Err(io_error));
    let memory = memory_usage_callback(Ok(sample_stat()));
    assert!(matches!(disk, CallbackOutcome::Skip(_)));
    match memory {
        CallbackOutcome::Report(obs) => assert_eq!(obs, vec![4096]),
        CallbackOutcome::Skip(_) => panic!("memory usage skipped"),
    }
}

#[test]
fn label_values_match_documented_vocabulary() {
    assert_eq!(cpu_mode_label(CpuMode::User), "user");
    assert_eq!(cpu_mode_label(CpuMode::System), "system");
    assert_eq!(io_direction_label(IoDirection::Read), "read");
    assert_eq!(io_direction_label(IoDirection::Write), "write");
    assert_eq!(ctx_switch_kind_label(CtxSwitchKind::Voluntary), "voluntary");
    assert_eq!(ctx_switch_kind_label(CtxSwitchKind::Involuntary), "involuntary");
}

#[test]
fn fd_count_is_widened_not_truncated() {
    match open_fds_callback(Ok(usize::MAX)) {
        CallbackOutcome::Report(obs) => assert_eq!(obs, vec![usize::MAX as u64]),
        CallbackOutcome::Skip(_) => panic!("open fds skipped"),
    }
}
