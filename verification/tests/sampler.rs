use opentelemetry_instrumentation_process::InitError;
use opentelemetry_instrumentation_process::init;
use opentelemetry_instrumentation_process::init_outcome;
use opentelemetry_instrumentation_process::metrics::CallbackOutcome;
use opentelemetry_instrumentation_process::metrics::CpuMode;
use opentelemetry_instrumentation_process::metrics::IoDirection;
use opentelemetry_instrumentation_process::snapshot::ReadError;

#[test]
fn failed_resolution_wraps_the_cause_and_builds_no_sampler() {
    let cause = ReadError { message: String::from("proc unavailable") };
    match init_outcome(Err(cause)) {
        Ok(_) => panic!("a failed resolution must not build a sampler"),
        Err(e) => assert_eq!(e.cause.message, "proc unavailable"),
    }
}

#[test]
fn init_error_message_is_fixed() {
    let e = InitError { cause: ReadError { message: String::from("why") } };
    assert_eq!(e.message(), "Could not initialise process metrics");
    assert_eq!(e.cause.message, "why");
}

#[test]
fn live_process_samples_every_metric() {
    // The test process itself is live and readable, so resolution succeeds
    // and every accounting view reports.
    let sampler = init().expect("the current process must resolve");

    match sampler.sample_cpu_time() {
        CallbackOutcome::Report(obs) => {
            assert_eq!(obs.len(), 2);
            assert_eq!(obs[0].mode, CpuMode::User);
            assert_eq!(obs[1].mode, CpuMode::System);
            assert!(obs[0].ticks_per_second > 0);
            assert_eq!(obs[0].ticks_per_second, obs[1].ticks_per_second);
        }
        CallbackOutcome::Skip(why) => panic!("cpu time skipped: {}", why.message),
    }
    match sampler.sample_memory_usage() {
        CallbackOutcome::Report(obs) => {
            assert_eq!(obs.len(), 1);
            assert!(obs[0] > 0);
        }
        CallbackOutcome::Skip(why) => panic!("memory usage skipped: {}", why.message),
    }
    match sampler.sample_virtual_memory() {
        CallbackOutcome::Report(obs) => {
            assert_eq!(obs.len(), 1);
            assert!(obs[0] > 0);
        }
        CallbackOutcome::Skip(why) => panic!("virtual memory skipped: {}", why.message),
    }
    match sampler.sample_disk_io() {
        CallbackOutcome::Report(obs) => {
            assert_eq!(obs.len(), 2);
            assert_eq!(obs[0].direction, IoDirection::Read);
            assert_eq!(obs[1].direction, IoDirection::Write);
        }
        CallbackOutcome::Skip(why) => panic!("disk io skipped: {}", why.message),
    }
    match sampler.sample_thread_count() {
        CallbackOutcome::Report(obs) => {
            assert_eq!(obs.len(), 1);
            assert!(obs[0] >= 1);
        }
        CallbackOutcome::Skip(why) => panic!("thread count skipped: {}", why.message),
    }
    match sampler.sample_open_fds() {
        CallbackOutcome::Report(obs) => {
            assert_eq!(obs.len(), 1);
            assert!(obs[0] > 0);
        }
        CallbackOutcome::Skip(why) => panic!("open fds skipped: {}", why.message),
    }
    match sampler.sample_ctx_switches() {
        CallbackOutcome::Report(obs) => assert!(obs.len() <= 2),
        CallbackOutcome::Skip(why) => panic!("context switches skipped: {}", why.message),
    }
}
