use delegation_bench::codec::{latency_line, parse_u64_decimal};
use delegation_bench::driver::{
    log_open_mode, single_call_outcome, CallEvent, DriverState, IterationOutcome, LogMode,
    Workload,
};

#[test]
fn single_call_log_starts_fresh() {
    assert_eq!(log_open_mode(Workload::SingleCall), LogMode::Truncate);
}

#[test]
fn delegation_log_resumes() {
    assert_eq!(log_open_mode(Workload::Delegation), LogMode::Append);
}

#[test]
fn success_appends_and_advances() {
    let mut state = DriverState::new();
    state.record_iteration(&IterationOutcome::Success { elapsed_ms: 5 });
    assert_eq!(state.entries, vec![5]);
    assert_eq!(state.completed, 1);
}

#[test]
fn retry_leaves_log_untouched() {
    let mut state = DriverState::new();
    for _ in 0..3 {
        state.record_iteration(&IterationOutcome::RetryableFailure);
    }
    state.record_iteration(&IterationOutcome::Success { elapsed_ms: 42 });
    assert_eq!(state.entries, vec![42]);
    assert_eq!(state.completed, 1);
}

#[test]
fn fatal_leaves_log_untouched() {
    let mut state = DriverState::new();
    state.record_iteration(&IterationOutcome::Success { elapsed_ms: 7 });
    state.record_iteration(&IterationOutcome::FatalFailure);
    assert_eq!(state.entries, vec![7]);
    assert_eq!(state.completed, 1);
}

#[test]
fn no_lost_iterations() {
    let mut state = DriverState::new();
    let measured = [3u64, 1, 4, 1, 5];
    for (i, ms) in measured.iter().enumerate() {
        if i % 2 == 0 {
            state.record_iteration(&IterationOutcome::RetryableFailure);
        }
        state.record_iteration(&IterationOutcome::Success { elapsed_ms: *ms });
    }
    assert_eq!(state.completed, measured.len() as u64);
    assert_eq!(state.entries.len(), measured.len());
    for entry in &state.entries {
        let line = latency_line(*entry);
        let digits: Vec<u8> = line[..line.len() - 1].to_vec();
        assert_eq!(parse_u64_decimal(&digits), Some(*entry));
    }
}

#[test]
fn single_call_success_records_elapsed() {
    let outcome = single_call_outcome(&CallEvent::Succeeded, 123);
    assert!(matches!(outcome, IterationOutcome::Success { elapsed_ms: 123 }));
}

#[test]
fn single_call_failure_retries_same_iteration() {
    let outcome = single_call_outcome(&CallEvent::TransportFailed, 123);
    assert!(matches!(outcome, IterationOutcome::RetryableFailure));
}
