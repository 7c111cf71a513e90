use dbcrossbar_core::errors::CoreError;
use dbcrossbar_core::text::{i32_to_decimal, u64_to_decimal};
use dbcrossbar_core::supervise::{process_outcome, supervise_all, ProcessStatus, Supervisor};

fn io_err(m: &str) -> CoreError {
    CoreError::Io {
        message: m.to_string(),
    }
}

#[test]
fn all_workers_succeed_resolves_ok() {
    let outcomes: Vec<Option<CoreError>> = vec![None, None, None, None];
    assert!(supervise_all(outcomes).is_ok());
}

#[test]
fn no_workers_resolves_ok() {
    let outcomes: Vec<Option<CoreError>> = vec![];
    assert!(supervise_all(outcomes).is_ok());
}

#[test]
fn single_failure_surfaces_that_error() {
    let outcomes = vec![None, None, Some(io_err("partition b broke")), None, None];
    match supervise_all(outcomes) {
        Err(CoreError::Io { message }) => assert_eq!(message, "partition b broke"),
        other => panic!("expected the worker's error, got {:?}", other),
    }
}

#[test]
fn single_failure_surfaces_regardless_of_position() {
    for pos in 0..6 {
        let mut outcomes: Vec<Option<CoreError>> = vec![None; 6];
        outcomes[pos] = Some(io_err("boom"));
        match supervise_all(outcomes) {
            Err(CoreError::Io { message }) => assert_eq!(message, "boom"),
            other => panic!("expected the worker's error, got {:?}", other),
        }
    }
}

#[test]
fn concurrent_failures_surface_exactly_one() {
    let outcomes = vec![
        None,
        Some(io_err("first to arrive")),
        Some(io_err("second to arrive")),
        Some(io_err("third to arrive")),
    ];
    match supervise_all(outcomes) {
        Err(CoreError::Io { message }) => assert_eq!(message, "first to arrive"),
        other => panic!("expected exactly one error, got {:?}", other),
    }
}

#[test]
fn supervisor_keeps_first_error_and_discards_later_ones() {
    let mut sup = Supervisor::new();
    sup.report(Ok(()));
    sup.report(Err(io_err("kept")));
    sup.report(Err(io_err("discarded")));
    sup.report(Ok(()));
    match sup.resolve() {
        Err(CoreError::Io { message }) => assert_eq!(message, "kept"),
        other => panic!("expected the first error, got {:?}", other),
    }
}

#[test]
fn supervisor_with_no_reports_resolves_ok() {
    let sup = Supervisor::new();
    assert!(sup.resolve().is_ok());
}

#[test]
fn process_zero_exit_is_success() {
    let status = ProcessStatus::Exited { code: 0 };
    assert!(process_outcome("loader", &status).is_ok());
}

#[test]
fn process_nonzero_exit_is_a_process_failure_carrying_the_code() {
    let status = ProcessStatus::Exited { code: 2 };
    match process_outcome("loader", &status) {
        Err(CoreError::ProcessFailure { message }) => {
            assert_eq!(message, "loader failed with exit code 2")
        }
        other => panic!("expected a process failure, got {:?}", other),
    }
    let status = ProcessStatus::Exited { code: 137 };
    match process_outcome("loader", &status) {
        Err(CoreError::ProcessFailure { message }) => {
            assert_eq!(message, "loader failed with exit code 137")
        }
        other => panic!("expected a process failure, got {:?}", other),
    }
}

#[test]
fn process_negative_exit_codes_keep_their_sign() {
    let status = ProcessStatus::Exited { code: -1 };
    match process_outcome("loader", &status) {
        Err(CoreError::ProcessFailure { message }) => {
            assert_eq!(message, "loader failed with exit code -1")
        }
        other => panic!("expected a process failure, got {:?}", other),
    }
}

#[test]
fn decimal_rendering_matches_the_standard_one() {
    assert_eq!(u64_to_decimal(0), "0");
    assert_eq!(u64_to_decimal(10), "10");
    assert_eq!(u64_to_decimal(90210), "90210");
    assert_eq!(u64_to_decimal(u64::MAX), u64::MAX.to_string());
    assert_eq!(i32_to_decimal(-42), "-42");
    assert_eq!(i32_to_decimal(i32::MIN), i32::MIN.to_string());
    assert_eq!(i32_to_decimal(i32::MAX), i32::MAX.to_string());
}

#[test]
fn process_launch_failure_is_a_process_failure() {
    let status = ProcessStatus::LaunchFailed {
        message: "no such binary".to_string(),
    };
    match process_outcome("loader", &status) {
        Err(CoreError::ProcessFailure { message }) => {
            assert_eq!(message, "loader failed with error: no such binary")
        }
        other => panic!("expected a process failure, got {:?}", other),
    }
}
