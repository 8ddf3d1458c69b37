//! Tests of the upgrade protocol's call accounting and of operation
//! admission under a bounded pool with eviction.

use keystore2::admission::{begin_attempt_loop, AdmissionTable, OperationRecord};
use keystore2::types::{BeginResult, Error, ErrorCode, ResponseCode};
use keystore2::upgrade::{run_upgrade_protocol, OpOutcome, UpgradeState};

fn ok_begin(op_id: u64) -> Result<BeginResult, ErrorCode> {
    Ok(BeginResult { challenge: 42, operation: Some(op_id), params: vec![] })
}

/// Upgrade idempotence: a run on an already-current blob performs exactly
/// one engine call and no persistence call.
#[test]
fn upgrade_protocol_is_idempotent_on_current_blob() {
    let m = run_upgrade_protocol(
        OpOutcome::Success,
        Ok(vec![9, 9, 9]),
        Ok(()),
        OpOutcome::Success,
    );
    assert_eq!(m.op_calls, 1);
    assert_eq!(m.upgrade_calls, 0);
    assert_eq!(m.persist_calls, 0);
    match m.state {
        UpgradeState::Done { upgraded, persisted } => {
            assert!(upgraded.is_none());
            assert!(persisted);
        }
        _ => panic!("run did not complete"),
    }
}

#[test]
fn upgrade_protocol_full_upgrade_path() {
    let m = run_upgrade_protocol(
        OpOutcome::RequiresUpgrade,
        Ok(vec![1, 2, 3]),
        Ok(()),
        OpOutcome::Success,
    );
    assert_eq!(m.op_calls, 2);
    assert_eq!(m.upgrade_calls, 1);
    assert_eq!(m.persist_calls, 1);
    match m.state {
        UpgradeState::Done { upgraded, persisted } => {
            assert_eq!(upgraded.unwrap(), vec![1, 2, 3]);
            assert!(persisted);
        }
        _ => panic!("run did not complete"),
    }
}

/// A failure to persist the upgraded blob is transient: the operation still
/// completes and the run records that persistence is owed.
#[test]
fn upgrade_protocol_persist_failure_is_transient() {
    let m = run_upgrade_protocol(
        OpOutcome::RequiresUpgrade,
        Ok(vec![5]),
        Err(Error::Rc(ResponseCode::SystemError)),
        OpOutcome::Success,
    );
    assert_eq!(m.persist_calls, 1);
    match m.state {
        UpgradeState::Done { upgraded, persisted } => {
            assert_eq!(upgraded.unwrap(), vec![5]);
            assert!(!persisted);
        }
        _ => panic!("run did not complete"),
    }
}

#[test]
fn upgrade_protocol_propagates_other_errors() {
    let m = run_upgrade_protocol(
        OpOutcome::Failed(Error::Km(ErrorCode::InvalidKeyBlob)),
        Ok(vec![]),
        Ok(()),
        OpOutcome::Success,
    );
    assert_eq!(m.op_calls, 1);
    match m.state {
        UpgradeState::Aborted { error } => {
            assert_eq!(error, Error::Km(ErrorCode::InvalidKeyBlob));
        }
        _ => panic!("run did not abort"),
    }
}

#[test]
fn upgrade_protocol_second_demand_propagates() {
    let m = run_upgrade_protocol(
        OpOutcome::RequiresUpgrade,
        Ok(vec![1]),
        Ok(()),
        OpOutcome::RequiresUpgrade,
    );
    match m.state {
        UpgradeState::Aborted { error } => {
            assert_eq!(error, Error::Km(ErrorCode::KeyRequiresUpgrade));
        }
        _ => panic!("run did not abort"),
    }
}

fn full_table(capacity: usize, caller: u32) -> AdmissionTable {
    let mut table = AdmissionTable::new(capacity);
    for i in 0..capacity {
        let run = begin_attempt_loop(
            &mut table,
            caller,
            false,
            i as u64,
            vec![ok_begin(i as u64)],
        );
        assert!(run.result.is_ok());
    }
    assert_eq!(table.len(), capacity);
    table
}

/// Scenario: `begin` reports slot exhaustion three times in a row while
/// eviction frees exactly one slot each time; the fourth attempt succeeds
/// and exactly three eviction cycles occurred.
#[test]
fn begin_retries_under_exhaustion() {
    let mut table = full_table(4, 1000);
    let run = begin_attempt_loop(
        &mut table,
        1000,
        false,
        100,
        vec![
            Err(ErrorCode::TooManyOperations),
            Err(ErrorCode::TooManyOperations),
            Err(ErrorCode::TooManyOperations),
            ok_begin(77),
        ],
    );
    assert_eq!(run.eviction_cycles, 3);
    assert!(!run.invalid_blob_detected);
    let br = run.result.unwrap();
    assert_eq!(br.operation, Some(77));
    // Eviction liveness: the table never exceeds the engine capacity.
    assert!(table.len() <= table.capacity());
    assert_eq!(table.len(), 2); // four minus three evicted plus the new one
}

/// Eviction prefers the oldest operation among the caller's own.
#[test]
fn eviction_picks_oldest_of_caller() {
    let mut table = AdmissionTable::new(4);
    assert!(table
        .register(OperationRecord { op_id: 1, caller_uid: 1, created_at: 50, forced: false })
        .is_ok());
    assert!(table
        .register(OperationRecord { op_id: 2, caller_uid: 2, created_at: 10, forced: false })
        .is_ok());
    assert!(table
        .register(OperationRecord { op_id: 3, caller_uid: 1, created_at: 20, forced: false })
        .is_ok());
    // Caller 1's oldest is op 3 (created at 20); caller 2's op is older but
    // not eligible without a forced request.
    assert!(table.prune(1, false));
    assert_eq!(table.len(), 2);
    // A forced request may evict anyone: now the overall oldest, op 2, goes.
    assert!(table.prune(1, true));
    assert_eq!(table.len(), 1);
}

/// Eviction that cannot free a slot ends the loop: bounded progress, no
/// livelock.
#[test]
fn begin_stops_when_eviction_frees_nothing() {
    let mut table = full_table(2, 7);
    // A different caller, not forced: no eligible victim.
    let run = begin_attempt_loop(
        &mut table,
        8,
        false,
        100,
        vec![Err(ErrorCode::TooManyOperations), ok_begin(9)],
    );
    assert_eq!(run.result.unwrap_err(), Error::Km(ErrorCode::TooManyOperations));
    assert_eq!(run.eviction_cycles, 0);
    assert_eq!(table.len(), 2);
}

/// An invalid blob is flagged for audit and never retried.
#[test]
fn begin_flags_invalid_blob() {
    let mut table = AdmissionTable::new(2);
    let run = begin_attempt_loop(
        &mut table,
        1,
        false,
        0,
        vec![Err(ErrorCode::InvalidKeyBlob), ok_begin(1)],
    );
    assert!(run.invalid_blob_detected);
    assert_eq!(run.result.unwrap_err(), Error::Km(ErrorCode::InvalidKeyBlob));
    assert_eq!(table.len(), 0);
}

#[test]
fn begin_without_operation_reference_is_a_system_error() {
    let mut table = AdmissionTable::new(2);
    let run = begin_attempt_loop(
        &mut table,
        1,
        false,
        0,
        vec![Ok(BeginResult { challenge: 0, operation: None, params: vec![] })],
    );
    assert_eq!(run.result.unwrap_err(), Error::Rc(ResponseCode::SystemError));
    assert_eq!(table.len(), 0);
}

#[test]
fn register_refuses_beyond_capacity() {
    let mut table = full_table(2, 3);
    let r = table.register(OperationRecord { op_id: 9, caller_uid: 3, created_at: 9, forced: false });
    assert_eq!(r.unwrap_err(), Error::Km(ErrorCode::TooManyOperations));
    assert_eq!(table.len(), 2);
}
