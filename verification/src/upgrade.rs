//! The key-blob upgrade protocol.
//!
//! An engine call on a blob has three outcomes: it succeeds, it demands a
//! newer blob format, or it fails.  When an upgrade is demanded the protocol
//! asks the engine to re-encode the blob, hands the new blob to a
//! persistence callback, and retries the operation once on the new blob.  A
//! failure to persist is a transient condition — the upgrade has happened
//! in-engine — and must not fail the operation; the caller retries
//! persistence later.  The protocol is a state machine driven by the
//! outcomes of the external calls; it counts every call it asks for, and
//! the idempotence law below is proved over those counts.

use vstd::prelude::*;

use crate::types::{Error, ErrorCode};

verus! {

/// Outcome of one engine operation attempt on a blob.  Any payload of a
/// successful call stays with the caller; the protocol only steers.
#[derive(Clone, Copy, Debug, PartialEq, Eq, Structural)]
pub enum OpOutcome {
    /// The operation succeeded.
    Success,
    /// The engine demands a newer blob format before it will perform the
    /// operation.
    RequiresUpgrade,
    /// The operation failed with an error that is not an upgrade demand.
    Failed(Error),
}

/// The protocol's position: which external call it is waiting for.
#[derive(Debug)]
pub enum UpgradeState {
    /// Waiting for the outcome of the operation on the original blob.
    RunOp,
    /// Waiting for the engine's upgrade call to produce a new blob.
    RequestUpgrade,
    /// Waiting for the persistence callback on the new blob.
    PersistNew { new_blob: Vec<u8> },
    /// Waiting for the outcome of the operation retried on the new blob.
    RerunOp { new_blob: Vec<u8>, persisted: bool },
    /// The run ended: `upgraded` carries the new blob when one was made,
    /// and `persisted` says whether it was durably stored.
    Done { upgraded: Option<Vec<u8>>, persisted: bool },
    /// The run ended with an error, propagated unchanged.
    Aborted { error: Error },
}

/// One run of the upgrade protocol, with a count of every external call it
/// has asked for.
#[derive(Debug)]
pub struct UpgradeProtocol {
    pub state: UpgradeState,
    /// Operation attempts made against the engine.
    pub op_calls: u32,
    /// Upgrade calls made against the engine.
    pub upgrade_calls: u32,
    /// Invocations of the persistence callback.
    pub persist_calls: u32,
}

impl UpgradeProtocol {
    /// A run that has not made any call yet.
    pub open spec fn spec_new() -> UpgradeProtocol {
        UpgradeProtocol { state: UpgradeState::RunOp, op_calls: 0, upgrade_calls: 0, persist_calls: 0 }
    }

    /// Counts agree with the position: at most one upgrade, at most one
    /// persistence call, at most two operation attempts, and a run that
    /// never upgraded made exactly one operation call and nothing else.
    pub open spec fn wf(self) -> bool {
        match self.state {
            UpgradeState::RunOp => self.op_calls == 0 && self.upgrade_calls == 0
                && self.persist_calls == 0,
            UpgradeState::RequestUpgrade => self.op_calls == 1 && self.upgrade_calls == 0
                && self.persist_calls == 0,
            UpgradeState::PersistNew { .. } => self.op_calls == 1 && self.upgrade_calls == 1
                && self.persist_calls == 0,
            UpgradeState::RerunOp { .. } => self.op_calls == 1 && self.upgrade_calls == 1
                && self.persist_calls == 1,
            UpgradeState::Done { upgraded, .. } => {
                if upgraded is None {
                    self.op_calls == 1 && self.upgrade_calls == 0 && self.persist_calls == 0
                } else {
                    self.op_calls == 2 && self.upgrade_calls == 1 && self.persist_calls == 1
                }
            },
            UpgradeState::Aborted { .. } => self.op_calls <= 2 && self.upgrade_calls <= 1
                && self.persist_calls <= 1,
        }
    }

    /// The run has ended.
    pub open spec fn finished(self) -> bool {
        self.state is Done || self.state is Aborted
    }

    /// The transition taken when an operation attempt reports its outcome.
    pub open spec fn spec_on_operation_result(self, outcome: OpOutcome) -> UpgradeProtocol {
        let counted = UpgradeProtocol { op_calls: (self.op_calls + 1) as u32, ..self };
        match self.state {
            UpgradeState::RunOp => {
                match outcome {
                    OpOutcome::Success => UpgradeProtocol {
                        state: UpgradeState::Done { upgraded: None, persisted: true },
                        ..counted
                    },
                    OpOutcome::RequiresUpgrade => UpgradeProtocol {
                        state: UpgradeState::RequestUpgrade,
                        ..counted
                    },
                    OpOutcome::Failed(e) => UpgradeProtocol {
                        state: UpgradeState::Aborted { error: e },
                        ..counted
                    },
                }
            },
            UpgradeState::RerunOp { new_blob, persisted } => {
                match outcome {
                    OpOutcome::Success => UpgradeProtocol {
                        state: UpgradeState::Done { upgraded: Some(new_blob), persisted },
                        ..counted
                    },
                    OpOutcome::RequiresUpgrade => UpgradeProtocol {
                        state: UpgradeState::Aborted {
                            error: Error::Km(ErrorCode::KeyRequiresUpgrade),
                        },
                        ..counted
                    },
                    OpOutcome::Failed(e) => UpgradeProtocol {
                        state: UpgradeState::Aborted { error: e },
                        ..counted
                    },
                }
            },
            _ => self,
        }
    }

    /// The transition taken when the engine's upgrade call returns.
    pub open spec fn spec_on_upgrade_result(self, r: Result<Vec<u8>, Error>) -> UpgradeProtocol {
        let counted = UpgradeProtocol { upgrade_calls: (self.upgrade_calls + 1) as u32, ..self };
        match self.state {
            UpgradeState::RequestUpgrade => {
                match r {
                    Ok(new_blob) => UpgradeProtocol {
                        state: UpgradeState::PersistNew { new_blob },
                        ..counted
                    },
                    Err(e) => UpgradeProtocol {
                        state: UpgradeState::Aborted { error: e },
                        ..counted
                    },
                }
            },
            _ => self,
        }
    }

    /// The transition taken when the persistence callback returns.  Failure
    /// to persist does not abort: the operation is retried on the new blob
    /// and the run records that persistence is still owed.
    pub open spec fn spec_on_persist_result(self, r: Result<(), Error>) -> UpgradeProtocol {
        let counted = UpgradeProtocol { persist_calls: (self.persist_calls + 1) as u32, ..self };
        match self.state {
            UpgradeState::PersistNew { new_blob } => UpgradeProtocol {
                state: UpgradeState::RerunOp { new_blob, persisted: r is Ok },
                ..counted
            },
            _ => self,
        }
    }

    /// A run that has not made any call yet.
    pub fn new() -> (r: UpgradeProtocol)
        ensures
            r == UpgradeProtocol::spec_new(),
            r.wf(),
    {
        UpgradeProtocol {
            state: UpgradeState::RunOp,
            op_calls: 0,
            upgrade_calls: 0,
            persist_calls: 0,
        }
    }

    /// Feeds the outcome of an operation attempt into the protocol.
    pub fn on_operation_result(self, outcome: OpOutcome) -> (r: Self)
        requires
            self.wf(),
            self.state is RunOp || self.state is RerunOp,
        ensures
            r == self.spec_on_operation_result(outcome),
            r.wf(),
    {
        let UpgradeProtocol { state, op_calls, upgrade_calls, persist_calls } = self;
        let op_calls = op_calls + 1;
        match state {
            UpgradeState::RunOp => {
                let state = match outcome {
                    OpOutcome::Success => UpgradeState::Done { upgraded: None, persisted: true },
                    OpOutcome::RequiresUpgrade => UpgradeState::RequestUpgrade,
                    OpOutcome::Failed(e) => UpgradeState::Aborted { error: e },
                };
                UpgradeProtocol { state, op_calls, upgrade_calls, persist_calls }
            },
            UpgradeState::RerunOp { new_blob, persisted } => {
                let state = match outcome {
                    OpOutcome::Success => UpgradeState::Done {
                        upgraded: Some(new_blob),
                        persisted,
                    },
                    OpOutcome::RequiresUpgrade => UpgradeState::Aborted {
                        error: Error::Km(ErrorCode::KeyRequiresUpgrade),
                    },
                    OpOutcome::Failed(e) => UpgradeState::Aborted { error: e },
                };
                UpgradeProtocol { state, op_calls, upgrade_calls, persist_calls }
            },
            _ => {
                proof {
                    assert(false);
                }
                UpgradeProtocol { state, op_calls, upgrade_calls, persist_calls }
            },
        }
    }

    /// Feeds the result of the engine's upgrade call into the protocol.
    pub fn on_upgrade_result(self, r: Result<Vec<u8>, Error>) -> (m: Self)
        requires
            self.wf(),
            self.state is RequestUpgrade,
        ensures
            m == self.spec_on_upgrade_result(r),
            m.wf(),
    {
        let UpgradeProtocol { state, op_calls, upgrade_calls, persist_calls } = self;
        let upgrade_calls = upgrade_calls + 1;
        let state = match r {
            Ok(new_blob) => UpgradeState::PersistNew { new_blob },
            Err(e) => UpgradeState::Aborted { error: e },
        };
        UpgradeProtocol { state, op_calls, upgrade_calls, persist_calls }
    }

    /// Feeds the result of the persistence callback into the protocol.
    pub fn on_persist_result(self, r: Result<(), Error>) -> (m: Self)
        requires
            self.wf(),
            self.state is PersistNew,
        ensures
            m == self.spec_on_persist_result(r),
            m.wf(),
    {
        let UpgradeProtocol { state, op_calls, upgrade_calls, persist_calls } = self;
        let persist_calls = persist_calls + 1;
        match state {
            UpgradeState::PersistNew { new_blob } => {
                let state = UpgradeState::RerunOp { new_blob, persisted: r.is_ok() };
                UpgradeProtocol { state, op_calls, upgrade_calls, persist_calls }
            },
            _ => {
                proof {
                    assert(false);
                }
                UpgradeProtocol { state, op_calls, upgrade_calls, persist_calls }
            },
        }
    }
}

/// A full run of the protocol over the replies the external calls would
/// give: the first operation attempt, then — only if that attempt demanded
/// an upgrade — the upgrade call, the persistence callback and the retried
/// operation.
pub open spec fn spec_run_upgrade_protocol(
    first: OpOutcome,
    upgrade_result: Result<Vec<u8>, Error>,
    persist_result: Result<(), Error>,
    second: OpOutcome,
) -> UpgradeProtocol {
    let m = UpgradeProtocol::spec_new().spec_on_operation_result(first);
    if m.state is RequestUpgrade {
        let m = m.spec_on_upgrade_result(upgrade_result);
        if m.state is PersistNew {
            m.spec_on_persist_result(persist_result).spec_on_operation_result(second)
        } else {
            m
        }
    } else {
        m
    }
}

/// Runs the protocol to completion against the given replies.  The replies
/// after the first are consulted only when the first operation attempt
/// demands an upgrade.
pub fn run_upgrade_protocol(
    first: OpOutcome,
    upgrade_result: Result<Vec<u8>, Error>,
    persist_result: Result<(), Error>,
    second: OpOutcome,
) -> (m: UpgradeProtocol)
    ensures
        m == spec_run_upgrade_protocol(first, upgrade_result, persist_result, second),
        m.wf(),
        m.finished(),
{
    let mut m = UpgradeProtocol::new().on_operation_result(first);
    let request_upgrade = match &m.state {
        UpgradeState::RequestUpgrade => true,
        _ => false,
    };
    if request_upgrade {
        m = m.on_upgrade_result(upgrade_result);
        let persist = match &m.state {
            UpgradeState::PersistNew { .. } => true,
            _ => false,
        };
        if persist {
            m = m.on_persist_result(persist_result);
            m = m.on_operation_result(second);
        }
    }
    m
}

/// Upgrade idempotence: a run on an already-current blob — one whose first
/// operation attempt succeeds — performs exactly one engine operation call,
/// no upgrade call and no persistence call, and yields no new blob.
pub proof fn lemma_upgrade_idempotent(
    upgrade_result: Result<Vec<u8>, Error>,
    persist_result: Result<(), Error>,
    second: OpOutcome,
)
    ensures
        ({
            let m = spec_run_upgrade_protocol(
                OpOutcome::Success,
                upgrade_result,
                persist_result,
                second,
            );
            &&& m.state matches UpgradeState::Done { upgraded, .. } && upgraded is None
            &&& m.op_calls == 1
            &&& m.upgrade_calls == 0
            &&& m.persist_calls == 0
        }),
{
}

/// A failed persistence is transient: when the upgrade succeeded and the
/// retried operation succeeds, the run completes with the new blob and only
/// records that persistence is still owed — the operation does not fail.
pub proof fn lemma_persist_failure_is_transient(new_blob: Vec<u8>, persist_error: Error)
    ensures
        ({
            let m = spec_run_upgrade_protocol(
                OpOutcome::RequiresUpgrade,
                Ok(new_blob),
                Err(persist_error),
                OpOutcome::Success,
            );
            &&& m.state matches UpgradeState::Done { upgraded, persisted } && upgraded == Some(
                new_blob,
            ) && !persisted
            &&& m.op_calls == 2
            &&& m.upgrade_calls == 1
            &&& m.persist_calls == 1
        }),
{
}

/// Errors other than an upgrade demand propagate unchanged, after a single
/// operation call.
pub proof fn lemma_other_errors_propagate(
    e: Error,
    upgrade_result: Result<Vec<u8>, Error>,
    persist_result: Result<(), Error>,
    second: OpOutcome,
)
    requires
        e != Error::Km(ErrorCode::KeyRequiresUpgrade),
    ensures
        ({
            let m = spec_run_upgrade_protocol(
                OpOutcome::Failed(e),
                upgrade_result,
                persist_result,
                second,
            );
            &&& m.state matches UpgradeState::Aborted { error } && error == e
            &&& m.op_calls == 1
        }),
{
}

} // verus!
