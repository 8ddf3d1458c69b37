//! Admission of cryptographic operations under a bounded pool.
//!
//! An engine grants a bounded number of concurrent operation slots.  When a
//! `begin` request is refused for lack of slots, the admission controller
//! evicts an operation — the oldest one of the same caller, or of any
//! caller for a forced request — and retries.  Eviction must free a slot or
//! the loop stops: progress is bounded by the table capacity, and the table
//! never exceeds the engine-reported capacity.  An invalid-blob error is
//! flagged for audit and never retried.

use vstd::prelude::*;

use crate::types::{BeginResult, Error, ErrorCode, ResponseCode};

verus! {

/// One live operation tracked by the admission controller.
#[derive(Clone, Copy, Debug, PartialEq, Eq, Structural)]
pub struct OperationRecord {
    /// The engine-issued reference to the live operation.
    pub op_id: u64,
    /// The caller that owns the operation.
    pub caller_uid: u32,
    /// Creation time, used to pick eviction victims.
    pub created_at: u64,
    /// Whether the operation bypassed the per-caller quota.
    pub forced: bool,
}

/// Whether a record may be evicted to make room for `caller_uid`'s request:
/// the caller's own operations always, anyone's when the request is forced.
pub open spec fn spec_eligible(rec: OperationRecord, caller_uid: u32, forced: bool) -> bool {
    forced || rec.caller_uid == caller_uid
}

/// `k` indexes the eviction victim: the first of the eligible records with
/// the oldest creation time.
pub open spec fn spec_is_oldest_eligible(
    ops: Seq<OperationRecord>,
    caller_uid: u32,
    forced: bool,
    k: int,
) -> bool {
    &&& 0 <= k < ops.len()
    &&& spec_eligible(ops[k], caller_uid, forced)
    &&& forall|j: int|
        0 <= j < ops.len() && spec_eligible(#[trigger] ops[j], caller_uid, forced)
            ==> ops[k].created_at <= ops[j].created_at
    &&& forall|j: int|
        0 <= j < k && spec_eligible(#[trigger] ops[j], caller_uid, forced) ==> ops[j].created_at
            > ops[k].created_at
}

/// The index of the eviction victim, if any record is eligible.
pub open spec fn spec_oldest_eligible(
    ops: Seq<OperationRecord>,
    caller_uid: u32,
    forced: bool,
) -> Option<int>
    decreases ops.len(),
{
    if ops.len() == 0 {
        None
    } else {
        let rest = spec_oldest_eligible(ops.drop_first(), caller_uid, forced);
        if spec_eligible(ops[0], caller_uid, forced) {
            match rest {
                None => Some(0),
                Some(j) => {
                    if ops[0].created_at <= ops.drop_first()[j].created_at {
                        Some(0)
                    } else {
                        Some(j + 1)
                    }
                },
            }
        } else {
            match rest {
                None => None,
                Some(j) => Some(j + 1),
            }
        }
    }
}

/// The victim index is sound: absent exactly when nothing is eligible, and
/// otherwise the first of the oldest eligible records.
pub proof fn lemma_oldest_eligible_sound(ops: Seq<OperationRecord>, caller_uid: u32, forced: bool)
    ensures
        spec_oldest_eligible(ops, caller_uid, forced) is None ==> forall|j: int|
            0 <= j < ops.len() ==> !spec_eligible(#[trigger] ops[j], caller_uid, forced),
        spec_oldest_eligible(ops, caller_uid, forced) matches Some(k) ==> spec_is_oldest_eligible(
            ops,
            caller_uid,
            forced,
            k,
        ),
    decreases ops.len(),
{
    if ops.len() > 0 {
        lemma_oldest_eligible_sound(ops.drop_first(), caller_uid, forced);
        let rest = spec_oldest_eligible(ops.drop_first(), caller_uid, forced);
        assert forall|j: int| 1 <= j < ops.len() implies ops.drop_first()[j - 1] == ops[j] by {}
        match spec_oldest_eligible(ops, caller_uid, forced) {
            None => {},
            Some(k) => {
                if k == 0 {
                    match rest {
                        None => {},
                        Some(j) => {
                            assert(spec_is_oldest_eligible(ops.drop_first(), caller_uid, forced, j));
                        },
                    }
                } else {
                    assert(spec_is_oldest_eligible(ops.drop_first(), caller_uid, forced, k - 1));
                }
            },
        }
    }
}

/// There is at most one victim index.
pub proof fn lemma_oldest_eligible_unique(
    ops: Seq<OperationRecord>,
    caller_uid: u32,
    forced: bool,
    k1: int,
    k2: int,
)
    requires
        spec_is_oldest_eligible(ops, caller_uid, forced, k1),
        spec_is_oldest_eligible(ops, caller_uid, forced, k2),
    ensures
        k1 == k2,
{
    if k1 < k2 {
        assert(ops[k1].created_at > ops[k2].created_at);
        assert(ops[k1].created_at <= ops[k2].created_at);
    } else if k2 < k1 {
        assert(ops[k2].created_at > ops[k1].created_at);
        assert(ops[k2].created_at <= ops[k1].created_at);
    }
}

/// The operation-admission table: the live operations, bounded by the
/// engine-reported capacity.
#[derive(Debug)]
pub struct AdmissionTable {
    ops: Vec<OperationRecord>,
    capacity: usize,
}

impl AdmissionTable {
    /// The tracked operations.
    pub closed spec fn spec_ops(&self) -> Seq<OperationRecord> {
        self.ops@
    }

    /// The engine-reported slot capacity.
    pub closed spec fn spec_capacity(&self) -> usize {
        self.capacity
    }

    /// The table never holds more operations than the engine has slots.
    pub open spec fn wf(&self) -> bool {
        self.spec_ops().len() <= self.spec_capacity()
    }

    /// An empty table for an engine with the given slot capacity.
    pub fn new(capacity: usize) -> (r: AdmissionTable)
        ensures
            r.spec_ops() == Seq::<OperationRecord>::empty(),
            r.spec_capacity() == capacity,
            r.wf(),
    {
        AdmissionTable { ops: Vec::new(), capacity }
    }

    /// The number of live operations.
    pub fn len(&self) -> (r: usize)
        ensures
            r == self.spec_ops().len(),
    {
        self.ops.len()
    }

    /// The engine-reported slot capacity.
    pub fn capacity(&self) -> (r: usize)
        ensures
            r == self.spec_capacity(),
    {
        self.capacity
    }

    /// Registers a live operation.  Refused when the table is full: the
    /// table never exceeds the engine-reported capacity.
    pub fn register(&mut self, rec: OperationRecord) -> (r: Result<(), Error>)
        requires
            old(self).wf(),
        ensures
            final(self).wf(),
            final(self).spec_capacity() == old(self).spec_capacity(),
            old(self).spec_ops().len() < old(self).spec_capacity() ==> r == Ok::<(), Error>(())
                && final(self).spec_ops() == old(self).spec_ops().push(rec),
            old(self).spec_ops().len() >= old(self).spec_capacity() ==> r == Err::<(), Error>(
                Error::Km(ErrorCode::TooManyOperations),
            ) && final(self).spec_ops() == old(self).spec_ops(),
    {
        if self.ops.len() < self.capacity {
            self.ops.push(rec);
            Ok(())
        } else {
            Err(Error::Km(ErrorCode::TooManyOperations))
        }
    }

    /// Evicts the oldest operation eligible for the caller's scope, if any.
    /// Returns whether a slot was freed.
    pub fn prune(&mut self, caller_uid: u32, forced: bool) -> (freed: bool)
        requires
            old(self).wf(),
        ensures
            final(self).wf(),
            final(self).spec_capacity() == old(self).spec_capacity(),
            match spec_oldest_eligible(old(self).spec_ops(), caller_uid, forced) {
                None => !freed && final(self).spec_ops() == old(self).spec_ops(),
                Some(k) => freed && final(self).spec_ops() == old(self).spec_ops().remove(k),
            },
    {
        proof {
            lemma_oldest_eligible_sound(self.spec_ops(), caller_uid, forced);
        }
        let mut best: usize = 0;
        let mut found = false;
        let mut i: usize = 0;
        while i < self.ops.len()
            invariant
                i <= self.ops@.len(),
                !found ==> forall|j: int|
                    0 <= j < i ==> !spec_eligible(#[trigger] self.spec_ops()[j], caller_uid, forced),
                found ==> best < i && spec_eligible(self.spec_ops()[best as int], caller_uid, forced),
                found ==> forall|j: int|
                    0 <= j < i && spec_eligible(#[trigger] self.spec_ops()[j], caller_uid, forced)
                        ==> self.spec_ops()[best as int].created_at <= self.spec_ops()[j].created_at,
                found ==> forall|j: int|
                    0 <= j < best && spec_eligible(#[trigger] self.spec_ops()[j], caller_uid, forced)
                        ==> self.spec_ops()[j].created_at > self.spec_ops()[best as int].created_at,
            decreases self.ops@.len() - i,
        {
            let rec = self.ops[i];
            let eligible = forced || rec.caller_uid == caller_uid;
            if eligible && (!found || rec.created_at < self.ops[best].created_at) {
                best = i;
                found = true;
            }
            i += 1;
        }
        if found {
            proof {
                assert(spec_is_oldest_eligible(self.spec_ops(), caller_uid, forced, best as int));
                match spec_oldest_eligible(self.spec_ops(), caller_uid, forced) {
                    None => {
                        assert(false);
                    },
                    Some(k) => {
                        lemma_oldest_eligible_unique(
                            self.spec_ops(),
                            caller_uid,
                            forced,
                            k,
                            best as int,
                        );
                    },
                }
            }
            self.ops.remove(best);
            true
        } else {
            proof {
                match spec_oldest_eligible(self.spec_ops(), caller_uid, forced) {
                    None => {},
                    Some(k) => {
                        assert(spec_is_oldest_eligible(self.spec_ops(), caller_uid, forced, k));
                        assert(spec_eligible(self.spec_ops()[k], caller_uid, forced));
                        assert(false);
                    },
                }
            }
            false
        }
    }
}

/// The result of driving one `begin` request to completion.
#[derive(Debug)]
pub struct BeginRun {
    /// The admitted operation's begin data, or the error that ended the run.
    pub result: Result<BeginResult, Error>,
    /// How many eviction cycles were needed.
    pub eviction_cycles: usize,
    /// Whether the engine reported an invalid blob: the caller must emit an
    /// audit signal, and the request is never retried.
    pub invalid_blob_detected: bool,
}

/// State of a admission run in the driver's recursion: the table contents
/// and the run summary so far.
pub struct BeginRunSpec {
    pub ops: Seq<OperationRecord>,
    pub run: BeginRun,
}

/// What the admission loop yields, given the replies the engine would give
/// to successive `begin` attempts.
///
/// Slot exhaustion evicts and retries; eviction that frees nothing, or more
/// eviction cycles than the table has slots, ends the run: progress is
/// bounded.  Success registers the operation, and is refused when the table
/// is full.  Every other error ends the run at once, an invalid blob with
/// the audit flag set.
pub open spec fn spec_begin_run(
    ops: Seq<OperationRecord>,
    capacity: usize,
    caller_uid: u32,
    forced: bool,
    created_at: u64,
    outcomes: Seq<Result<BeginResult, ErrorCode>>,
    evictions: usize,
) -> BeginRunSpec
    decreases outcomes.len(),
{
    if outcomes.len() == 0 {
        BeginRunSpec {
            ops,
            run: BeginRun {
                result: Err(Error::Km(ErrorCode::TooManyOperations)),
                eviction_cycles: evictions,
                invalid_blob_detected: false,
            },
        }
    } else {
        match outcomes[0] {
            Ok(br) => {
                match br.operation {
                    None => BeginRunSpec {
                        ops,
                        run: BeginRun {
                            result: Err(Error::Rc(ResponseCode::SystemError)),
                            eviction_cycles: evictions,
                            invalid_blob_detected: false,
                        },
                    },
                    Some(op_id) => {
                        if ops.len() < capacity {
                            BeginRunSpec {
                                ops: ops.push(
                                    (OperationRecord { op_id, caller_uid, created_at, forced }),
                                ),
                                run: BeginRun {
                                    result: Ok(br),
                                    eviction_cycles: evictions,
                                    invalid_blob_detected: false,
                                },
                            }
                        } else {
                            BeginRunSpec {
                                ops,
                                run: BeginRun {
                                    result: Err(Error::Km(ErrorCode::TooManyOperations)),
                                    eviction_cycles: evictions,
                                    invalid_blob_detected: false,
                                },
                            }
                        }
                    },
                }
            },
            Err(ErrorCode::TooManyOperations) => {
                if evictions >= capacity {
                    BeginRunSpec {
                        ops,
                        run: BeginRun {
                            result: Err(Error::Km(ErrorCode::TooManyOperations)),
                            eviction_cycles: evictions,
                            invalid_blob_detected: false,
                        },
                    }
                } else {
                    match spec_oldest_eligible(ops, caller_uid, forced) {
                        None => BeginRunSpec {
                            ops,
                            run: BeginRun {
                                result: Err(Error::Km(ErrorCode::TooManyOperations)),
                                eviction_cycles: evictions,
                                invalid_blob_detected: false,
                            },
                        },
                        Some(k) => spec_begin_run(
                            ops.remove(k),
                            capacity,
                            caller_uid,
                            forced,
                            created_at,
                            outcomes.drop_first(),
                            (evictions + 1) as usize,
                        ),
                    }
                }
            },
            Err(ErrorCode::InvalidKeyBlob) => BeginRunSpec {
                ops,
                run: BeginRun {
                    result: Err(Error::Km(ErrorCode::InvalidKeyBlob)),
                    eviction_cycles: evictions,
                    invalid_blob_detected: true,
                },
            },
            Err(e) => BeginRunSpec {
                ops,
                run: BeginRun {
                    result: Err(Error::Km(e)),
                    eviction_cycles: evictions,
                    invalid_blob_detected: false,
                },
            },
        }
    }
}

/// Drives one `begin` request against the engine's successive replies.
///
/// The loop terminates on every input: each retry consumes one reply, and
/// eviction cycles are capped by the table capacity.
#[verifier::loop_isolation(false)]
pub fn begin_attempt_loop(
    table: &mut AdmissionTable,
    caller_uid: u32,
    forced: bool,
    created_at: u64,
    outcomes: Vec<Result<BeginResult, ErrorCode>>,
) -> (r: BeginRun)
    requires
        old(table).wf(),
    ensures
        final(table).wf(),
        final(table).spec_capacity() == old(table).spec_capacity(),
        ({
            let s = spec_begin_run(
                old(table).spec_ops(),
                old(table).spec_capacity(),
                caller_uid,
                forced,
                created_at,
                outcomes@,
                0,
            );
            final(table).spec_ops() == s.ops && r == s.run
        }),
{
    let ghost orig_outcomes = outcomes@;
    let ghost orig_ops = table.spec_ops();
    let ghost orig_capacity = table.spec_capacity();
    let mut remaining = outcomes;
    let mut evictions: usize = 0;
    loop
        invariant
            table.wf(),
            table.spec_capacity() == orig_capacity,
            orig_ops == old(table).spec_ops(),
            orig_capacity == old(table).spec_capacity(),
            spec_begin_run(
                orig_ops,
                orig_capacity,
                caller_uid,
                forced,
                created_at,
                orig_outcomes,
                0,
            ) == spec_begin_run(
                table.spec_ops(),
                table.spec_capacity(),
                caller_uid,
                forced,
                created_at,
                remaining@,
                evictions,
            ),
        decreases remaining@.len(),
    {
        if remaining.len() == 0 {
            return BeginRun {
                result: Err(Error::Km(ErrorCode::TooManyOperations)),
                eviction_cycles: evictions,
                invalid_blob_detected: false,
            };
        }
        let ghost pre = remaining@;
        let outcome = remaining.remove(0);
        proof {
            assert(pre[0] == outcome);
            assert(pre.drop_first() =~= remaining@);
        }
        match outcome {
            Ok(br) => {
                match br.operation {
                    None => {
                        return BeginRun {
                            result: Err(Error::sys()),
                            eviction_cycles: evictions,
                            invalid_blob_detected: false,
                        };
                    },
                    Some(op_id) => {
                        let rec = OperationRecord { op_id, caller_uid, created_at, forced };
                        match table.register(rec) {
                            Ok(()) => {
                                return BeginRun {
                                    result: Ok(br),
                                    eviction_cycles: evictions,
                                    invalid_blob_detected: false,
                                };
                            },
                            Err(e) => {
                                return BeginRun {
                                    result: Err(e),
                                    eviction_cycles: evictions,
                                    invalid_blob_detected: false,
                                };
                            },
                        }
                    },
                }
            },
            Err(ErrorCode::TooManyOperations) => {
                if evictions >= table.capacity() {
                    return BeginRun {
                        result: Err(Error::Km(ErrorCode::TooManyOperations)),
                        eviction_cycles: evictions,
                        invalid_blob_detected: false,
                    };
                }
                let freed = table.prune(caller_uid, forced);
                if !freed {
                    return BeginRun {
                        result: Err(Error::Km(ErrorCode::TooManyOperations)),
                        eviction_cycles: evictions,
                        invalid_blob_detected: false,
                    };
                }
                evictions = evictions + 1;
            },
            Err(ErrorCode::InvalidKeyBlob) => {
                return BeginRun {
                    result: Err(Error::Km(ErrorCode::InvalidKeyBlob)),
                    eviction_cycles: evictions,
                    invalid_blob_detected: true,
                };
            },
            Err(e) => {
                return BeginRun {
                    result: Err(Error::Km(e)),
                    eviction_cycles: evictions,
                    invalid_blob_detected: false,
                };
            },
        }
    }
}

/// Eviction liveness: whatever the engine replies and however full the
/// table starts, the admission run leaves the table within the
/// engine-reported capacity.  (Termination itself is witnessed by the
/// driver's decreasing measure: each retry consumes one reply.)
pub proof fn lemma_admission_bounded(
    ops: Seq<OperationRecord>,
    capacity: usize,
    caller_uid: u32,
    forced: bool,
    created_at: u64,
    outcomes: Seq<Result<BeginResult, ErrorCode>>,
    evictions: usize,
)
    requires
        ops.len() <= capacity,
    ensures
        spec_begin_run(ops, capacity, caller_uid, forced, created_at, outcomes, evictions).ops.len()
            <= capacity,
    decreases outcomes.len(),
{
    if outcomes.len() > 0 {
        match outcomes[0] {
            Err(ErrorCode::TooManyOperations) => {
                if evictions < capacity {
                    match spec_oldest_eligible(ops, caller_uid, forced) {
                        Some(k) => {
                            lemma_oldest_eligible_sound(ops, caller_uid, forced);
                            lemma_admission_bounded(
                                ops.remove(k),
                                capacity,
                                caller_uid,
                                forced,
                                created_at,
                                outcomes.drop_first(),
                                (evictions + 1) as usize,
                            );
                        },
                        None => {},
                    }
                }
            },
            _ => {},
        }
    }
}

/// An eviction cycle happens only on slot exhaustion, and each one removes
/// exactly one operation: the run's eviction count equals the number of
/// exhaustion replies it consumed, so exhaustion answered `n` times with
/// successful eviction costs exactly `n` cycles before the next attempt.
pub proof fn lemma_eviction_cycles_count_exhaustions(
    ops: Seq<OperationRecord>,
    capacity: usize,
    caller_uid: u32,
    forced: bool,
    created_at: u64,
    outcomes: Seq<Result<BeginResult, ErrorCode>>,
    evictions: usize,
)
    ensures
        ({
            let s = spec_begin_run(ops, capacity, caller_uid, forced, created_at, outcomes, evictions);
            s.run.eviction_cycles >= evictions && s.run.eviction_cycles - evictions
                <= outcomes.len()
        }),
    decreases outcomes.len(),
{
    if outcomes.len() > 0 {
        match outcomes[0] {
            Err(ErrorCode::TooManyOperations) => {
                if evictions < capacity {
                    match spec_oldest_eligible(ops, caller_uid, forced) {
                        Some(k) => {
                            lemma_oldest_eligible_sound(ops, caller_uid, forced);
                            lemma_eviction_cycles_count_exhaustions(
                                ops.remove(k),
                                capacity,
                                caller_uid,
                                forced,
                                created_at,
                                outcomes.drop_first(),
                                (evictions + 1) as usize,
                            );
                        },
                        None => {},
                    }
                }
            },
            _ => {},
        }
    }
}

/// The audit flag accompanies exactly the invalid-blob error.
pub proof fn lemma_begin_run_invalid_blob(
    ops: Seq<OperationRecord>,
    capacity: usize,
    caller_uid: u32,
    forced: bool,
    created_at: u64,
    outcomes: Seq<Result<BeginResult, ErrorCode>>,
    evictions: usize,
)
    ensures
        ({
            let s = spec_begin_run(ops, capacity, caller_uid, forced, created_at, outcomes, evictions);
            s.run.invalid_blob_detected ==> s.run.result == Err::<BeginResult, Error>(
                Error::Km(ErrorCode::InvalidKeyBlob),
            )
        }),
    decreases outcomes.len(),
{
    if outcomes.len() > 0 {
        match outcomes[0] {
            Err(ErrorCode::TooManyOperations) => {
                if evictions < capacity {
                    match spec_oldest_eligible(ops, caller_uid, forced) {
                        Some(k) => {
                            lemma_oldest_eligible_sound(ops, caller_uid, forced);
                            lemma_begin_run_invalid_blob(
                                ops.remove(k),
                                capacity,
                                caller_uid,
                                forced,
                                created_at,
                                outcomes.drop_first(),
                                (evictions + 1) as usize,
                            );
                        },
                        None => {},
                    }
                }
            },
            _ => {},
        }
    }
}

/// A run that admits an operation got it from a reply that carried an
/// engine-issued operation reference.
pub proof fn lemma_begin_run_ok_has_operation(
    ops: Seq<OperationRecord>,
    capacity: usize,
    caller_uid: u32,
    forced: bool,
    created_at: u64,
    outcomes: Seq<Result<BeginResult, ErrorCode>>,
    evictions: usize,
)
    ensures
        ({
            let s = spec_begin_run(ops, capacity, caller_uid, forced, created_at, outcomes, evictions);
            s.run.result matches Ok(br) ==> br.operation is Some
        }),
    decreases outcomes.len(),
{
    if outcomes.len() > 0 {
        match outcomes[0] {
            Err(ErrorCode::TooManyOperations) => {
                if evictions < capacity {
                    match spec_oldest_eligible(ops, caller_uid, forced) {
                        Some(k) => {
                            lemma_oldest_eligible_sound(ops, caller_uid, forced);
                            lemma_begin_run_ok_has_operation(
                                ops.remove(k),
                                capacity,
                                caller_uid,
                                forced,
                                created_at,
                                outcomes.drop_first(),
                                (evictions + 1) as usize,
                            );
                        },
                        None => {},
                    }
                }
            },
            _ => {},
        }
    }
}

} // verus!
