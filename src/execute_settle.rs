//! Decisions of the execute-settle task.
//!
//! The task reacts to execution results, checkpoints each new DA height in
//! the sync store, and, when settlement is enabled, submits a commitment for
//! a height only after that height is checkpointed. The caller performs the
//! action that each step returns and reports its outcome as the next event.
use vstd::prelude::*;
use crate::sync_store::DaDB;

verus! {

/// What the execute-settle task is told.
#[derive(Clone, Copy, Debug, PartialEq, Eq, Structural)]
pub enum TaskEvent {
    /// The batch at this DA height was applied to execution state.
    Executed { height: u64 },
    /// Execution failed.
    ExecutionFailed,
    /// The checkpoint that was asked for is durably written.
    CheckpointWritten,
    /// Writing the checkpoint that was asked for failed.
    CheckpointFailed,
    /// The settlement chain accepted the commitment for this height.
    CommitmentAccepted { height: u64 },
    /// The settlement chain rejected the commitment for this height.
    CommitmentRejected { height: u64 },
    /// Submitting the commitment for this height failed.
    SubmissionFailed { height: u64 },
    /// The stream of commitment events ended.
    CommitmentStreamClosed,
    /// The execution input ended: the node shuts down.
    InputClosed,
}

/// Why the execute-settle task stopped with an error.
#[derive(Clone, Copy, Debug, PartialEq, Eq, Structural)]
pub enum TaskError {
    /// Execution failed.
    Execution,
    /// The checkpoint of this height could not be written.
    Checkpoint { height: u64 },
    /// The stream of commitment events closed while settlement was enabled.
    SettlementStreamClosed,
    /// An event came that the task's current phase does not admit.
    UnexpectedEvent,
}

/// What the caller does next.
#[derive(Clone, Copy, Debug, PartialEq, Eq, Structural)]
pub enum TaskAction {
    /// Durably write this height as the synced height, then report the outcome.
    WriteCheckpoint { height: u64 },
    /// Submit the commitment for this (already checkpointed) height.
    SubmitCommitment { height: u64 },
    /// Nothing to do: wait for the next event.
    Continue,
    /// The task ends with success.
    Finish,
    /// The task ends with this error.
    Fail(TaskError),
}

/// The state of the task as its contracts see it.
#[derive(Clone, Copy, Debug, PartialEq, Eq, Structural)]
pub struct TaskModel {
    /// The synced DA height.
    pub synced: u64,
    /// Whether settlement is enabled.
    pub settle: bool,
    /// The height whose checkpoint is being written, if any.
    pub pending: Option<u64>,
    /// Whether the task has stopped.
    pub stopped: bool,
}

/// The stopped state, with the action that ends the task.
pub open spec fn stop(s: TaskModel, action: TaskAction) -> (TaskModel, TaskAction) {
    (TaskModel { stopped: true, ..s }, action)
}

/// How the task reacts to one event.
pub open spec fn next(s: TaskModel, e: TaskEvent) -> (TaskModel, TaskAction) {
    match e {
        TaskEvent::CommitmentAccepted { .. }
        | TaskEvent::CommitmentRejected { .. }
        | TaskEvent::SubmissionFailed { .. } => if s.settle {
            (s, TaskAction::Continue)
        } else {
            stop(s, TaskAction::Fail(TaskError::UnexpectedEvent))
        },
        TaskEvent::CommitmentStreamClosed => if s.settle {
            stop(s, TaskAction::Fail(TaskError::SettlementStreamClosed))
        } else {
            stop(s, TaskAction::Fail(TaskError::UnexpectedEvent))
        },
        _ => match s.pending {
            Some(h) => match e {
                TaskEvent::CheckpointWritten => (
                    TaskModel { synced: h, pending: None, ..s },
                    if s.settle {
                        TaskAction::SubmitCommitment { height: h }
                    } else {
                        TaskAction::Continue
                    },
                ),
                TaskEvent::CheckpointFailed => stop(s, TaskAction::Fail(TaskError::Checkpoint { height: h })),
                _ => stop(s, TaskAction::Fail(TaskError::UnexpectedEvent)),
            },
            None => match e {
                TaskEvent::Executed { height } => if s.synced < height {
                    (
                        TaskModel { pending: Some(height), ..s },
                        TaskAction::WriteCheckpoint { height },
                    )
                } else {
                    (s, TaskAction::Continue)
                },
                TaskEvent::ExecutionFailed => stop(s, TaskAction::Fail(TaskError::Execution)),
                TaskEvent::InputClosed => stop(s, TaskAction::Finish),
                _ => stop(s, TaskAction::Fail(TaskError::UnexpectedEvent)),
            },
        },
    }
}

/// The state reached, and the actions taken, when the events come one after
/// the other; events after the task stopped are not taken.
pub open spec fn run(s: TaskModel, events: Seq<TaskEvent>) -> (TaskModel, Seq<TaskAction>)
    decreases events.len(),
{
    if events.len() == 0 || s.stopped {
        (s, Seq::empty())
    } else {
        let (s1, a) = next(s, events[0]);
        let (sn, rest) = run(s1, events.drop_first());
        (sn, seq![a] + rest)
    }
}

/// The events of batches executed at these heights, each followed by its
/// successful checkpoint.
pub open spec fn batch_events(heights: Seq<u64>) -> Seq<TaskEvent>
    decreases heights.len(),
{
    if heights.len() == 0 {
        Seq::empty()
    } else {
        seq![TaskEvent::Executed { height: heights[0] }, TaskEvent::CheckpointWritten]
            + batch_events(heights.drop_first())
    }
}

/// The heights rise strictly, all above `from`.
pub open spec fn rising_above(heights: Seq<u64>, from: u64) -> bool {
    &&& forall|i: int| 0 <= i < heights.len() ==> from < #[trigger] heights[i]
    &&& forall|i: int, j: int| 0 <= i < j < heights.len() ==> heights[i] < heights[j]
}

/// One executed batch above the synced height, once checkpointed, makes the
/// synced height that batch's height, strictly above the one before; the
/// commitment for it is submitted only then, and only when settling.
pub proof fn lemma_checkpoint_advances(s: TaskModel, height: u64)
    requires
        !s.stopped,
        s.pending is None,
        s.synced < height,
    ensures
        ({
            let (s1, a1) = next(s, TaskEvent::Executed { height });
            let (s2, a2) = next(s1, TaskEvent::CheckpointWritten);
            &&& a1 == TaskAction::WriteCheckpoint { height }
            &&& s1.synced == s.synced
            &&& s2.synced == height
            &&& s.synced < s2.synced
            &&& s2.pending is None
            &&& !s2.stopped
            &&& s2.settle == s.settle
            &&& a2 == if s.settle {
                TaskAction::SubmitCommitment { height }
            } else {
                TaskAction::Continue
            }
        }),
{
}

/// A run of batches at strictly rising heights above the synced height
/// leaves the synced height at the last batch's height.
pub proof fn lemma_batches_advance_to_last(s: TaskModel, heights: Seq<u64>)
    requires
        !s.stopped,
        s.pending is None,
        heights.len() > 0,
        rising_above(heights, s.synced),
    ensures
        run(s, batch_events(heights)).0.synced == heights.last(),
        run(s, batch_events(heights)).0.pending is None,
        !run(s, batch_events(heights)).0.stopped,
    decreases heights.len(),
{
    let h = heights[0];
    let rest = heights.drop_first();
    let ev = batch_events(heights);
    assert(ev.drop_first() =~= seq![TaskEvent::CheckpointWritten] + batch_events(rest));
    assert(ev.drop_first().drop_first() =~= batch_events(rest));
    lemma_checkpoint_advances(s, h);
    let s1 = next(s, TaskEvent::Executed { height: h }).0;
    let s2 = next(s1, TaskEvent::CheckpointWritten).0;
    assert(ev[0] == TaskEvent::Executed { height: h });
    assert(run(s, ev).0 == run(s1, ev.drop_first()).0);
    assert(ev.drop_first()[0] == TaskEvent::CheckpointWritten);
    assert(run(s1, ev.drop_first()).0 == run(s2, batch_events(rest)).0);
    if rest.len() == 0 {
        assert(batch_events(rest) =~= Seq::<TaskEvent>::empty());
    } else {
        assert(rising_above(rest, s2.synced)) by {
            assert forall|i: int| 0 <= i < rest.len() implies s2.synced < #[trigger] rest[i] by {
                assert(heights[0] < heights[i + 1]);
            }
            assert forall|i: int, j: int| 0 <= i < j < rest.len() implies rest[i] < rest[j] by {
                assert(heights[i + 1] < heights[j + 1]);
            }
        }
        lemma_batches_advance_to_last(s2, rest);
        assert(rest.last() == heights.last());
    }
}

/// With settlement disabled, no run of events, whatever they are, submits a
/// commitment.
pub proof fn lemma_no_settlement_no_submission(s: TaskModel, events: Seq<TaskEvent>)
    requires
        !s.settle,
    ensures
        forall|i: int|
            0 <= i < run(s, events).1.len() ==> !(#[trigger] run(s, events).1[i] is SubmitCommitment),
    decreases events.len(),
{
    if events.len() == 0 || s.stopped {
    } else {
        let (s1, a) = next(s, events[0]);
        lemma_no_settlement_no_submission(s1, events.drop_first());
        let acts = run(s, events).1;
        assert forall|i: int| 0 <= i < acts.len() implies !(#[trigger] acts[i] is SubmitCommitment) by {
            if i > 0 {
                assert(acts[i] == run(s1, events.drop_first()).1[i - 1]);
            }
        }
    }
}

/// A checkpoint being written is always above the synced height.
pub open spec fn pending_above(s: TaskModel) -> bool {
    s.pending matches Some(h) ==> s.synced < h
}

/// Whatever the events, the synced height never decreases, and it changes
/// only to the height whose checkpoint was being written.
pub proof fn lemma_synced_never_decreases(s: TaskModel, events: Seq<TaskEvent>)
    requires
        pending_above(s),
    ensures
        s.synced <= run(s, events).0.synced,
        pending_above(run(s, events).0),
    decreases events.len(),
{
    if events.len() == 0 || s.stopped {
    } else {
        let s1 = next(s, events[0]).0;
        assert(s1.synced == s.synced || s.pending == Some(s1.synced));
        assert(pending_above(s1));
        lemma_synced_never_decreases(s1, events.drop_first());
    }
}

/// The execute-settle task: owns the sync store and whether to settle.
pub struct ExecuteSettle {
    db: DaDB,
    settle: bool,
    pending: Option<u64>,
    stopped: bool,
}

impl View for ExecuteSettle {
    type V = TaskModel;

    closed spec fn view(&self) -> TaskModel {
        TaskModel {
            synced: self.db@.unwrap(),
            settle: self.settle,
            pending: self.pending,
            stopped: self.stopped,
        }
    }
}

impl ExecuteSettle {
    pub closed spec fn wf(&self) -> bool {
        &&& self.db@ is Some
        &&& self.pending matches Some(h) ==> self.db@.unwrap() < h
    }

    /// A well-formed task never has a checkpoint pending at or below its
    /// synced height.
    pub proof fn lemma_wf_pending_above(&self)
        requires
            self.wf(),
        ensures
            pending_above(self@),
    {
    }

    /// The store's content, as the task leaves it.
    pub closed spec fn store(&self) -> Option<u64> {
        self.db@
    }

    /// A task that resumes from the store's synced height.
    pub fn new(db: DaDB, settle: bool) -> (r: ExecuteSettle)
        requires
            db@ is Some,
        ensures
            r.wf(),
            r@ == (TaskModel { synced: db@.unwrap(), settle, pending: None, stopped: false }),
    {
        ExecuteSettle { db, settle, pending: None, stopped: false }
    }

    /// The synced DA height.
    pub fn synced_height(&self) -> (r: u64)
        requires
            self.wf(),
        ensures
            r == self@.synced,
    {
        match self.db.get_synced_height() {
            Some(h) => h,
            None => 0,
        }
    }

    /// Whether the task has stopped.
    pub fn is_stopped(&self) -> (r: bool)
        ensures
            r == self@.stopped,
    {
        self.stopped
    }

    /// Hands back the sync store.
    pub fn into_store(self) -> (r: DaDB)
        requires
            self.wf(),
        ensures
            r@ == Some(self@.synced),
    {
        self.db
    }

    /// Reacts to one event and says what to do next.
    pub fn step(&mut self, e: TaskEvent) -> (r: TaskAction)
        requires
            old(self).wf(),
            !old(self)@.stopped,
        ensures
            final(self).wf(),
            (final(self)@, r) == next(old(self)@, e),
    {
        match e {
            TaskEvent::CommitmentAccepted { .. }
            | TaskEvent::CommitmentRejected { .. }
            | TaskEvent::SubmissionFailed { .. } => {
                if self.settle {
                    TaskAction::Continue
                } else {
                    self.stopped = true;
                    TaskAction::Fail(TaskError::UnexpectedEvent)
                }
            },
            TaskEvent::CommitmentStreamClosed => {
                self.stopped = true;
                if self.settle {
                    TaskAction::Fail(TaskError::SettlementStreamClosed)
                } else {
                    TaskAction::Fail(TaskError::UnexpectedEvent)
                }
            },
            _ => match self.pending {
                Some(h) => match e {
                    TaskEvent::CheckpointWritten => {
                        let written = self.db.set_synced_height(h);
                        assert(written is Ok);
                        self.pending = None;
                        if self.settle {
                            TaskAction::SubmitCommitment { height: h }
                        } else {
                            TaskAction::Continue
                        }
                    },
                    TaskEvent::CheckpointFailed => {
                        self.stopped = true;
                        TaskAction::Fail(TaskError::Checkpoint { height: h })
                    },
                    _ => {
                        self.stopped = true;
                        TaskAction::Fail(TaskError::UnexpectedEvent)
                    },
                },
                None => match e {
                    TaskEvent::Executed { height } => {
                        if self.synced_height() < height {
                            self.pending = Some(height);
                            TaskAction::WriteCheckpoint { height }
                        } else {
                            TaskAction::Continue
                        }
                    },
                    TaskEvent::ExecutionFailed => {
                        self.stopped = true;
                        TaskAction::Fail(TaskError::Execution)
                    },
                    TaskEvent::InputClosed => {
                        self.stopped = true;
                        TaskAction::Finish
                    },
                    _ => {
                        self.stopped = true;
                        TaskAction::Fail(TaskError::UnexpectedEvent)
                    },
                },
            },
        }
    }
}

} // verus!
