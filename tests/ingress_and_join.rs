use std::collections::VecDeque;

use movement_node::{
    Ingress, IngressAction, IngressError, IngressEvent, JoinFailure, Supervisor, Unit,
    UnitOutcome, TRANSACTION_CHANNEL_CAPACITY,
};

#[test]
fn batches_forwarded_in_order() {
    let batches: Vec<String> = (1..=5).map(|i| format!("batch-{}", i)).collect();
    let (mut task, first) = Ingress::<String>::new();
    assert!(matches!(first, IngressAction::Pull));
    let mut forwarded = Vec::new();
    for b in batches.clone() {
        match task.step(IngressEvent::Batch(b)) {
            IngressAction::Forward(x) => forwarded.push(x),
            other => panic!("unexpected action {:?}", other),
        }
        assert!(matches!(task.step(IngressEvent::Sent), IngressAction::Pull));
    }
    assert_eq!(forwarded, batches);
    assert!(matches!(task.step(IngressEvent::StreamEnded), IngressAction::Finish));
    assert!(task.is_stopped());
}

#[test]
fn saturated_channel_loses_no_batch() {
    let total: u64 = 40;
    let mut channel: VecDeque<u64> = VecDeque::new();
    let mut received_by_executor: Vec<u64> = Vec::new();
    let (mut task, mut action) = Ingress::<u64>::new();
    let mut next_batch: u64 = 0;
    let mut waiting: Option<u64> = None;
    let mut stalled = true;
    let mut rounds = 0;
    while received_by_executor.len() < total as usize {
        rounds += 1;
        assert!(rounds < 10_000);
        if let Some(b) = waiting.take() {
            if channel.len() < TRANSACTION_CHANNEL_CAPACITY {
                channel.push_back(b);
                action = task.step(IngressEvent::Sent);
            } else {
                waiting = Some(b);
                // The send waits, so the task is not asked to pull.
                assert!(!matches!(action, IngressAction::Pull));
                stalled = false;
            }
        } else {
            match action {
                IngressAction::Pull if next_batch < total => {
                    action = task.step(IngressEvent::Batch(next_batch));
                    next_batch += 1;
                }
                IngressAction::Pull => {}
                IngressAction::Forward(b) => {
                    waiting = Some(b);
                    action = IngressAction::Forward(b);
                }
                other => panic!("unexpected action {:?}", other),
            }
        }
        if !stalled {
            if let Some(b) = channel.pop_front() {
                received_by_executor.push(b);
            }
        }
    }
    assert_eq!(received_by_executor, (0..total).collect::<Vec<u64>>());
}

#[test]
fn read_error_fails_ingress() {
    let (mut task, _) = Ingress::<u8>::new();
    assert!(matches!(
        task.step(IngressEvent::StreamFailed),
        IngressAction::Fail(IngressError::Ingestion)
    ));
    assert!(task.is_stopped());
}

#[test]
fn closed_channel_is_normal_shutdown() {
    let (mut task, _) = Ingress::<u8>::new();
    assert!(matches!(task.step(IngressEvent::Batch(1)), IngressAction::Forward(1)));
    assert!(matches!(task.step(IngressEvent::ChannelClosed), IngressAction::Finish));
}

#[test]
fn out_of_phase_event_fails_ingress() {
    let (mut task, _) = Ingress::<u8>::new();
    assert!(matches!(
        task.step(IngressEvent::Sent),
        IngressAction::Fail(IngressError::UnexpectedEvent)
    ));
    let (mut task, _) = Ingress::<u8>::new();
    task.step(IngressEvent::Batch(3));
    assert!(matches!(
        task.step(IngressEvent::Batch(4)),
        IngressAction::Fail(IngressError::UnexpectedEvent)
    ));
}

#[test]
fn ingress_failure_reported_after_all_units_finish() {
    let mut s: Supervisor<&'static str> = Supervisor::new();
    s.record(Unit::TransactionIngress, UnitOutcome::Failed("E"));
    assert!(!s.is_complete());
    s.record(Unit::ApiServices, UnitOutcome::Completed);
    s.record(Unit::ExecuteSettle, UnitOutcome::Failed("later"));
    assert!(!s.is_complete());
    assert!(!s.is_finished(Unit::ExecutionBackground));
    s.record(Unit::ExecutionBackground, UnitOutcome::Panicked);
    assert!(s.is_complete());
    match s.result() {
        Some(Err(JoinFailure::Failed(Unit::TransactionIngress, e))) => assert_eq!(e, "E"),
        other => panic!("unexpected result {:?}", other),
    }
}

#[test]
fn join_incomplete_gives_no_result() {
    let mut s: Supervisor<&'static str> = Supervisor::new();
    s.record(Unit::ExecuteSettle, UnitOutcome::Completed);
    assert!(s.is_finished(Unit::ExecuteSettle));
    assert!(s.result().is_none());
}

#[test]
fn join_all_succeed() {
    let mut s: Supervisor<&'static str> = Supervisor::new();
    s.record(Unit::ApiServices, UnitOutcome::Completed);
    s.record(Unit::ExecutionBackground, UnitOutcome::Completed);
    s.record(Unit::TransactionIngress, UnitOutcome::Completed);
    s.record(Unit::ExecuteSettle, UnitOutcome::Completed);
    assert!(matches!(s.result(), Some(Ok(()))));
}

#[test]
fn join_reports_first_panic_in_completion_order() {
    let mut s: Supervisor<&'static str> = Supervisor::new();
    s.record(Unit::ApiServices, UnitOutcome::Completed);
    s.record(Unit::ExecutionBackground, UnitOutcome::Panicked);
    s.record(Unit::ExecuteSettle, UnitOutcome::Failed("exec"));
    s.record(Unit::TransactionIngress, UnitOutcome::Completed);
    assert!(matches!(
        s.result(),
        Some(Err(JoinFailure::Panicked(Unit::ExecutionBackground)))
    ));
}
