//! The decisions of the queue worker: what to do with a received message
//! once its processing has succeeded or failed.
//!
//! A received message stays invisible until it is deleted or its visibility
//! timeout expires. A message that is left alone therefore comes back for a
//! retry; one that has exhausted its dequeue attempts, or that can never be
//! processed, is moved to the dead-letter queue instead.
use vstd::prelude::*;

verus! {

/// Whether one worker iteration found a message.
#[derive(Debug, Clone, Copy, PartialEq, Eq, Structural)]
pub enum ProcessOnceOutcome {
    /// A message was received and either processed or terminally handled.
    HandledMessage,
    /// No visible message was available in the queue.
    NoMessage,
}

/// A message is dead-lettered once its dequeue count reaches the limit.
pub open spec fn exhausted(dequeue_count: u32, max_dequeue_count: u32) -> bool {
    dequeue_count >= max_dequeue_count
}

/// Whether Azure Queue dequeue attempts have reached the configured limit.
pub fn should_deadletter(dequeue_count: u32, max_dequeue_count: u32) -> (r: bool)
    ensures
        r == exhausted(dequeue_count, max_dequeue_count),
{
    dequeue_count >= max_dequeue_count
}

/// How the processing of a received message ended.
#[derive(Debug, Clone, Copy, PartialEq, Eq, Structural)]
pub enum MessageResult {
    /// The message text is not a valid processing message.
    Malformed,
    /// The message names an ingest row that does not exist.
    MissingIngestLog,
    /// Processing failed for another reason.
    Failed,
    /// Processing completed.
    Processed,
}

/// What the worker does with a message after processing it.
#[derive(Debug, Clone, Copy, PartialEq, Eq, Structural)]
pub enum QueueMessageAction {
    /// Leave the message; it becomes visible again after the timeout, and
    /// the iteration fails with the processing error.
    LeaveForRetry,
    /// Record the failure on the ingest row, then leave the message for a
    /// retry; the iteration fails with the processing error.
    RecordFailureAndRetry,
    /// Move the message to the dead-letter queue (enqueue it there, then
    /// delete the original) without touching the ingest row.
    Deadletter,
    /// Record the ingest row as dead-lettered, then move the message.
    RecordAndDeadletter,
    /// Delete the processed message.
    DeleteProcessed,
}

/// The action for a message whose processing ended with `result`.
pub open spec fn message_action(
    result: MessageResult,
    dequeue_count: u32,
    max_dequeue_count: u32,
) -> QueueMessageAction {
    match result {
        MessageResult::Malformed => if exhausted(dequeue_count, max_dequeue_count) {
            QueueMessageAction::Deadletter
        } else {
            QueueMessageAction::LeaveForRetry
        },
        MessageResult::MissingIngestLog => QueueMessageAction::Deadletter,
        MessageResult::Failed => if exhausted(dequeue_count, max_dequeue_count) {
            QueueMessageAction::RecordAndDeadletter
        } else {
            QueueMessageAction::RecordFailureAndRetry
        },
        MessageResult::Processed => QueueMessageAction::DeleteProcessed,
    }
}

/// Decides what to do with a received message. Malformed messages and
/// messages without an ingest row cannot be recorded in the database;
/// a missing ingest row never resolves, so such a message is dead-lettered
/// at once.
pub fn queue_message_action(
    result: MessageResult,
    dequeue_count: u32,
    max_dequeue_count: u32,
) -> (a: QueueMessageAction)
    ensures
        a == message_action(result, dequeue_count, max_dequeue_count),
{
    match result {
        MessageResult::Malformed => {
            if should_deadletter(dequeue_count, max_dequeue_count) {
                QueueMessageAction::Deadletter
            } else {
                QueueMessageAction::LeaveForRetry
            }
        },
        MessageResult::MissingIngestLog => QueueMessageAction::Deadletter,
        MessageResult::Failed => {
            if should_deadletter(dequeue_count, max_dequeue_count) {
                QueueMessageAction::RecordAndDeadletter
            } else {
                QueueMessageAction::RecordFailureAndRetry
            }
        },
        MessageResult::Processed => QueueMessageAction::DeleteProcessed,
    }
}

/// Whether an action ends the iteration as handled (`Some`) or as the
/// processing error (`None`).
pub open spec fn action_handles(a: QueueMessageAction) -> bool {
    match a {
        QueueMessageAction::LeaveForRetry => false,
        QueueMessageAction::RecordFailureAndRetry => false,
        _ => true,
    }
}

/// The outcome of an iteration that took `action`, or `None` when the
/// iteration fails with the processing error.
pub fn action_outcome(action: QueueMessageAction) -> (r: Option<ProcessOnceOutcome>)
    ensures
        action_handles(action) ==> r == Some(ProcessOnceOutcome::HandledMessage),
        !action_handles(action) ==> r is None,
{
    match action {
        QueueMessageAction::LeaveForRetry => None,
        QueueMessageAction::RecordFailureAndRetry => None,
        _ => Some(ProcessOnceOutcome::HandledMessage),
    }
}

/// The worker keeps polling while it finds messages.
pub fn worker_continues(outcome: ProcessOnceOutcome) -> (r: bool)
    ensures
        r == (outcome == ProcessOnceOutcome::HandledMessage),
{
    match outcome {
        ProcessOnceOutcome::HandledMessage => true,
        ProcessOnceOutcome::NoMessage => false,
    }
}

/// The status recorded for a failure: dead-lettered or failed.
pub fn failure_status_label(deadlettered: bool) -> (r: &'static str)
    ensures
        r@ == (if deadlettered {
            "deadlettered"@
        } else {
            "failed"@
        }),
{
    if deadlettered {
        "deadlettered"
    } else {
        "failed"
    }
}

/// A message is dead-lettered only when its attempts are exhausted or it
/// names a missing ingest row; it is left for retry only while attempts
/// remain; a processed message is always deleted; and a failure on a parsed
/// message is always recorded.
pub proof fn lemma_message_handling(result: MessageResult, dequeue_count: u32, max_dequeue_count: u32)
    ensures
        ({
            let a = message_action(result, dequeue_count, max_dequeue_count);
            &&& (a == QueueMessageAction::Deadletter || a == QueueMessageAction::RecordAndDeadletter)
                ==> (exhausted(dequeue_count, max_dequeue_count) || result
                == MessageResult::MissingIngestLog)
            &&& (a == QueueMessageAction::LeaveForRetry || a
                == QueueMessageAction::RecordFailureAndRetry) ==> !exhausted(
                dequeue_count,
                max_dequeue_count,
            )
            &&& result == MessageResult::Processed <==> a == QueueMessageAction::DeleteProcessed
            &&& result == MessageResult::Failed ==> (a == QueueMessageAction::RecordAndDeadletter
                || a == QueueMessageAction::RecordFailureAndRetry)
        }),
{
}

/// Once a message is handled at some dequeue count, it is handled at every
/// later count: retries stop for good.
pub proof fn lemma_handling_monotone(result: MessageResult, c1: u32, c2: u32, max_dequeue_count: u32)
    requires
        c1 <= c2,
        action_handles(message_action(result, c1, max_dequeue_count)),
    ensures
        action_handles(message_action(result, c2, max_dequeue_count)),
{
}

} // verus!
