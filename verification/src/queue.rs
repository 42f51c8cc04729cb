//! Queues: command buffer execution and image presentation.
//!
//! Executing a buffer creates a fence, submits the buffer, waits for the fence and destroys
//! it. [`Queue::exec_step`] decides each step from the outcome of the one before.

use vstd::prelude::*;
use crate::flags::{Handle, PipelineStage};

verus! {

/// Errors of queue operations
#[derive(Debug, Clone, Copy, PartialEq, Eq, Structural)]
pub enum QueueError {
    /// Failed to submit to the queue
    Execution,
    /// Failed to create the fence
    Fence,
    /// Execution took longer than allowed
    Timeout,
    /// Failed to present an image of a swapchain
    Present,
}

/// Text that describes `e`.
pub open spec fn queue_error_text(e: QueueError) -> Seq<char> {
    match e {
        QueueError::Execution => "vkQueueSubmit call failed"@,
        QueueError::Fence => "vkCreateFence call failed"@,
        QueueError::Timeout => "Execution time exceeded the timeout"@,
        QueueError::Present => "vkQueuePresentKHR call failed"@,
    }
}

impl QueueError {
    /// Human readable description of the error
    pub fn message(&self) -> (r: &'static str)
        ensures
            r@ == queue_error_text(*self),
    {
        match self {
            QueueError::Execution => "vkQueueSubmit call failed",
            QueueError::Fence => "vkCreateFence call failed",
            QueueError::Timeout => "Execution time exceeded the timeout",
            QueueError::Present => "vkQueuePresentKHR call failed",
        }
    }
}

/// Errors of a compute queue
#[derive(Debug, Clone, Copy, PartialEq, Eq, Structural)]
pub enum ComputeQueueError {
    CommandPool,
    CommandBuffers,
    BufferInit,
    Submit,
    Fence,
    Execution,
    Timeout,
}

/// What queue to get: `family_index` must be one of the families of the device and
/// `queue_index` must be less than the family's queue count
#[derive(Debug, Clone, Copy, PartialEq, Eq, Structural)]
pub struct QueueCfg {
    pub family_index: u32,
    pub queue_index: u32,
}

/// What to execute: an executable buffer, after the `wait` semaphores at `wait_stage`,
/// signalling the `signal` semaphores, waiting at most `timeout` nanoseconds
#[derive(Debug, Clone, Copy)]
pub struct ExecInfo<'a> {
    pub buffer: Handle,
    pub wait_stage: PipelineStage,
    pub timeout: u64,
    pub wait: &'a [Handle],
    pub signal: &'a [Handle],
}

/// What to present: image `image_index` of a swapchain, after the `wait` semaphores
#[derive(Debug, Clone, Copy)]
pub struct PresentInfo<'a> {
    pub swapchain: Handle,
    pub image_index: u32,
    pub wait: &'a [Handle],
}

/// Where an execution stands
#[derive(Debug, Clone, Copy, PartialEq, Eq, Structural)]
pub enum ExecState {
    /// No fence yet
    Begin,
    /// The fence was created
    FenceCreated(Handle),
    /// The buffer was submitted with the fence
    Submitted(Handle),
    /// Nothing is left to do
    Done,
}

/// Outcome of the last step
#[derive(Debug, Clone, Copy, PartialEq, Eq, Structural)]
pub enum ExecEvent {
    /// The fence, or nothing when its creation failed
    Fence(Option<Handle>),
    /// Whether the submission succeeded
    Submit(bool),
    /// Whether the fence was signalled in time
    Wait(bool),
}

/// Next step of an execution
#[derive(Debug, Clone, Copy)]
pub enum ExecAction {
    /// Submit the buffer with the fence
    Submit(Handle),
    /// Wait for the fence
    Wait(Handle),
    /// Destroy the fence, if any, and return the result
    Finish(Option<Handle>, Result<(), QueueError>),
}

/// The event may follow the state.
pub open spec fn exec_event_fits(state: ExecState, event: ExecEvent) -> bool {
    match (state, event) {
        (ExecState::Begin, ExecEvent::Fence(_)) => true,
        (ExecState::FenceCreated(_), ExecEvent::Submit(_)) => true,
        (ExecState::Submitted(_), ExecEvent::Wait(_)) => true,
        _ => false,
    }
}

/// Next state and step of an execution after `event`.
pub open spec fn spec_exec_step(state: ExecState, event: ExecEvent) -> (ExecState, ExecAction) {
    match (state, event) {
        (ExecState::Begin, ExecEvent::Fence(None)) =>
            (ExecState::Done, ExecAction::Finish(None, Err(QueueError::Fence))),
        (ExecState::Begin, ExecEvent::Fence(Some(f))) =>
            (ExecState::FenceCreated(f), ExecAction::Submit(f)),
        (ExecState::FenceCreated(f), ExecEvent::Submit(false)) =>
            (ExecState::Done, ExecAction::Finish(Some(f), Err(QueueError::Execution))),
        (ExecState::FenceCreated(f), ExecEvent::Submit(true)) =>
            (ExecState::Submitted(f), ExecAction::Wait(f)),
        (ExecState::Submitted(f), ExecEvent::Wait(false)) =>
            (ExecState::Done, ExecAction::Finish(Some(f), Err(QueueError::Timeout))),
        (ExecState::Submitted(f), ExecEvent::Wait(true)) =>
            (ExecState::Done, ExecAction::Finish(Some(f), Ok(()))),
        _ => (ExecState::Done, ExecAction::Finish(None, Err(QueueError::Execution))),
    }
}

/// A queue of the device
#[derive(Debug, Clone, Copy, PartialEq, Eq, Structural)]
pub struct Queue {
    i_queue: Handle,
}

impl Queue {
    pub closed spec fn spec_queue(&self) -> Handle { self.i_queue }

    /// Queue `queue`
    pub fn new(queue: Handle) -> (r: Queue)
        ensures
            r.spec_queue() == queue,
    {
        Queue { i_queue: queue }
    }

    /// Queue handle
    pub fn queue(&self) -> (r: Handle)
        ensures
            r == self.spec_queue(),
    {
        self.i_queue
    }

    /// Next state and step of an execution after `event`: a missing fence fails with
    /// `Fence`; a failed submission with `Execution`; a late fence with `Timeout`; every
    /// created fence is destroyed when the execution finishes
    pub fn exec_step(state: ExecState, event: ExecEvent) -> (r: (ExecState, ExecAction))
        requires
            exec_event_fits(state, event),
        ensures
            r == spec_exec_step(state, event),
    {
        match (state, event) {
            (ExecState::Begin, ExecEvent::Fence(None)) =>
                (ExecState::Done, ExecAction::Finish(None, Err(QueueError::Fence))),
            (ExecState::Begin, ExecEvent::Fence(Some(f))) =>
                (ExecState::FenceCreated(f), ExecAction::Submit(f)),
            (ExecState::FenceCreated(f), ExecEvent::Submit(ok)) =>
                if ok {
                    (ExecState::Submitted(f), ExecAction::Wait(f))
                } else {
                    (ExecState::Done, ExecAction::Finish(Some(f), Err(QueueError::Execution)))
                },
            (ExecState::Submitted(f), ExecEvent::Wait(ok)) =>
                if ok {
                    (ExecState::Done, ExecAction::Finish(Some(f), Ok(())))
                } else {
                    (ExecState::Done, ExecAction::Finish(Some(f), Err(QueueError::Timeout)))
                },
            _ => (ExecState::Done, ExecAction::Finish(None, Err(QueueError::Execution))),
        }
    }

    /// Result of a presentation: `Present` when it failed
    pub fn present_result(presented: bool) -> (r: Result<(), QueueError>)
        ensures
            r == if presented { Ok::<(), QueueError>(()) } else { Err(QueueError::Present) },
    {
        if presented { Ok(()) } else { Err(QueueError::Present) }
    }
}

/// An execution succeeds exactly when its fence was signalled in time after a submission,
/// and each failure names the step that failed: no fence, a refused submission, or a fence
/// that was not signalled in time.
pub proof fn lemma_exec_outcome(state: ExecState, event: ExecEvent)
    requires
        exec_event_fits(state, event),
    ensures
        spec_exec_step(state, event).1 matches ExecAction::Finish(_, Ok(())) <==>
            (state is Submitted && event == ExecEvent::Wait(true)),
        event == ExecEvent::Fence(None) ==> spec_exec_step(state, event).1 == ExecAction::Finish(None, Err(QueueError::Fence)),
        event == ExecEvent::Submit(false) ==> spec_exec_step(state, event).1 matches ExecAction::Finish(_, Err(QueueError::Execution)),
        event == ExecEvent::Wait(false) ==> spec_exec_step(state, event).1 matches ExecAction::Finish(_, Err(QueueError::Timeout)),
        !(spec_exec_step(state, event).1 is Finish) ==> spec_exec_step(state, event).0 != ExecState::Done,
{
}

/// The fence an execution holds, if any.
pub open spec fn held_fence(state: ExecState) -> Option<Handle> {
    match state {
        ExecState::FenceCreated(f) | ExecState::Submitted(f) => Some(f),
        _ => None,
    }
}

/// No fence leaks: a step that finishes destroys exactly the fence the execution holds,
/// and a step that does not finish keeps holding it.
pub proof fn lemma_exec_releases_fence(state: ExecState, event: ExecEvent, next: ExecState, action: ExecAction)
    requires
        exec_event_fits(state, event),
        held_fence(state) is Some || state == ExecState::Begin,
        (next, action) == spec_exec_step(state, event),
    ensures
        action matches ExecAction::Finish(destroy, _) ==> destroy == held_fence(state) && next == ExecState::Done,
        !(action is Finish) ==> held_fence(next) is Some
            && (state != ExecState::Begin ==> held_fence(next) == held_fence(state)),
{
}

} // verus!
