//! Synchronization primitives: semaphores and fences.

use vstd::prelude::*;
use crate::flags::Handle;

verus! {

/// Errors while creating a semaphore
#[derive(Debug, Clone, Copy, PartialEq, Eq, Structural)]
pub enum SemaphoreError {
    Create,
}

/// Text that describes `e`.
pub open spec fn semaphore_error_text(e: SemaphoreError) -> Seq<char> {
    "Failed to create semaphore (vkCreateSemaphore call failed)"@
}

impl SemaphoreError {
    /// Human readable description of the error
    pub fn message(&self) -> (r: &'static str)
        ensures
            r@ == semaphore_error_text(*self),
    {
        "Failed to create semaphore (vkCreateSemaphore call failed)"
    }
}

/// Errors while creating a fence
#[derive(Debug, Clone, Copy, PartialEq, Eq, Structural)]
pub enum FenceError {
    Create,
}

/// Text that describes `e`.
pub open spec fn fence_error_text(e: FenceError) -> Seq<char> {
    "Failed to create fence (vkCreateFence call failed)"@
}

impl FenceError {
    /// Human readable description of the error
    pub fn message(&self) -> (r: &'static str)
        ensures
            r@ == fence_error_text(*self),
    {
        "Failed to create fence (vkCreateFence call failed)"
    }
}

/// Creation flags of a fence: created signaled (`SIGNALED`) or not.
pub open spec fn spec_fence_flags(signaled: bool) -> u32 {
    if signaled { 1 } else { 0 }
}

/// A fence starts signaled exactly when asked to: its flags are the `SIGNALED` bit then,
/// and empty otherwise.
pub proof fn lemma_fence_flags(signaled: bool)
    ensures
        spec_fence_flags(signaled) == 1 <==> signaled,
        spec_fence_flags(signaled) == 0 <==> !signaled,
{
}

/// A semaphore
#[derive(Debug, Clone, Copy, PartialEq, Eq, Structural)]
pub struct Semaphore {
    i_semaphore: Handle,
}

impl Semaphore {
    pub closed spec fn spec_semaphore(&self) -> Handle { self.i_semaphore }

    /// Semaphore `semaphore`
    pub fn new(semaphore: Handle) -> (r: Semaphore)
        ensures
            r.spec_semaphore() == semaphore,
    {
        Semaphore { i_semaphore: semaphore }
    }

    /// Semaphore handle
    pub fn semaphore(&self) -> (r: Handle)
        ensures
            r == self.spec_semaphore(),
    {
        self.i_semaphore
    }
}

/// A fence
#[derive(Debug, Clone, Copy, PartialEq, Eq, Structural)]
pub struct Fence {
    i_fence: Handle,
}

impl Fence {
    pub closed spec fn spec_fence(&self) -> Handle { self.i_fence }

    /// Creation flags of a fence that starts signaled or not
    pub fn flags(signaled: bool) -> (r: u32)
        ensures
            r == spec_fence_flags(signaled),
            signaled ==> r == 1,
            !signaled ==> r == 0,
    {
        if signaled { 1 } else { 0 }
    }

    /// Fence `fence`
    pub fn new(fence: Handle) -> (r: Fence)
        ensures
            r.spec_fence() == fence,
    {
        Fence { i_fence: fence }
    }

    /// Fence handle
    pub fn fence(&self) -> (r: Handle)
        ensures
            r == self.spec_fence(),
    {
        self.i_fence
    }
}

} // verus!
