//! The fence state machine: a host-visible GPU completion signal. A fence is
//! created signaled, must be reset before reuse, and is in exactly one of two
//! states — Ready (owned and queryable) or Waiting (its handle is with a
//! background waiter until the GPU signals or the shutdown flag is observed).
//! While Waiting it must not be queried, reset or destroyed.

use vstd::prelude::*;
use vstd::string::StringExecFns;

use crate::error::VulkanResult;

verus! {

/// The process-wide debug-only shutdown switch: set once during orderly
/// shutdown so outstanding fence waits resolve, read by every waiter, never
/// reset.
#[derive(Debug, Clone, Copy, PartialEq, Eq, Structural)]
pub struct ShutdownFlag {
    pub engaged: bool,
}

impl ShutdownFlag {
    pub fn new() -> (r: Self)
        ensures
            !r.engaged,
    {
        ShutdownFlag { engaged: false }
    }
}

/// Whether the shutdown switch has been thrown.
pub fn check_shutdown(flag: &ShutdownFlag) -> (r: bool)
    ensures
        r == flag.engaged,
{
    flag.engaged
}

/// Where the fence's handle currently is.
#[derive(Debug, Clone, Copy, PartialEq, Eq, Structural)]
pub enum FenceState {
    /// The owner holds the handle and may query, reset or destroy it.
    Ready,
    /// The handle is with a background waiter; the owner must not touch it.
    Waiting,
}

/// What one poll of a fence decided.
#[derive(Debug, Clone, Copy, PartialEq, Eq, Structural)]
pub enum FencePoll {
    /// The awaited work is over (or shutdown resolved the wait); when the
    /// wait ended because of shutdown, the poll is reported, not fatal.
    Ready { polled_after_shutdown: bool },
    /// The fence was not signaled; a waiter now holds the handle and will
    /// wake the task.
    Pending,
}

/// A fence as the owner sees it: which state it is in, whether the driver
/// last reported it signaled, and its debug name.
#[derive(Debug, Clone, PartialEq, Eq)]
pub struct Fence {
    pub state: FenceState,
    pub signaled: bool,
    pub name: String,
}

/// What creation guarantees: a fresh fence is Ready and already signaled, so
/// nothing dangles on first use.
pub open spec fn fence_created(f: Fence) -> bool {
    f.state is Ready && f.signaled && f.name@.len() == 0
}

/// What `reset` does: the fence stays Ready and reports not-signaled.
pub open spec fn fence_reset_step(pre: Fence, post: Fence) -> bool {
    &&& pre.state is Ready
    &&& post.state is Ready
    &&& !post.signaled
    &&& post.name == pre.name
}

/// What handing the fence to a waiter does: the fence moves to Waiting with
/// nothing else changed.
pub open spec fn fence_start_wait_step(pre: Fence, post: Fence) -> bool {
    &&& pre.state is Ready
    &&& post.state is Waiting
    &&& post.signaled == pre.signaled
    &&& post.name == pre.name
}

/// What the waiter's return does: the fence is Ready again, and records
/// whether the GPU had signaled it.
pub open spec fn fence_finish_wait_step(pre: Fence, post: Fence, gpu_signaled: bool) -> bool {
    &&& pre.state is Waiting
    &&& post.state is Ready
    &&& post.signaled == gpu_signaled
    &&& post.name == pre.name
}

impl Fence {
    /// A fence created in the signaled state: ready at birth.
    pub fn new() -> (r: Self)
        ensures
            fence_created(r),
    {
        Fence { state: FenceState::Ready, signaled: true, name: String::new() }
    }

    /// Explicitly un-signals a fence before reusing it for new GPU work.
    /// Resetting a fence that is with a waiter is excluded: the owner must
    /// not touch the handle while it is away.
    pub fn reset(&mut self)
        requires
            old(self).state is Ready,
        ensures
            fence_reset_step(*old(self), *final(self)),
    {
        self.signaled = false;
    }

    pub fn is_ready(&self) -> (r: bool)
        ensures
            r == (self.state is Ready),
    {
        match self.state {
            FenceState::Ready => true,
            FenceState::Waiting => false,
        }
    }

    /// The driver's last reported completion status. Querying a fence that
    /// is with a waiter is excluded.
    pub fn is_signaled(&self) -> (r: bool)
        requires
            self.state is Ready,
        ensures
            r == self.signaled,
    {
        self.signaled
    }

    /// Hands the handle to a background waiter. Starting a second wait on a
    /// fence that is already being waited for is excluded.
    pub fn start_wait(&mut self)
        requires
            old(self).state is Ready,
        ensures
            fence_start_wait_step(*old(self), *final(self)),
    {
        self.state = FenceState::Waiting;
    }

    /// Takes the handle back from the waiter, recording whether the GPU had
    /// signaled the fence when the wait ended.
    pub fn finish_wait(&mut self, gpu_signaled: bool)
        requires
            old(self).state is Waiting,
        ensures
            fence_finish_wait_step(*old(self), *final(self), gpu_signaled),
    {
        self.state = FenceState::Ready;
        self.signaled = gpu_signaled;
    }

    pub fn set_name(&mut self, name: &str)
        ensures
            final(self).name@ == name@,
            final(self).state == old(self).state,
            final(self).signaled == old(self).signaled,
    {
        self.name = name.to_owned();
    }

    /// The debug report for a fence polled after the shutdown switch was
    /// thrown: reported, never fatal.
    pub fn polled_after_shutdown(&self) -> (r: String)
        ensures
            r@ == "Fence \""@ + self.name@ + "\" was polled after shutdown!"@,
    {
        let s = "Fence \"".to_owned();
        let s = s.concat(self.name.as_str());
        let s = s.concat("\" was polled after shutdown!");
        proof {
            assert(s@ =~= "Fence \""@ + self.name@ + "\" was polled after shutdown!"@);
        }
        s
    }

    /// One poll of the fence as an awaitable. The caller reports what the
    /// driver said (`driver_signaled`) and whether the shutdown switch was
    /// observed. A fence whose handle is with a waiter is joined and becomes
    /// Ready, reporting when that happened after shutdown; a Ready fence
    /// completes at once when signaled, and otherwise hands its handle to a
    /// waiter and suspends the task.
    pub fn poll(&mut self, driver_signaled: bool, shutdown: bool) -> (r: FencePoll)
        ensures
            final(self).name == old(self).name,
            old(self).state is Waiting ==> fence_finish_wait_step(
                *old(self),
                *final(self),
                driver_signaled,
            ) && r == (FencePoll::Ready { polled_after_shutdown: shutdown }),
            old(self).state is Ready && driver_signaled ==> final(self).state is Ready
                && final(self).signaled && r == (FencePoll::Ready {
                polled_after_shutdown: false,
            }),
            old(self).state is Ready && !driver_signaled ==> fence_start_wait_step(
                *old(self),
                *final(self),
            ) && r == FencePoll::Pending,
    {
        match self.state {
            FenceState::Waiting => {
                self.finish_wait(driver_signaled);
                FencePoll::Ready { polled_after_shutdown: shutdown }
            },
            FenceState::Ready => {
                if driver_signaled {
                    self.signaled = true;
                    FencePoll::Ready { polled_after_shutdown: false }
                } else {
                    self.start_wait();
                    FencePoll::Pending
                }
            },
        }
    }
}

/// What one iteration of the background waiter does next.
#[derive(Debug, Clone, Copy, PartialEq, Eq, Structural)]
pub enum WaiterStep {
    /// The wait is over (the GPU signaled, or shutdown was observed): return
    /// the handle and wake the suspended task.
    Stop,
    /// The bounded wait timed out and shutdown is not engaged: wait again.
    Continue,
    /// The driver reported a failure the design cannot continue past.
    Fatal,
}

/// Decides one iteration of the fence waiter loop from the decoded result of
/// the bounded wait and the shutdown observation: shutdown ends the wait, a
/// completed wait ends it, a timeout waits again, and any other driver
/// result is fatal.
pub fn waiter_step(wait_result: &Result<(), VulkanResult>, shutdown: bool) -> (r: WaiterStep)
    ensures
        shutdown ==> r == WaiterStep::Stop,
        !shutdown && wait_result is Ok ==> r == WaiterStep::Stop,
        !shutdown && wait_result is Err && wait_result->Err_0 == VulkanResult::Timeout ==> r
            == WaiterStep::Continue,
        !shutdown && wait_result is Err && wait_result->Err_0 != VulkanResult::Timeout ==> r
            == WaiterStep::Fatal,
{
    if shutdown {
        return WaiterStep::Stop;
    }
    match wait_result {
        Ok(()) => WaiterStep::Stop,
        Err(error) => {
            if *error == VulkanResult::Timeout {
                WaiterStep::Continue
            } else {
                WaiterStep::Fatal
            }
        },
    }
}

/// Fence round trip: a freshly created fence is immediately ready and
/// signaled; after a reset it reports not-signaled, and stays so while its
/// one waiter holds the handle; when the GPU work completes and the wait is
/// consumed, the fence is Ready and signaled again — the wait cycle resolves
/// exactly once, through the single Waiting-to-Ready step.
pub proof fn lemma_fence_round_trip(created: Fence, after_reset: Fence, waiting: Fence, done: Fence)
    requires
        fence_created(created),
        fence_reset_step(created, after_reset),
        fence_start_wait_step(after_reset, waiting),
        fence_finish_wait_step(waiting, done, true),
    ensures
        created.state is Ready && created.signaled,
        after_reset.state is Ready && !after_reset.signaled,
        waiting.state is Waiting && !waiting.signaled,
        done.state is Ready && done.signaled,
        done.name == created.name,
{
}

} // verus!
