use wknup::error::VulkanResult;
use wknup::fence::{check_shutdown, waiter_step, Fence, FencePoll, FenceState, ShutdownFlag, WaiterStep};
use wknup::fence_shutdown;

#[test]
fn fresh_fence_is_ready_and_signaled() {
    let fence = Fence::new();
    assert!(fence.is_ready());
    assert!(fence.is_signaled());
}

#[test]
fn fence_round_trip() {
    // created signaled; reset reports not-signaled until the GPU work
    // completes; consuming the wait leaves it Ready and signaled again
    let mut fence = Fence::new();
    fence.reset();
    assert!(fence.is_ready());
    assert!(!fence.is_signaled());
    fence.start_wait();
    assert!(!fence.is_ready());
    fence.finish_wait(true);
    assert!(fence.is_ready());
    assert!(fence.is_signaled());
}

#[test]
fn poll_completes_immediately_when_signaled() {
    let mut fence = Fence::new();
    let poll = fence.poll(true, false);
    assert_eq!(poll, FencePoll::Ready { polled_after_shutdown: false });
    assert!(fence.is_ready());
}

#[test]
fn poll_suspends_then_wakes() {
    let mut fence = Fence::new();
    fence.reset();
    // the driver reports not-signaled: the fence hands its handle to a
    // waiter and the task suspends
    let poll = fence.poll(false, false);
    assert_eq!(poll, FencePoll::Pending);
    assert_eq!(fence.state, FenceState::Waiting);
    // the waiter returns after the GPU signals: the next poll completes and
    // the fence is Ready again
    let poll = fence.poll(true, false);
    assert_eq!(poll, FencePoll::Ready { polled_after_shutdown: false });
    assert_eq!(fence.state, FenceState::Ready);
    assert!(fence.is_signaled());
}

#[test]
fn shutdown_resolves_pending_wait_and_is_reported() {
    let mut flag = ShutdownFlag::new();
    assert!(!check_shutdown(&flag));

    let mut fence = Fence::new();
    fence.set_name("frame");
    fence.reset();
    assert_eq!(fence.poll(false, check_shutdown(&flag)), FencePoll::Pending);
    assert_eq!(fence.state, FenceState::Waiting);

    // the debug shutdown switch is thrown while the fence is Waiting: the
    // wait resolves without panicking, and the poll is reported
    fence_shutdown(&mut flag);
    assert!(check_shutdown(&flag));
    let poll = fence.poll(false, check_shutdown(&flag));
    assert_eq!(poll, FencePoll::Ready { polled_after_shutdown: true });
    assert_eq!(fence.state, FenceState::Ready);
    assert_eq!(
        fence.polled_after_shutdown(),
        "Fence \"frame\" was polled after shutdown!"
    );
}

#[test]
fn waiter_loop_decisions() {
    // a completed bounded wait ends the loop
    assert_eq!(waiter_step(&Ok(()), false), WaiterStep::Stop);
    // a timeout waits again, re-checking the shutdown switch each iteration
    assert_eq!(waiter_step(&Err(VulkanResult::Timeout), false), WaiterStep::Continue);
    // shutdown ends the wait whatever the driver said
    assert_eq!(waiter_step(&Err(VulkanResult::Timeout), true), WaiterStep::Stop);
    assert_eq!(waiter_step(&Ok(()), true), WaiterStep::Stop);
    // any other driver result is fatal
    assert_eq!(waiter_step(&Err(VulkanResult::ErrorDeviceLost), false), WaiterStep::Fatal);
}
