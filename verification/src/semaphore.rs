//! Semaphores: GPU-side synchronization handles that order work between
//! queue submissions. The host never inspects one; it only passes them to
//! submit and present calls.

use vstd::prelude::*;

verus! {

/// An opaque ordering token, remembered by the handle the driver returned.
#[derive(Debug, Clone, Copy, PartialEq, Eq, Structural)]
pub struct Semaphore {
    pub handle: u64,
}

impl Semaphore {
    pub fn new(handle: u64) -> (r: Self)
        ensures
            r.handle == handle,
    {
        Semaphore { handle }
    }
}

} // verus!
