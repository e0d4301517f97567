//! Command pools: the per-queue-family allocator that recordable command
//! buffers come from. A pool is scoped to one queue family of the device it
//! was created on; creating one for a family the device does not have is a
//! recoverable error.

use vstd::prelude::*;

use crate::command_buffer::{CommandBuffer, CommandBufferState};
use crate::device::Device;

verus! {

/// Why creating a command pool failed.
#[derive(Debug, Clone, Copy, PartialEq, Eq, Structural)]
pub enum CommandPoolCreationError {
    /// The requested queue family index, and the number of families the
    /// device actually has.
    InvalidQueueFamily(usize, usize),
}

impl CommandPoolCreationError {
    pub fn message(&self) -> (r: String)
        ensures
            r@ == "queue family index is out of range for this device"@,
    {
        "queue family index is out of range for this device".to_owned()
    }
}

/// An allocator of command buffers, scoped to one queue family.
#[derive(Debug, Clone, Copy, PartialEq, Eq, Structural)]
pub struct CommandPool {
    pub queue_family_index: u32,
}

impl CommandPool {
    /// Creates a pool for one queue family of `device`; the family index
    /// must name one of the device's families.
    pub fn new(device: &Device, queue_family_index: u32) -> (r: Result<
        CommandPool,
        CommandPoolCreationError,
    >)
        ensures
            r is Ok <==> (queue_family_index as int) < device.queue_counts@.len(),
            r is Ok ==> r->Ok_0.queue_family_index == queue_family_index,
            r is Err ==> r == Err::<CommandPool, CommandPoolCreationError>(
                CommandPoolCreationError::InvalidQueueFamily(
                    queue_family_index as usize,
                    device.queue_counts@.len() as usize,
                ),
            ),
    {
        if queue_family_index as usize >= device.get_queue_family_count() {
            return Err(
                CommandPoolCreationError::InvalidQueueFamily(
                    queue_family_index as usize,
                    device.get_queue_family_count(),
                ),
            );
        }
        Ok(CommandPool { queue_family_index })
    }

    /// Allocates one fresh primary command buffer from the pool.
    pub fn allocate_command_buffer(&self) -> (r: CommandBuffer)
        ensures
            r.state == CommandBufferState::Initial,
            r.commands@.len() == 0,
            r.markers@.len() == 0,
    {
        CommandBuffer::new()
    }
}

} // verus!
