//! Device and resource management core of a real-time GPU rendering engine.
//!
//! The library selects a physical GPU, plans a logical device with the queues
//! the renderer needs, negotiates capabilities (extensions, validation
//! layers, device features), plans the presentable image chain, and provides
//! the synchronization and command-recording state machines that let
//! rendering work be issued safely and torn down deterministically.
//!
//! Everything here is plain data and decisions; the layer that talks to the
//! graphics driver converts these models to and from driver handles.

pub mod capability;
pub mod command_buffer;
pub mod command_pool;
pub mod device;
pub mod device_extensions;
pub mod error;
pub mod fence;
pub mod framebuffer;
pub mod instance;
pub mod extensions;
pub mod features;
pub mod physical_device;
pub mod pipeline;
pub mod queues;
pub mod semaphore;
pub mod shader;
pub mod selectors;
pub mod surface;
pub mod swapchain;
pub mod text;
pub mod validation;

use vstd::prelude::*;

verus! {

/// Throws the process-wide debug shutdown switch: every outstanding fence
/// wait resolves, and every fence polled afterwards is reported.
pub fn fence_shutdown(flag: &mut fence::ShutdownFlag)
    ensures
        final(flag).engaged,
{
    flag.engaged = true;
}

} // verus!
