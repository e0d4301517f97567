use wknup::command_buffer::{
    Command, CommandBuffer, CommandBufferState, CommandBufferStateError, DrawInfo,
};
use wknup::command_pool::{CommandPool, CommandPoolCreationError};
use wknup::device::Device;
use wknup::framebuffer::Framebuffer;
use wknup::pipeline::RenderPass;
use wknup::surface::{Extent2d, SurfaceFormat};
use wknup::swapchain::{Swapchain, SwapchainPlan, SharingMode};

fn test_swapchain() -> Swapchain {
    let plan = SwapchainPlan {
        format: SurfaceFormat { format: 50, color_space: 0 },
        present_mode: 2,
        extent: Extent2d { width: 640, height: 480 },
        min_image_count: 3,
        pre_transform: 1,
        sharing_mode: SharingMode::Exclusive,
        queue_family_indices: Vec::new(),
    };
    Swapchain::new(&plan, 3)
}

#[test]
fn draw_before_begin_fails_and_leaves_initial() {
    let mut buffer = CommandBuffer::new();
    let err = buffer.cmd_draw(DrawInfo::default()).unwrap_err();
    assert_eq!(err, CommandBufferStateError(CommandBufferState::Initial));
    assert_eq!(buffer.state, CommandBufferState::Initial);
    assert!(buffer.commands.is_empty());
}

#[test]
fn operations_outside_recording_fail_with_current_state() {
    let swapchain = test_swapchain();
    let render_pass = RenderPass::new(&swapchain);
    let framebuffer = Framebuffer::new(&render_pass, Extent2d { width: 640, height: 480 }, 0);
    let extent = Extent2d { width: 640, height: 480 };

    let mut buffer = CommandBuffer::new();
    buffer.begin().unwrap();
    buffer.end().unwrap();
    // the buffer is Executable now: every recording operation is rejected
    // with that state and nothing changes
    let before = buffer.clone();
    let expected = CommandBufferStateError(CommandBufferState::Executable);
    assert_eq!(buffer.cmd_begin_render_pass(&render_pass, &framebuffer).unwrap_err(), expected);
    assert_eq!(buffer.cmd_set_viewport(extent).unwrap_err(), expected);
    assert_eq!(buffer.cmd_set_scissor(extent).unwrap_err(), expected);
    assert_eq!(buffer.cmd_draw(DrawInfo::default()).unwrap_err(), expected);
    assert_eq!(buffer.cmd_end_render_pass().unwrap_err(), expected);
    assert_eq!(buffer.end().unwrap_err(), expected);
    assert_eq!(buffer, before);
    assert_eq!(
        expected.message(),
        "Invalid command buffer state: Executable"
    );
}

#[test]
fn begin_allows_rerecording_from_executable_only() {
    let mut buffer = CommandBuffer::new();
    buffer.begin().unwrap();
    // beginning again while Recording is rejected
    let err = buffer.begin().unwrap_err();
    assert_eq!(err, CommandBufferStateError(CommandBufferState::Recording));
    buffer.end().unwrap();
    // re-recording from Executable is allowed
    assert!(buffer.begin().is_ok());
    assert_eq!(buffer.state, CommandBufferState::Recording);
}

#[test]
fn full_recording_session() {
    let swapchain = test_swapchain();
    let render_pass = RenderPass::new(&swapchain);
    let framebuffer = Framebuffer::new(&render_pass, Extent2d { width: 640, height: 480 }, 0);
    let extent = Extent2d { width: 640, height: 480 };
    let draw = DrawInfo { vertex_count: 3, instance_count: 1, first_vertex: 0, first_instance: 0 };

    let mut buffer = CommandBuffer::new();
    buffer.begin().unwrap();
    buffer.cmd_begin_render_pass(&render_pass, &framebuffer).unwrap();
    buffer.cmd_set_viewport(extent).unwrap();
    buffer.cmd_set_scissor(extent).unwrap();
    buffer.cmd_draw(draw).unwrap();
    buffer.cmd_end_render_pass().unwrap();
    buffer.end().unwrap();

    assert_eq!(buffer.state, CommandBufferState::Executable);
    assert_eq!(
        buffer.commands,
        vec![
            Command::BeginRenderPass { render_area: extent },
            Command::SetViewport { extent },
            Command::SetScissor { extent },
            Command::Draw { info: draw },
            Command::EndRenderPass,
        ]
    );
    // the render pass and framebuffer are retained while the buffer lives
    assert_eq!(buffer.markers.len(), 2);
}

#[test]
fn command_pool_checks_queue_family_bounds() {
    let device = Device::new(vec![1, 1]);
    let pool = CommandPool::new(&device, 1).unwrap();
    assert_eq!(pool.queue_family_index, 1);
    let buffer = pool.allocate_command_buffer();
    assert_eq!(buffer.state, CommandBufferState::Initial);

    let err = CommandPool::new(&device, 2).unwrap_err();
    assert_eq!(err, CommandPoolCreationError::InvalidQueueFamily(2, 2));
    assert_eq!(err.message(), "queue family index is out of range for this device");
}
