use wknup::instance::{make_api_version, InstanceBuilder, InstanceInitError};
use wknup::pipeline::GraphicsPipelineBuilder;
use wknup::command_buffer::{Command, CommandBufferState, DrawInfo};
use wknup::command_pool::CommandPool;
use wknup::device::Device;
use wknup::fence::Fence;
use wknup::queues::Queue;
use wknup::semaphore::Semaphore;
use wknup::shader::{MissingShaderStageError, ShaderModule, ShaderStage, ShaderStageInfo};
use wknup::surface::{Extent2d, SurfaceFormat};
use wknup::swapchain::{SharingMode, Swapchain, SwapchainPlan};

fn names(list: &[&str]) -> Vec<String> {
    list.iter().map(|s| s.to_string()).collect()
}

#[test]
fn api_version_packs_fields() {
    assert_eq!(make_api_version(0, 1, 0, 0), 0x400000);
    assert_eq!(make_api_version(0, 1, 1, 0), 0x401000);
    assert_eq!(make_api_version(1, 2, 3, 4), 0x20000000 + 2 * 0x400000 + 3 * 0x1000 + 4);
}

#[test]
fn instance_build_negotiates_extensions_and_layers() {
    let builder = InstanceBuilder::new()
        .extensions(names(&["VK_KHR_surface"]))
        .validation_layers(names(&["VK_LAYER_KHRONOS_validation"]))
        .application_props("demo".to_string(), 1)
        .api_version(make_api_version(0, 1, 1, 0));
    let plan = builder
        .build(
            names(&["VK_KHR_surface", "VK_EXT_debug_utils"]),
            names(&["VK_LAYER_KHRONOS_validation"]),
            true,
        )
        .unwrap();
    assert_eq!(plan.enabled_extensions, names(&["VK_KHR_surface", "VK_EXT_debug_utils"]));
    assert_eq!(plan.enabled_layers, names(&["VK_LAYER_KHRONOS_validation"]));
    assert_eq!(plan.api_version, 0x401000);
    assert_eq!(plan.application_name, "demo");
    assert_eq!(plan.application_version, 1);
}

#[test]
fn instance_build_release_skips_layers_and_debug_extension() {
    let builder = InstanceBuilder::new().extensions(names(&["VK_KHR_surface"]));
    let plan = builder.build(names(&["VK_KHR_surface"]), Vec::new(), false).unwrap();
    assert_eq!(plan.enabled_extensions, names(&["VK_KHR_surface"]));
    assert!(plan.enabled_layers.is_empty());
}

#[test]
fn instance_build_reports_what_is_missing() {
    let builder = InstanceBuilder::new().extensions(names(&["VK_KHR_surface"]));
    let err = builder.build(Vec::new(), Vec::new(), false).unwrap_err();
    match err {
        InstanceInitError::ExtensionUnavailable(e) => assert_eq!(e.extension, "VK_KHR_surface"),
        other => panic!("unexpected error: {:?}", other),
    }

    let builder = InstanceBuilder::new().validation_layers(names(&["VK_LAYER_missing"]));
    let err = builder.build(names(&["VK_EXT_debug_utils"]), Vec::new(), true).unwrap_err();
    match err {
        InstanceInitError::ValidationLayerUnavailable(e) => assert_eq!(e.layer, "VK_LAYER_missing"),
        other => panic!("unexpected error: {:?}", other),
    }

    let builder = InstanceBuilder::new().application_props("bad\0name".to_string(), 1);
    let err = builder.build(Vec::new(), Vec::new(), false).unwrap_err();
    assert_eq!(err, InstanceInitError::InvalidName);
}

fn test_swapchain() -> Swapchain {
    let plan = SwapchainPlan {
        format: SurfaceFormat { format: 50, color_space: 0 },
        present_mode: 2,
        extent: Extent2d { width: 640, height: 480 },
        min_image_count: 3,
        pre_transform: 1,
        sharing_mode: SharingMode::Exclusive,
        queue_family_indices: Vec::new(),
    };
    Swapchain::new(&plan, 2)
}

fn stage(kind: ShaderStage, handle: u64) -> ShaderStageInfo {
    ShaderStageInfo::new(ShaderModule::new(handle), kind, "main".to_string())
}

#[test]
fn pipeline_requires_vertex_and_fragment_stages() {
    let device = Device::new(vec![1]);
    let pool = CommandPool::new(&device, 0).unwrap();
    let builder = GraphicsPipelineBuilder::new(test_swapchain(), pool);
    let err = builder.build().unwrap_err();
    assert_eq!(err, MissingShaderStageError { stage: ShaderStage::Vertex });

    let builder = GraphicsPipelineBuilder::new(test_swapchain(), pool)
        .add_stage("vert".to_string(), stage(ShaderStage::Vertex, 7));
    let err = builder.build().unwrap_err();
    assert_eq!(err, MissingShaderStageError { stage: ShaderStage::Fragment });
    assert_eq!(err.message(), "a required shader stage is missing");
}

#[test]
fn pipeline_prerecords_one_buffer_per_framebuffer() {
    let device = Device::new(vec![1]);
    let pool = CommandPool::new(&device, 0).unwrap();
    let pipeline = GraphicsPipelineBuilder::new(test_swapchain(), pool)
        .add_stage("vert".to_string(), stage(ShaderStage::Vertex, 7))
        .add_stage("frag".to_string(), stage(ShaderStage::Fragment, 8))
        .build()
        .unwrap();
    assert_eq!(pipeline.render_pass.format, 50);
    assert_eq!(pipeline.framebuffers.len(), 2);
    assert_eq!(pipeline.framebuffers[0].attachment_index, 0);
    assert_eq!(pipeline.framebuffers[1].attachment_index, 1);
    assert_eq!(pipeline.command_buffers.len(), 2);
    let extent = Extent2d { width: 640, height: 480 };
    let buffer = pipeline.get_command_buffer(0);
    assert_eq!(buffer.state, CommandBufferState::Executable);
    assert_eq!(
        buffer.commands,
        vec![
            Command::BeginRenderPass { render_area: extent },
            Command::BindPipeline,
            Command::SetViewport { extent },
            Command::SetScissor { extent },
            Command::Draw {
                info: DrawInfo {
                    vertex_count: 3,
                    instance_count: 1,
                    first_vertex: 0,
                    first_instance: 0,
                },
            },
            Command::EndRenderPass,
        ]
    );
}

#[test]
fn add_stage_replaces_same_name() {
    let device = Device::new(vec![1]);
    let pool = CommandPool::new(&device, 0).unwrap();
    let builder = GraphicsPipelineBuilder::new(test_swapchain(), pool)
        .add_stage("s".to_string(), stage(ShaderStage::Vertex, 7))
        .add_stage("s".to_string(), stage(ShaderStage::Compute, 9));
    assert_eq!(builder.shader_stages.len(), 1);
    assert_eq!(builder.shader_stages[0].1.stage, ShaderStage::Compute);
}

#[test]
fn submit_resets_supplied_fence() {
    let queue = Queue::new(0, 0);
    let buffer = {
        let mut b = wknup::command_buffer::CommandBuffer::new();
        b.begin().unwrap();
        b.end().unwrap();
        b
    };
    let wait = vec![Semaphore::new(11)];
    let signal = vec![Semaphore::new(22)];
    let mask = vec![1024];
    let mut fence = Some(Fence::new());
    let info = queue.submit_command_buffer(&buffer, &wait, &signal, &mask, &mut fence);
    assert!(info.fenced);
    assert_eq!(info.wait_semaphores, vec![11]);
    assert_eq!(info.signal_semaphores, vec![22]);
    assert_eq!(info.wait_dst_stage_mask, vec![1024]);
    let fence = fence.unwrap();
    assert!(fence.is_ready());
    assert!(!fence.is_signaled());

    let mut unfenced = None;
    let info = queue.submit_command_buffer(&buffer, &wait, &signal, &mask, &mut unfenced);
    assert!(!info.fenced);

    let present = queue.present(&test_swapchain(), 1, &wait);
    assert_eq!(present.image_index, 1);
    assert_eq!(present.wait_semaphores, vec![11]);
}
