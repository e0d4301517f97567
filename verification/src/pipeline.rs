//! Graphics pipeline planning: the render pass a pipeline draws through, the
//! shader stages it is built from (a vertex and a fragment stage are
//! mandatory), the framebuffers over the chain's image views, and the
//! pre-recorded command buffers that draw into them.

use vstd::prelude::*;

use crate::command_buffer::{Command, CommandBuffer, CommandBufferState, DrawInfo};
use crate::command_pool::CommandPool;
use crate::framebuffer::Framebuffer;
use crate::shader::{MissingShaderStageError, ShaderStage, ShaderStageInfo};
use crate::surface::Extent2d;
use crate::swapchain::Swapchain;

verus! {

/// A render pass: the description of how rendering output attaches to the
/// chain's images. It remembers the color format of the chain it targets.
#[derive(Debug, Clone, Copy, PartialEq, Eq, Structural)]
pub struct RenderPass {
    pub format: u32,
}

impl RenderPass {
    pub fn new(swapchain: &Swapchain) -> (r: Self)
        ensures
            r.format == swapchain.format.format,
    {
        RenderPass { format: swapchain.format.format }
    }
}

/// Whether no two registered stages share a name.
pub open spec fn unique_stage_names(stages: Seq<(String, ShaderStageInfo)>) -> bool {
    forall|i: int, j: int| 0 <= i < j < stages.len() ==> stages[i].0@ != stages[j].0@
}

/// Whether some registered stage runs in `stage`.
pub open spec fn spec_has_stage(stages: Seq<(String, ShaderStageInfo)>, stage: ShaderStage) -> bool {
    exists|i: int| 0 <= i < stages.len() && stages[i].1.stage == stage
}

/// The commands one pre-recorded buffer holds: a render pass over the
/// framebuffer, the pipeline bind, viewport and scissor covering the chain,
/// and one three-vertex draw.
pub open spec fn spec_recorded_commands(render_area: Extent2d, view: Extent2d) -> Seq<Command> {
    seq![
        Command::BeginRenderPass { render_area },
        Command::BindPipeline,
        Command::SetViewport { extent: view },
        Command::SetScissor { extent: view },
        Command::Draw {
            info: DrawInfo {
                vertex_count: 3,
                instance_count: 1,
                first_vertex: 0,
                first_instance: 0,
            },
        },
        Command::EndRenderPass,
    ]
}

/// Collects what a graphics pipeline is built from.
#[derive(Debug, Clone, PartialEq, Eq)]
pub struct GraphicsPipelineBuilder {
    pub swapchain: Swapchain,
    pub command_pool: CommandPool,
    pub shader_stages: Vec<(String, ShaderStageInfo)>,
}

impl GraphicsPipelineBuilder {
    pub fn new(swapchain: Swapchain, command_pool: CommandPool) -> (r: Self)
        ensures
            r.swapchain == swapchain,
            r.command_pool == command_pool,
            r.shader_stages@.len() == 0,
    {
        GraphicsPipelineBuilder { swapchain, command_pool, shader_stages: Vec::new() }
    }

    /// Registers a shader stage under a name; a stage already registered
    /// under that name is replaced.
    pub fn add_stage(self, name: String, stage: ShaderStageInfo) -> (r: Self)
        requires
            unique_stage_names(self.shader_stages@),
        ensures
            unique_stage_names(r.shader_stages@),
            r.swapchain == self.swapchain,
            r.command_pool == self.command_pool,
            exists|i: int|
                0 <= i < r.shader_stages@.len() && r.shader_stages@[i].0@ == name@
                    && r.shader_stages@[i].1 == stage,
            forall|i: int|
                0 <= i < self.shader_stages@.len() && self.shader_stages@[i].0@ != name@
                    ==> r.shader_stages@.contains(self.shader_stages@[i]),
            forall|i: int|
                0 <= i < r.shader_stages@.len() ==> (r.shader_stages@[i].0@ == name@
                    && r.shader_stages@[i].1 == stage) || (self.shader_stages@.contains(
                    r.shader_stages@[i],
                ) && r.shader_stages@[i].0@ != name@),
    {
        let mut stages = self.shader_stages;
        let ghost old_stages = stages@;
        let mut k: usize = 0;
        while k < stages.len()
            invariant
                k <= stages@.len(),
                stages@ == old_stages,
                old_stages == self.shader_stages@,
                unique_stage_names(old_stages),
                forall|m: int| 0 <= m < k ==> stages@[m].0@ != name@,
            decreases stages@.len() - k,
        {
            if stages.get(k).unwrap().0 == name {
                let ghost matched = k as int;
                stages.set(k, (name, stage));
                proof {
                    assert(stages@[matched].0@ == name@ && stages@[matched].1 == stage);
                    assert(forall|i: int|
                        0 <= i < old_stages.len() && i != matched ==> stages@[i]
                            == old_stages[i]);
                    assert(old_stages[matched].0@ == name@);
                    assert forall|i: int|
                        0 <= i < old_stages.len() && old_stages[i].0@ != name@ implies stages@.contains(
                        old_stages[i],
                    ) by {
                        assert(i != matched);
                        assert(stages@[i] == old_stages[i]);
                    }
                    assert forall|i: int|
                        0 <= i < stages@.len() && i != matched implies old_stages.contains(
                        stages@[i],
                    ) && stages@[i].0@ != name@ by {
                        assert(stages@[i] == old_stages[i]);
                        if old_stages[i].0@ == name@ {
                            if i < matched {
                                assert(old_stages[i].0@ != old_stages[matched].0@);
                            } else {
                                assert(old_stages[matched].0@ != old_stages[i].0@);
                            }
                        }
                    }
                }
                return GraphicsPipelineBuilder {
                    swapchain: self.swapchain,
                    command_pool: self.command_pool,
                    shader_stages: stages,
                };
            }
            k = k + 1;
        }
        stages.push((name, stage));
        proof {
            assert(stages@[old_stages.len() as int].0@ == name@);
            assert(stages@[old_stages.len() as int].1 == stage);
            assert(forall|i: int| 0 <= i < old_stages.len() ==> stages@[i] == old_stages[i]);
            assert(forall|i: int| 0 <= i < old_stages.len() ==> old_stages[i].0@ != name@);
            assert forall|i: int|
                0 <= i < old_stages.len() && old_stages[i].0@ != name@ implies stages@.contains(
                old_stages[i],
            ) by {
                assert(stages@[i] == old_stages[i]);
            }
            assert forall|i: int|
                0 <= i < stages@.len() && i < old_stages.len() implies old_stages.contains(
                stages@[i],
            ) by {
                assert(stages@[i] == old_stages[i]);
            }
        }
        GraphicsPipelineBuilder {
            swapchain: self.swapchain,
            command_pool: self.command_pool,
            shader_stages: stages,
        }
    }

    /// `Ok` exactly when some registered stage runs in `stage`.
    pub fn require_stage(&self, stage: ShaderStage) -> (r: Result<(), MissingShaderStageError>)
        ensures
            r is Ok <==> spec_has_stage(self.shader_stages@, stage),
            r is Err ==> r->Err_0.stage == stage,
    {
        let mut i: usize = 0;
        while i < self.shader_stages.len()
            invariant
                i <= self.shader_stages@.len(),
                forall|m: int| 0 <= m < i ==> self.shader_stages@[m].1.stage != stage,
            decreases self.shader_stages@.len() - i,
        {
            let entry = self.shader_stages.get(i).unwrap();
            if entry.1.stage() == stage {
                return Ok(());
            }
            i = i + 1;
        }
        Err(MissingShaderStageError { stage })
    }

    /// Builds the pipeline: a vertex and a fragment stage must both be
    /// registered. The pipeline draws through a render pass in the chain's
    /// format, owns one framebuffer per chain image view, and pre-records
    /// one command buffer per framebuffer.
    pub fn build(self) -> (r: Result<GraphicsPipeline, MissingShaderStageError>)
        ensures
            r is Ok <==> spec_has_stage(self.shader_stages@, ShaderStage::Vertex)
                && spec_has_stage(self.shader_stages@, ShaderStage::Fragment),
            r is Err ==> (!spec_has_stage(self.shader_stages@, ShaderStage::Vertex) && r->Err_0.stage
                == ShaderStage::Vertex) || (spec_has_stage(self.shader_stages@, ShaderStage::Vertex)
                && !spec_has_stage(self.shader_stages@, ShaderStage::Fragment) && r->Err_0.stage
                == ShaderStage::Fragment),
            r is Ok ==> {
                let p = r->Ok_0;
                &&& p.swapchain == self.swapchain
                &&& p.command_pool == self.command_pool
                &&& p.shader_stages == self.shader_stages
                &&& p.render_pass.format == self.swapchain.format.format
                &&& p.framebuffers@.len() == self.swapchain.view_count
                &&& (forall|i: int|
                    0 <= i < p.framebuffers@.len() ==> p.framebuffers@[i].extent
                        == self.swapchain.extent && p.framebuffers@[i].format
                        == p.render_pass.format && p.framebuffers@[i].attachment_index == i)
                &&& p.command_buffers@.len() == p.framebuffers@.len()
                &&& (forall|i: int|
                    0 <= i < p.command_buffers@.len() ==> p.command_buffers@[i].state
                        == CommandBufferState::Executable && p.command_buffers@[i].commands@
                        == spec_recorded_commands(self.swapchain.extent, self.swapchain.extent))
            },
    {
        match self.require_stage(ShaderStage::Vertex) {
            Ok(()) => {},
            Err(e) => {
                return Err(e);
            },
        }
        match self.require_stage(ShaderStage::Fragment) {
            Ok(()) => {},
            Err(e) => {
                return Err(e);
            },
        }
        let render_pass = RenderPass::new(&self.swapchain);
        let mut pipeline = GraphicsPipeline {
            swapchain: self.swapchain,
            command_pool: self.command_pool,
            shader_stages: self.shader_stages,
            render_pass,
            framebuffers: Vec::new(),
            command_buffers: Vec::new(),
        };
        pipeline.create_framebuffers();
        pipeline.create_command_buffers();
        Ok(pipeline)
    }
}

/// A built graphics pipeline with the resources it keeps alive: its render
/// pass, one framebuffer per chain image view, and the pre-recorded command
/// buffers that draw into them.
#[derive(Debug, Clone, PartialEq, Eq)]
pub struct GraphicsPipeline {
    pub swapchain: Swapchain,
    pub command_pool: CommandPool,
    pub shader_stages: Vec<(String, ShaderStageInfo)>,
    pub render_pass: RenderPass,
    pub framebuffers: Vec<Framebuffer>,
    pub command_buffers: Vec<CommandBuffer>,
}

impl GraphicsPipeline {
    /// Builds one framebuffer per chain image view, each covering the
    /// chain's extent.
    pub fn create_framebuffers(&mut self)
        ensures
            final(self).framebuffers@.len() == old(self).swapchain.view_count,
            forall|i: int|
                0 <= i < final(self).framebuffers@.len() ==> final(self).framebuffers@[i].extent
                    == old(self).swapchain.extent && final(self).framebuffers@[i].format == old(self).render_pass.format && final(self).framebuffers@[i].attachment_index == i,
            final(self).swapchain == old(self).swapchain,
            final(self).command_pool == old(self).command_pool,
            final(self).shader_stages == old(self).shader_stages,
            final(self).render_pass == old(self).render_pass,
            final(self).command_buffers == old(self).command_buffers,
    {
        let framebuffers = self.swapchain.create_framebuffers(&self.render_pass);
        self.framebuffers = framebuffers;
    }

    /// Allocates and pre-records one command buffer per framebuffer: each is
    /// recorded from Initial to Executable with the render pass, pipeline
    /// bind, viewport, scissor and a three-vertex draw.
    pub fn create_command_buffers(&mut self)
        ensures
            final(self).command_buffers@.len() == old(self).framebuffers@.len(),
            forall|i: int|
                0 <= i < final(self).command_buffers@.len() ==> final(self).command_buffers@[i].state == CommandBufferState::Executable && final(self).command_buffers@[i].commands@ == spec_recorded_commands(
                    old(self).framebuffers@[i].extent,
                    old(self).swapchain.extent,
                ),
            final(self).swapchain == old(self).swapchain,
            final(self).command_pool == old(self).command_pool,
            final(self).shader_stages == old(self).shader_stages,
            final(self).render_pass == old(self).render_pass,
            final(self).framebuffers == old(self).framebuffers,
    {
        let mut command_buffers: Vec<CommandBuffer> = Vec::new();
        let n = self.framebuffers.len();
        let mut i: usize = 0;
        while i < n
            invariant
                i <= n,
                n == self.framebuffers@.len(),
                command_buffers@.len() == i,
                forall|k: int|
                    0 <= k < i ==> command_buffers@[k].state == CommandBufferState::Executable
                        && command_buffers@[k].commands@ == spec_recorded_commands(
                        self.framebuffers@[k].extent,
                        self.swapchain.extent,
                    ),
            decreases n - i,
        {
            let framebuffer = self.framebuffers.get(i).unwrap();
            let mut command_buffer = self.command_pool.allocate_command_buffer();
            command_buffer.begin().unwrap();
            command_buffer.cmd_begin_render_pass(&self.render_pass, framebuffer).unwrap();
            command_buffer.cmd_bind_graphics_pipeline(&*self).unwrap();
            let (viewport, scissor) = self.swapchain.make_viewport().unwrap();
            command_buffer.cmd_set_viewport(viewport).unwrap();
            command_buffer.cmd_set_scissor(scissor).unwrap();
            command_buffer.cmd_draw(
                DrawInfo { vertex_count: 3, instance_count: 1, first_vertex: 0, first_instance: 0 },
            ).unwrap();
            command_buffer.cmd_end_render_pass().unwrap();
            command_buffer.end().unwrap();
            proof {
                assert(command_buffer.commands@ =~= spec_recorded_commands(
                    self.framebuffers@[i as int].extent,
                    self.swapchain.extent,
                ));
            }
            command_buffers.push(command_buffer);
            i = i + 1;
        }
        self.command_buffers = command_buffers;
    }

    /// The pre-recorded buffer for one chain image.
    pub fn get_command_buffer(&self, index: u32) -> (r: &CommandBuffer)
        requires
            (index as int) < self.command_buffers@.len(),
        ensures
            *r == self.command_buffers@[index as int],
    {
        self.command_buffers.get(index as usize).unwrap()
    }
}

} // verus!
