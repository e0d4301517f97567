//! The command buffer recording state machine. A buffer moves through
//! Initial, Recording, Executable, Pending and Invalid; `begin` is valid only
//! from Initial or Executable (re-recording), the recording operations only
//! while Recording, and `end` only while Recording. An operation attempted
//! outside its valid state fails with the current state and changes nothing:
//! a local, recoverable error. While recording, the buffer retains
//! shared-ownership markers on the render pass, framebuffer and pipeline it
//! references, so they cannot be torn down while it might still execute.

use vstd::prelude::*;
use vstd::string::StringExecFns;

use crate::framebuffer::Framebuffer;
use crate::pipeline::{GraphicsPipeline, RenderPass};
use crate::surface::Extent2d;

verus! {

/// Arguments of one draw call.
#[derive(Debug, Clone, Copy, PartialEq, Eq, Structural)]
pub struct DrawInfo {
    pub vertex_count: u32,
    pub instance_count: u32,
    pub first_vertex: u32,
    pub first_instance: u32,
}

impl Default for DrawInfo {
    fn default() -> (r: Self)
        ensures
            r.vertex_count == 0,
            r.instance_count == 0,
            r.first_vertex == 0,
            r.first_instance == 0,
    {
        DrawInfo { vertex_count: 0, instance_count: 0, first_vertex: 0, first_instance: 0 }
    }
}

/// The recording state of a command buffer.
#[derive(Debug, Clone, Copy, PartialEq, Eq, Structural)]
pub enum CommandBufferState {
    Initial,
    Recording,
    Executable,
    Pending,
    Invalid,
}

impl CommandBufferState {
    /// The state's display name.
    pub open spec fn spec_name(self) -> Seq<char> {
        match self {
            CommandBufferState::Initial => "Initial"@,
            CommandBufferState::Recording => "Recording"@,
            CommandBufferState::Executable => "Executable"@,
            CommandBufferState::Pending => "Pending"@,
            CommandBufferState::Invalid => "Invalid"@,
        }
    }

    pub fn name(&self) -> (r: String)
        ensures
            r@ == self.spec_name(),
    {
        match self {
            CommandBufferState::Initial => "Initial".to_owned(),
            CommandBufferState::Recording => "Recording".to_owned(),
            CommandBufferState::Executable => "Executable".to_owned(),
            CommandBufferState::Pending => "Pending".to_owned(),
            CommandBufferState::Invalid => "Invalid".to_owned(),
        }
    }
}

/// The error returned when an operation is issued in a state that does not
/// allow it; it carries the state the buffer was in, which is unchanged.
#[derive(Debug, Clone, Copy, PartialEq, Eq, Structural)]
pub struct CommandBufferStateError(pub CommandBufferState);

impl CommandBufferStateError {
    pub fn message(&self) -> (r: String)
        ensures
            r@ == "Invalid command buffer state: "@ + self.0.spec_name(),
    {
        let s = "Invalid command buffer state: ".to_owned();
        let name = self.0.name();
        let s = s.concat(name.as_str());
        proof {
            assert(s@ =~= "Invalid command buffer state: "@ + self.0.spec_name());
        }
        s
    }
}

/// One recorded command.
#[derive(Debug, Clone, Copy, PartialEq, Eq, Structural)]
pub enum Command {
    BeginRenderPass { render_area: Extent2d },
    BindPipeline,
    SetViewport { extent: Extent2d },
    SetScissor { extent: Extent2d },
    Draw { info: DrawInfo },
    EndRenderPass,
}

/// A shared-ownership marker the buffer retains while it might execute.
#[derive(Debug, Clone, Copy, PartialEq, Eq, Structural)]
pub enum ResourceMarker {
    RenderPass,
    Framebuffer,
    Pipeline,
}

/// A command buffer: its recording state, the commands recorded so far, and
/// the markers on the resources those commands reference.
#[derive(Debug, Clone, PartialEq, Eq)]
pub struct CommandBuffer {
    pub state: CommandBufferState,
    pub commands: Vec<Command>,
    pub markers: Vec<ResourceMarker>,
}

/// Whether `begin` is allowed in this state: a fresh buffer or a recorded
/// one being re-recorded.
pub open spec fn can_begin(s: CommandBufferState) -> bool {
    s == CommandBufferState::Initial || s == CommandBufferState::Executable
}

impl CommandBuffer {
    /// A freshly allocated buffer: Initial, with nothing recorded.
    pub fn new() -> (r: Self)
        ensures
            r.state == CommandBufferState::Initial,
            r.commands@.len() == 0,
            r.markers@.len() == 0,
    {
        CommandBuffer {
            state: CommandBufferState::Initial,
            commands: Vec::new(),
            markers: Vec::new(),
        }
    }

    /// Starts (or restarts) recording: the buffer is implicitly reset, so a
    /// new session records from nothing. Valid only from Initial or
    /// Executable; any other state is rejected unchanged.
    pub fn begin(&mut self) -> (r: Result<(), CommandBufferStateError>)
        ensures
            can_begin(old(self).state) ==> r is Ok && final(self).state
                == CommandBufferState::Recording && final(self).commands@.len() == 0
                && final(self).markers@.len() == 0,
            !can_begin(old(self).state) ==> r == Err::<(), CommandBufferStateError>(
                CommandBufferStateError(old(self).state),
            ) && *final(self) == *old(self),
    {
        match self.state {
            CommandBufferState::Initial => {},
            CommandBufferState::Executable => {},
            state => {
                return Err(CommandBufferStateError(state));
            },
        }
        self.state = CommandBufferState::Recording;
        self.commands = Vec::new();
        self.markers = Vec::new();
        Ok(())
    }

    /// Records the start of a render pass over one framebuffer, retaining
    /// markers on the render pass and the framebuffer. Valid only while
    /// Recording; any other state is rejected unchanged.
    pub fn cmd_begin_render_pass(
        &mut self,
        render_pass: &RenderPass,
        framebuffer: &Framebuffer,
    ) -> (r: Result<(), CommandBufferStateError>)
        ensures
            old(self).state == CommandBufferState::Recording ==> r is Ok && final(self).state
                == CommandBufferState::Recording && final(self).commands@ == old(self).commands@.push(Command::BeginRenderPass { render_area: framebuffer.extent }) && final(self).markers@ == old(self).markers@.push(ResourceMarker::RenderPass).push(
                ResourceMarker::Framebuffer,
            ),
            old(self).state != CommandBufferState::Recording ==> r == Err::<
                (),
                CommandBufferStateError,
            >(CommandBufferStateError(old(self).state)) && *final(self) == *old(self),
    {
        if !matches!(self.state, CommandBufferState::Recording) {
            return Err(CommandBufferStateError(self.state));
        }
        self.commands.push(Command::BeginRenderPass { render_area: framebuffer.get_extent() });
        self.markers.push(ResourceMarker::RenderPass);
        self.markers.push(ResourceMarker::Framebuffer);
        Ok(())
    }

    /// Records a graphics pipeline bind, retaining a marker on the pipeline.
    /// Valid only while Recording; any other state is rejected unchanged.
    pub fn cmd_bind_graphics_pipeline(&mut self, pipeline: &GraphicsPipeline) -> (r: Result<
        (),
        CommandBufferStateError,
    >)
        ensures
            old(self).state == CommandBufferState::Recording ==> r is Ok && final(self).state
                == CommandBufferState::Recording && final(self).commands@ == old(self).commands@.push(Command::BindPipeline) && final(self).markers@ == old(self).markers@.push(ResourceMarker::Pipeline),
            old(self).state != CommandBufferState::Recording ==> r == Err::<
                (),
                CommandBufferStateError,
            >(CommandBufferStateError(old(self).state)) && *final(self) == *old(self),
    {
        if !matches!(self.state, CommandBufferState::Recording) {
            return Err(CommandBufferStateError(self.state));
        }
        self.commands.push(Command::BindPipeline);
        self.markers.push(ResourceMarker::Pipeline);
        Ok(())
    }

    /// Records a viewport covering `viewport`. Valid only while Recording;
    /// any other state is rejected unchanged.
    pub fn cmd_set_viewport(&mut self, viewport: Extent2d) -> (r: Result<
        (),
        CommandBufferStateError,
    >)
        ensures
            old(self).state == CommandBufferState::Recording ==> r is Ok && final(self).state
                == CommandBufferState::Recording && final(self).commands@ == old(self).commands@.push(Command::SetViewport { extent: viewport }) && final(self).markers
                == old(self).markers,
            old(self).state != CommandBufferState::Recording ==> r == Err::<
                (),
                CommandBufferStateError,
            >(CommandBufferStateError(old(self).state)) && *final(self) == *old(self),
    {
        if !matches!(self.state, CommandBufferState::Recording) {
            return Err(CommandBufferStateError(self.state));
        }
        self.commands.push(Command::SetViewport { extent: viewport });
        Ok(())
    }

    /// Records a scissor rectangle covering `scissor`. Valid only while
    /// Recording; any other state is rejected unchanged.
    pub fn cmd_set_scissor(&mut self, scissor: Extent2d) -> (r: Result<
        (),
        CommandBufferStateError,
    >)
        ensures
            old(self).state == CommandBufferState::Recording ==> r is Ok && final(self).state
                == CommandBufferState::Recording && final(self).commands@ == old(self).commands@.push(Command::SetScissor { extent: scissor }) && final(self).markers == old(self).markers,
            old(self).state != CommandBufferState::Recording ==> r == Err::<
                (),
                CommandBufferStateError,
            >(CommandBufferStateError(old(self).state)) && *final(self) == *old(self),
    {
        if !matches!(self.state, CommandBufferState::Recording) {
            return Err(CommandBufferStateError(self.state));
        }
        self.commands.push(Command::SetScissor { extent: scissor });
        Ok(())
    }

    /// Records one draw call. Valid only while Recording; any other state is
    /// rejected unchanged.
    pub fn cmd_draw(&mut self, draw_info: DrawInfo) -> (r: Result<(), CommandBufferStateError>)
        ensures
            old(self).state == CommandBufferState::Recording ==> r is Ok && final(self).state
                == CommandBufferState::Recording && final(self).commands@ == old(self).commands@.push(Command::Draw { info: draw_info }) && final(self).markers == old(self).markers,
            old(self).state != CommandBufferState::Recording ==> r == Err::<
                (),
                CommandBufferStateError,
            >(CommandBufferStateError(old(self).state)) && *final(self) == *old(self),
    {
        if !matches!(self.state, CommandBufferState::Recording) {
            return Err(CommandBufferStateError(self.state));
        }
        self.commands.push(Command::Draw { info: draw_info });
        Ok(())
    }

    /// Records the end of the current render pass. Valid only while
    /// Recording; any other state is rejected unchanged.
    pub fn cmd_end_render_pass(&mut self) -> (r: Result<(), CommandBufferStateError>)
        ensures
            old(self).state == CommandBufferState::Recording ==> r is Ok && final(self).state
                == CommandBufferState::Recording && final(self).commands@ == old(self).commands@.push(Command::EndRenderPass) && final(self).markers == old(self).markers,
            old(self).state != CommandBufferState::Recording ==> r == Err::<
                (),
                CommandBufferStateError,
            >(CommandBufferStateError(old(self).state)) && *final(self) == *old(self),
    {
        if !matches!(self.state, CommandBufferState::Recording) {
            return Err(CommandBufferStateError(self.state));
        }
        self.commands.push(Command::EndRenderPass);
        Ok(())
    }

    /// Finishes recording: the buffer becomes Executable. Valid only while
    /// Recording; any other state is rejected unchanged.
    pub fn end(&mut self) -> (r: Result<(), CommandBufferStateError>)
        ensures
            old(self).state == CommandBufferState::Recording ==> r is Ok && final(self).state
                == CommandBufferState::Executable && final(self).commands == old(self).commands
                && final(self).markers == old(self).markers,
            old(self).state != CommandBufferState::Recording ==> r == Err::<
                (),
                CommandBufferStateError,
            >(CommandBufferStateError(old(self).state)) && *final(self) == *old(self),
    {
        if !matches!(self.state, CommandBufferState::Recording) {
            return Err(CommandBufferStateError(self.state));
        }
        self.state = CommandBufferState::Executable;
        Ok(())
    }
}

} // verus!
