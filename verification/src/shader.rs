//! Shader models: the core consumes precompiled shader modules and an entry
//! point per pipeline stage; it does not compile shader source.

use vstd::prelude::*;

use crate::text::nul_free;

verus! {

/// A compiled shader module, remembered by the handle the driver returned
/// for its bytecode.
#[derive(Debug, Clone, Copy, PartialEq, Eq, Structural)]
pub struct ShaderModule {
    pub handle: u64,
}

impl ShaderModule {
    pub fn new(handle: u64) -> (r: Self)
        ensures
            r.handle == handle,
    {
        ShaderModule { handle }
    }
}

/// The pipeline stage a shader runs in.
#[derive(Debug, Clone, Copy, PartialEq, Eq, Structural)]
pub enum ShaderStage {
    Vertex,
    TessellationControl,
    TessellationEvaluation,
    Geometry,
    Fragment,
    Compute,
    AllGraphics,
    All,
}

impl ShaderStage {
    /// The driver's flag bits for this stage.
    pub open spec fn spec_flags(self) -> u32 {
        match self {
            ShaderStage::Vertex => 0x1,
            ShaderStage::TessellationControl => 0x2,
            ShaderStage::TessellationEvaluation => 0x4,
            ShaderStage::Geometry => 0x8,
            ShaderStage::Fragment => 0x10,
            ShaderStage::Compute => 0x20,
            ShaderStage::AllGraphics => 0x1F,
            ShaderStage::All => 0x7FFFFFFF,
        }
    }

    pub fn flags(&self) -> (r: u32)
        ensures
            r == self.spec_flags(),
    {
        match self {
            ShaderStage::Vertex => 0x1,
            ShaderStage::TessellationControl => 0x2,
            ShaderStage::TessellationEvaluation => 0x4,
            ShaderStage::Geometry => 0x8,
            ShaderStage::Fragment => 0x10,
            ShaderStage::Compute => 0x20,
            ShaderStage::AllGraphics => 0x1F,
            ShaderStage::All => 0x7FFFFFFF,
        }
    }
}

/// The error returned when a pipeline is built without a stage it requires.
#[derive(Debug, Clone, Copy, PartialEq, Eq, Structural)]
pub struct MissingShaderStageError {
    pub stage: ShaderStage,
}

impl MissingShaderStageError {
    pub fn new(stage: ShaderStage) -> (r: Self)
        ensures
            r.stage == stage,
    {
        MissingShaderStageError { stage }
    }

    pub fn message(&self) -> (r: String)
        ensures
            r@ == "a required shader stage is missing"@,
    {
        "a required shader stage is missing".to_owned()
    }
}

/// A shader module paired with the stage it runs in and its entry point
/// name. The entry point crosses the driver boundary, so it must be free of
/// null characters.
#[derive(Debug, Clone, PartialEq, Eq)]
pub struct ShaderStageInfo {
    pub shader: ShaderModule,
    pub stage: ShaderStage,
    pub entry_point: String,
}

impl ShaderStageInfo {
    pub fn new(shader: ShaderModule, stage: ShaderStage, entry_point: String) -> (r: Self)
        requires
            nul_free(entry_point@),
        ensures
            r.shader == shader,
            r.stage == stage,
            r.entry_point == entry_point,
    {
        ShaderStageInfo { shader, stage, entry_point }
    }

    pub fn stage(&self) -> (r: ShaderStage)
        ensures
            r == self.stage,
    {
        self.stage
    }
}

} // verus!
