//! The two draw configurations, skybox and mesh, compiled from one shader.

use vstd::prelude::*;
use crate::resource::TextureFormat;
use crate::vertex::{vertex_attributes, StepMode, Vertex, VertexLayout, VERTEX_BYTES};

verus! {

/// The four entry points of the shader program.
#[derive(Clone, Copy, Debug, PartialEq, Eq)]
pub enum EntryPoint {
    /// The vertex stage of the mesh pass.
    VsMain,
    /// The fragment stage of the mesh pass.
    FsMain,
    /// The vertex stage of the skybox pass.
    SkyVsMain,
    /// The fragment stage of the skybox pass.
    SkyFsMain,
}

impl EntryPoint {
    /// The name of the entry point in the shader program.
    pub open spec fn spec_name(self) -> Seq<char> {
        match self {
            EntryPoint::VsMain => "vs_main"@,
            EntryPoint::FsMain => "fs_main"@,
            EntryPoint::SkyVsMain => "sky_vs_main"@,
            EntryPoint::SkyFsMain => "sky_fs_main"@,
        }
    }

    /// The name of the entry point in the shader program.
    pub fn name(self) -> (name: &'static str)
        ensures
            name@ == self.spec_name(),
    {
        match self {
            EntryPoint::VsMain => "vs_main",
            EntryPoint::FsMain => "fs_main",
            EntryPoint::SkyVsMain => "sky_vs_main",
            EntryPoint::SkyFsMain => "sky_fs_main",
        }
    }
}

/// Which faces of a triangle are discarded.
#[derive(Clone, Copy, Debug, PartialEq, Eq)]
pub enum CullMode {
    /// No face is discarded.
    Off,
    /// Faces that look away from the camera are discarded.
    Back,
}

/// The winding of a triangle that looks at the camera.
#[derive(Clone, Copy, Debug, PartialEq, Eq)]
pub enum FrontFace {
    Ccw,
    Cw,
}

/// How vertices are assembled into primitives.
#[derive(Clone, Copy, Debug, PartialEq, Eq)]
pub enum Topology {
    TriangleList,
}

/// How a primitive is rasterized.
#[derive(Clone, Copy, Debug, PartialEq, Eq)]
pub enum PolygonMode {
    Fill,
}

/// The comparison of the depth test.
#[derive(Clone, Copy, Debug, PartialEq, Eq)]
pub enum CompareFunction {
    Less,
    LessEqual,
    Always,
}

/// How a fragment is combined with the color already in the target.
#[derive(Clone, Copy, Debug, PartialEq, Eq)]
pub enum BlendMode {
    /// The fragment replaces the color, in all four channels.
    Replace,
}

/// The depth test of a pipeline.
#[derive(Clone, Copy, Debug, PartialEq, Eq)]
pub struct DepthSettings {
    pub format: TextureFormat,
    pub depth_write_enabled: bool,
    pub depth_compare: CompareFunction,
}

/// One of the two bind groups that both pipelines share.
#[derive(Clone, Copy, Debug, PartialEq, Eq)]
pub enum BindGroupId {
    /// The uniform buffer, visible to every stage.
    Uniform,
    /// The cubemap texture and its sampler, visible to the fragment stage.
    Skybox,
}

impl BindGroupId {
    /// The group index at which the shader finds this group.
    pub open spec fn spec_slot(self) -> u32 {
        match self {
            BindGroupId::Uniform => 0,
            BindGroupId::Skybox => 1,
        }
    }

    /// The group index at which the shader finds this group.
    pub fn slot(self) -> (index: u32)
        ensures
            index == self.spec_slot(),
    {
        match self {
            BindGroupId::Uniform => 0,
            BindGroupId::Skybox => 1,
        }
    }
}

/// The creation parameters of a render pipeline.
#[derive(Clone, Debug, PartialEq, Eq)]
pub struct PipelineSettings {
    pub vertex_entry: EntryPoint,
    pub fragment_entry: EntryPoint,
    pub vertex_buffer: Option<VertexLayout>,
    pub topology: Topology,
    pub front_face: FrontFace,
    pub cull_mode: CullMode,
    pub polygon_mode: PolygonMode,
    pub depth: DepthSettings,
    pub blend: BlendMode,
}

/// The depth test of both pipelines: a 32-bit depth target, written, and
/// passed by fragments that are not farther than what is there. The skybox
/// is drawn at the far plane and so lies behind all geometry.
pub open spec fn shared_depth() -> DepthSettings {
    DepthSettings {
        format: TextureFormat::Depth32Float,
        depth_write_enabled: true,
        depth_compare: CompareFunction::LessEqual,
    }
}

impl PipelineSettings {
    /// What the two pipelines have in common: triangle lists, counter-clockwise
    /// front faces, filled polygons, replacing blend and the shared depth test.
    pub open spec fn has_shared_state(&self) -> bool {
        &&& self.topology == Topology::TriangleList
        &&& self.front_face == FrontFace::Ccw
        &&& self.polygon_mode == PolygonMode::Fill
        &&& self.depth == shared_depth()
        &&& self.blend == BlendMode::Replace
    }

    /// The mesh pipeline: entry points `vs_main` and `fs_main`, one vertex
    /// buffer in the layout of `Vertex::desc`, back faces culled.
    pub open spec fn is_mesh_pipeline(&self) -> bool {
        &&& self.vertex_entry == EntryPoint::VsMain
        &&& self.fragment_entry == EntryPoint::FsMain
        &&& self.vertex_buffer matches Some(layout)
        &&& layout.array_stride == VERTEX_BYTES
        &&& layout.step_mode == StepMode::Vertex
        &&& layout.attributes@ == vertex_attributes()
        &&& self.cull_mode == CullMode::Back
        &&& self.has_shared_state()
    }

    /// The skybox pipeline: entry points `sky_vs_main` and `sky_fs_main`, no
    /// vertex buffer, nothing culled.
    pub open spec fn is_sky_pipeline(&self) -> bool {
        &&& self.vertex_entry == EntryPoint::SkyVsMain
        &&& self.fragment_entry == EntryPoint::SkyFsMain
        &&& self.vertex_buffer is None
        &&& self.cull_mode == CullMode::Off
        &&& self.has_shared_state()
    }

    /// The pipeline that draws the mesh.
    pub fn mesh() -> (settings: PipelineSettings)
        ensures
            settings.is_mesh_pipeline(),
    {
        PipelineSettings {
            vertex_entry: EntryPoint::VsMain,
            fragment_entry: EntryPoint::FsMain,
            vertex_buffer: Some(Vertex::desc()),
            topology: Topology::TriangleList,
            front_face: FrontFace::Ccw,
            cull_mode: CullMode::Back,
            polygon_mode: PolygonMode::Fill,
            depth: DepthSettings {
                format: TextureFormat::Depth32Float,
                depth_write_enabled: true,
                depth_compare: CompareFunction::LessEqual,
            },
            blend: BlendMode::Replace,
        }
    }

    /// The pipeline that draws the skybox.
    pub fn sky() -> (settings: PipelineSettings)
        ensures
            settings.is_sky_pipeline(),
    {
        PipelineSettings {
            vertex_entry: EntryPoint::SkyVsMain,
            fragment_entry: EntryPoint::SkyFsMain,
            vertex_buffer: None,
            topology: Topology::TriangleList,
            front_face: FrontFace::Ccw,
            cull_mode: CullMode::Off,
            polygon_mode: PolygonMode::Fill,
            depth: DepthSettings {
                format: TextureFormat::Depth32Float,
                depth_write_enabled: true,
                depth_compare: CompareFunction::LessEqual,
            },
            blend: BlendMode::Replace,
        }
    }
}

} // verus!
