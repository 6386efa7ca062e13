//! The display pipeline: the exact, immutable description the renderer
//! builds once at construction and uses for every frame. The platform
//! compiles the external shader asset and the pipeline object itself; this
//! module fixes every value of the description — entry points, bind-group
//! layout, fixed-function state, and the color target — so the external
//! collaborator has nothing left to decide.

use vstd::prelude::*;
use crate::setup::SurfaceFormat;

verus! {

/// Which pipeline stages can see a binding.
#[derive(Clone, Copy, PartialEq, Eq, Structural, Debug)]
pub struct StageVisibility {
    pub vertex: bool,
    pub fragment: bool,
}

/// One entry of a bind-group layout. The display pipeline only ever binds a
/// uniform buffer, so the binding type is described by `uniform_buffer`.
#[derive(Clone, Copy, PartialEq, Eq, Structural, Debug)]
pub struct BindGroupLayoutEntry {
    pub binding: u32,
    pub visibility: StageVisibility,
    pub uniform_buffer: bool,
    pub has_dynamic_offset: bool,
}

/// Primitive assembly topology.
#[derive(Clone, Copy, PartialEq, Eq, Structural, Debug)]
pub enum Topology {
    PointList,
    LineList,
    LineStrip,
    TriangleList,
    TriangleStrip,
}

/// Which winding order makes a triangle front-facing.
#[derive(Clone, Copy, PartialEq, Eq, Structural, Debug)]
pub enum FrontFace {
    Ccw,
    Cw,
}

/// How polygons are rasterized.
#[derive(Clone, Copy, PartialEq, Eq, Structural, Debug)]
pub enum PolygonMode {
    Fill,
    Line,
    Point,
}

/// The full description of the display pipeline: shader entry points, the
/// single bind-group layout entry, fixed-function state, and the one color
/// target. Built once, reused every frame, never mutated.
#[derive(Clone, Copy, Debug)]
pub struct PipelineDescriptor {
    /// The single entry of the pipeline's one bind-group layout.
    pub uniform_binding: BindGroupLayoutEntry,
    pub vertex_entry_point: &'static str,
    pub fragment_entry_point: &'static str,
    pub topology: Topology,
    pub front_face: FrontFace,
    pub polygon_mode: PolygonMode,
    /// The pipeline has no depth/stencil attachment.
    pub has_depth_stencil: bool,
    /// One sample per pixel: no multisampling.
    pub multisample_count: u32,
    /// The one color target; it must match the negotiated surface format.
    pub target_format: SurfaceFormat,
    /// The color target does no blending.
    pub has_blending: bool,
    /// All color channels of the target are written.
    pub writes_all_channels: bool,
}

/// The one bind-group layout entry the display pipeline declares: binding
/// slot zero, a uniform buffer without dynamic offset, visible to the
/// fragment stage only.
pub open spec fn spec_uniform_binding() -> BindGroupLayoutEntry {
    BindGroupLayoutEntry {
        binding: 0,
        visibility: StageVisibility { vertex: false, fragment: true },
        uniform_buffer: true,
        has_dynamic_offset: false,
    }
}

/// Whether a pipeline description is exactly the display pipeline for the
/// negotiated `format`: full-screen vertex and fragment entry points,
/// triangle-list topology, counter-clockwise front faces, filled polygons,
/// no depth/stencil, no multisampling, one unblended color target of the
/// negotiated format, and the single fragment-visible uniform binding.
pub open spec fn is_display_pipeline(p: PipelineDescriptor, format: SurfaceFormat) -> bool {
    &&& p.uniform_binding == spec_uniform_binding()
    &&& p.vertex_entry_point@ == "display_vs"@
    &&& p.fragment_entry_point@ == "display_fs"@
    &&& p.topology == Topology::TriangleList
    &&& p.front_face == FrontFace::Ccw
    &&& p.polygon_mode == PolygonMode::Fill
    &&& !p.has_depth_stencil
    &&& p.multisample_count == 1
    &&& p.target_format == format
    &&& !p.has_blending
    &&& p.writes_all_channels
}

/// Builds the display pipeline description for the negotiated surface
/// format. Every field is fixed; only the color-target format varies with
/// the negotiation.
pub fn create_display_pipeline(format: SurfaceFormat) -> (p: PipelineDescriptor)
    ensures
        is_display_pipeline(p, format),
{
    PipelineDescriptor {
        uniform_binding: BindGroupLayoutEntry {
            binding: 0,
            visibility: StageVisibility { vertex: false, fragment: true },
            uniform_buffer: true,
            has_dynamic_offset: false,
        },
        vertex_entry_point: "display_vs",
        fragment_entry_point: "display_fs",
        topology: Topology::TriangleList,
        front_face: FrontFace::Ccw,
        polygon_mode: PolygonMode::Fill,
        has_depth_stencil: false,
        multisample_count: 1,
        target_format: format,
        has_blending: false,
        writes_all_channels: true,
    }
}

} // verus!
