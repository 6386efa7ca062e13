//! Core logic of a minimal GPU display loop: session establishment
//! (surface-format negotiation and surface configuration), the uniform
//! state buffer and its byte image, the fixed display pipeline
//! description, and the per-frame command recording protocol.
//!
//! The platform's graphics API and the window/event loop are external
//! collaborators; everything they decide is handed to this crate as
//! plain values, and everything this crate decides is handed back as
//! plain values.

use vstd::prelude::*;

pub mod pipeline;
pub mod render;
pub mod setup;
pub mod uniforms;

pub use render::BindGroupDescriptor;
pub use render::BufferDescriptor;
pub use render::FrameEvent;
pub use render::FrameTarget;
pub use render::GpuLedger;
pub use render::LoadOp;
pub use render::LoopAction;
pub use render::PathTracer;
pub use render::RenderCommand;
pub use render::Rgba;
pub use render::TargetContents;
pub use render::handle_window_event;

pub use pipeline::BindGroupLayoutEntry;
pub use pipeline::FrontFace;
pub use pipeline::PipelineDescriptor;
pub use pipeline::PolygonMode;
pub use pipeline::StageVisibility;
pub use pipeline::Topology;
pub use pipeline::create_display_pipeline;

pub use setup::AlphaMode;
pub use setup::PresentMode;
pub use setup::SetupError;
pub use setup::SurfaceCapabilities;
pub use setup::SurfaceConfig;
pub use setup::SurfaceFormat;
pub use setup::configure_surface;
pub use setup::plan_session;
pub use setup::select_format;
pub use uniforms::Uniforms;
