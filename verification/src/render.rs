//! The frame renderer: the resources built once at construction (uniform
//! buffer, display pipeline, bind group) and the exact command sequence
//! recorded and submitted for every frame. GPU-side effects — object
//! creation, command-buffer submission, presentation — are tracked in a
//! ledger so that what each operation creates and submits is part of its
//! contract.

use vstd::prelude::*;
use crate::pipeline::PipelineDescriptor;
use crate::pipeline::create_display_pipeline;
use crate::pipeline::is_display_pipeline;
use crate::setup::SurfaceFormat;
use crate::uniforms::UNIFORMS_BYTE_SIZE;
use crate::uniforms::Uniforms;
use crate::uniforms::lemma_uniforms_byte_round_trip;

verus! {

/// Counts of the GPU-side effects of this core: objects created on the
/// device, command buffers submitted to the queue, and frames handed to the
/// presentation engine.
#[derive(Clone, Copy, PartialEq, Eq, Structural, Debug)]
pub struct GpuLedger {
    pub buffers: u64,
    pub shader_modules: u64,
    pub pipelines: u64,
    pub bind_groups: u64,
    pub submissions: u64,
    pub presents: u64,
}

impl GpuLedger {
    /// The ledger of a fresh session: nothing created, nothing submitted.
    pub open spec fn spec_new() -> GpuLedger {
        GpuLedger {
            buffers: 0,
            shader_modules: 0,
            pipelines: 0,
            bind_groups: 0,
            submissions: 0,
            presents: 0,
        }
    }

    /// Opens the ledger of a fresh session.
    pub fn new() -> (ledger: GpuLedger)
        ensures
            ledger == GpuLedger::spec_new(),
    {
        GpuLedger {
            buffers: 0,
            shader_modules: 0,
            pipelines: 0,
            bind_groups: 0,
            submissions: 0,
            presents: 0,
        }
    }

    /// Records one presentation of an acquired frame.
    pub fn record_present(&mut self)
        requires
            old(self).presents < u64::MAX,
        ensures
            *final(self) == (GpuLedger { presents: (old(self).presents + 1) as u64, ..*old(self) }),
    {
        self.presents = self.presents + 1;
    }
}

/// Descriptor of the GPU-visible uniform buffer: sized exactly to the
/// uniform layout and mapped at creation for the one initial write.
#[derive(Clone, Copy, PartialEq, Eq, Structural, Debug)]
pub struct BufferDescriptor {
    pub size: u64,
    pub usage_uniform: bool,
    pub usage_copy_dst: bool,
    pub mapped_at_creation: bool,
}

/// Descriptor of the renderer's one bind group: which slot it fills and
/// that it binds the whole uniform buffer with no offset.
#[derive(Clone, Copy, PartialEq, Eq, Structural, Debug)]
pub struct BindGroupDescriptor {
    pub binding: u32,
    pub offset: u64,
    pub binds_whole_buffer: bool,
}

/// A color with 8-bit channels, as a clear value.
#[derive(Clone, Copy, PartialEq, Eq, Structural, Debug)]
pub struct Rgba {
    pub red: u8,
    pub green: u8,
    pub blue: u8,
    pub alpha: u8,
}

/// Opaque black, the clear color of every frame.
pub open spec fn spec_black() -> Rgba {
    Rgba { red: 0, green: 0, blue: 0, alpha: 255 }
}

/// What a render pass does with the target's existing contents when it
/// begins: replace them with a clear color, or load and keep them.
#[derive(Clone, Copy, PartialEq, Eq, Structural, Debug)]
pub enum LoadOp {
    Clear(Rgba),
    Preserve,
}

/// One step of the per-frame command recording.
#[derive(Clone, Copy, PartialEq, Eq, Structural, Debug)]
pub enum RenderCommand {
    BeginRenderPass { target: FrameTarget, load: LoadOp, stores_output: bool },
    SetPipeline,
    SetBindGroup { index: u32 },
    Draw { first_vertex: u32, vertex_count: u32, first_instance: u32, instance_count: u32 },
    EndRenderPass,
}

/// A transient view onto one presentation-engine image: acquired at the
/// start of a frame, consumed by exactly one render operation, presented at
/// the end of the same frame, never persisted.
#[derive(Clone, Copy, PartialEq, Eq, Structural, Debug)]
pub struct FrameTarget {
    pub width: u32,
    pub height: u32,
}

/// What a frame target abstractly holds: whatever it held before the call,
/// a clear color, or draw output over the pass's background.
#[derive(Clone, Copy, PartialEq, Eq, Structural, Debug)]
pub enum TargetContents {
    Prior,
    Cleared(Rgba),
    Drawn,
}

/// How one command changes what the target holds.
pub open spec fn apply_command(contents: TargetContents, c: RenderCommand) -> TargetContents {
    match c {
        RenderCommand::BeginRenderPass { load: LoadOp::Clear(color), .. } => TargetContents::Cleared(
            color,
        ),
        RenderCommand::BeginRenderPass { load: LoadOp::Preserve, .. } => contents,
        RenderCommand::Draw { .. } => TargetContents::Drawn,
        _ => contents,
    }
}

/// What the target holds after the commands from position `i` on have run
/// against it, starting from `contents`.
pub open spec fn target_after_from(
    contents: TargetContents,
    commands: Seq<RenderCommand>,
    i: int,
) -> TargetContents
    decreases commands.len() - i,
{
    if i < 0 || i >= commands.len() {
        contents
    } else {
        target_after_from(apply_command(contents, commands[i]), commands, i + 1)
    }
}

/// What the target holds after all the commands have run against it.
pub open spec fn target_after(contents: TargetContents, commands: Seq<RenderCommand>)
    -> TargetContents {
    target_after_from(contents, commands, 0)
}

/// The exact command sequence of one frame: begin a pass against the
/// caller's target that clears it to black and stores the pass output, bind
/// the display pipeline and its bind group at slot zero, draw six vertices
/// in one instance, end the pass.
pub open spec fn spec_frame_commands(target: FrameTarget) -> Seq<RenderCommand> {
    seq![
        RenderCommand::BeginRenderPass { target, load: LoadOp::Clear(spec_black()), stores_output: true },
        RenderCommand::SetPipeline,
        RenderCommand::SetBindGroup { index: 0 },
        RenderCommand::Draw { first_vertex: 0, vertex_count: 6, first_instance: 0, instance_count: 1 },
        RenderCommand::EndRenderPass,
    ]
}

/// The descriptor of the uniform buffer as the renderer creates it.
pub open spec fn spec_uniform_buffer_descriptor() -> BufferDescriptor {
    BufferDescriptor {
        size: UNIFORMS_BYTE_SIZE,
        usage_uniform: true,
        usage_copy_dst: true,
        mapped_at_creation: true,
    }
}

/// The descriptor of the renderer's one bind group: the whole uniform
/// buffer at binding slot zero, with no dynamic offset.
pub open spec fn spec_display_bind_group() -> BindGroupDescriptor {
    BindGroupDescriptor { binding: 0, offset: 0, binds_whole_buffer: true }
}

/// The renderer: the uniform state, the byte image it wrote into the
/// GPU-visible buffer at construction, and the immutable display pipeline
/// and bind group reused for every frame. Holds no per-frame state.
pub struct PathTracer {
    pub uniforms: Uniforms,
    pub uniform_buffer: BufferDescriptor,
    pub uniform_buffer_contents: Vec<u8>,
    pub display_pipeline: PipelineDescriptor,
    pub display_bind_group: BindGroupDescriptor,
}

impl PathTracer {
    /// Well-formedness: the buffer is sized and flagged for the one mapped
    /// write, its contents are exactly the byte image of the uniforms, the
    /// pipeline is the display pipeline for its color target, and the bind
    /// group binds the whole uniform buffer at slot zero.
    pub open spec fn wf(self) -> bool {
        &&& self.uniform_buffer == spec_uniform_buffer_descriptor()
        &&& self.uniform_buffer_contents@ == self.uniforms.spec_bytes()
        &&& is_display_pipeline(self.display_pipeline, self.display_pipeline.target_format)
        &&& self.display_bind_group == spec_display_bind_group()
    }

    /// Builds the renderer for a session of the given dimensions and
    /// negotiated format: compiles the shader program, builds the display
    /// pipeline, allocates the uniform buffer and writes the dimensions
    /// into it once, and builds the bind group — one object each, recorded
    /// in the ledger; nothing is submitted.
    pub fn new(width: u32, height: u32, format: SurfaceFormat, ledger: &mut GpuLedger) -> (renderer:
        PathTracer)
        requires
            old(ledger).shader_modules < u64::MAX,
            old(ledger).pipelines < u64::MAX,
            old(ledger).buffers < u64::MAX,
            old(ledger).bind_groups < u64::MAX,
        ensures
            renderer.wf(),
            renderer.uniforms == (Uniforms { width, height }),
            is_display_pipeline(renderer.display_pipeline, format),
            *final(ledger) == (GpuLedger {
                shader_modules: (old(ledger).shader_modules + 1) as u64,
                pipelines: (old(ledger).pipelines + 1) as u64,
                buffers: (old(ledger).buffers + 1) as u64,
                bind_groups: (old(ledger).bind_groups + 1) as u64,
                ..*old(ledger)
            }),
    {
        ledger.shader_modules = ledger.shader_modules + 1;
        let display_pipeline = create_display_pipeline(format);
        ledger.pipelines = ledger.pipelines + 1;

        let uniforms = Uniforms { width, height };
        let uniform_buffer = BufferDescriptor {
            size: UNIFORMS_BYTE_SIZE,
            usage_uniform: true,
            usage_copy_dst: true,
            mapped_at_creation: true,
        };
        let uniform_buffer_contents = uniforms.to_bytes();
        ledger.buffers = ledger.buffers + 1;

        let display_bind_group = BindGroupDescriptor {
            binding: 0,
            offset: 0,
            binds_whole_buffer: true,
        };
        ledger.bind_groups = ledger.bind_groups + 1;

        PathTracer { uniforms, uniform_buffer, uniform_buffer_contents, display_pipeline, display_bind_group }
    }

    /// Renders one frame into the caller-supplied target: records exactly
    /// the fixed command sequence — clear to black, bind pipeline and bind
    /// group, one draw of six vertices — and submits it to the queue. One
    /// submission is added to the ledger; no object is created, and the
    /// renderer itself is untouched, so the operation can be repeated
    /// without reset.
    pub fn render_frame(&self, target: &FrameTarget, ledger: &mut GpuLedger) -> (commands: Vec<
        RenderCommand,
    >)
        requires
            old(ledger).submissions < u64::MAX,
        ensures
            commands@ == spec_frame_commands(*target),
            *final(ledger) == (GpuLedger {
                submissions: (old(ledger).submissions + 1) as u64,
                ..*old(ledger)
            }),
    {
        let mut commands: Vec<RenderCommand> = Vec::new();
        commands.push(
            RenderCommand::BeginRenderPass {
                target: *target,
                load: LoadOp::Clear(Rgba { red: 0, green: 0, blue: 0, alpha: 255 }),
                stores_output: true,
            },
        );
        commands.push(RenderCommand::SetPipeline);
        commands.push(RenderCommand::SetBindGroup { index: 0 });
        commands.push(
            RenderCommand::Draw {
                first_vertex: 0,
                vertex_count: 6,
                first_instance: 0,
                instance_count: 1,
            },
        );
        commands.push(RenderCommand::EndRenderPass);
        ledger.submissions = ledger.submissions + 1;
        proof {
            assert(commands@ =~= spec_frame_commands(*target));
        }
        commands
    }

    /// Handles one redraw signal as the external loop does: acquires a
    /// target of the session's dimensions, renders one frame into it, and
    /// presents it — exactly one submission and one presentation, no new
    /// objects.
    pub fn run_frame(&self, ledger: &mut GpuLedger) -> (commands: Vec<RenderCommand>)
        requires
            old(ledger).submissions < u64::MAX,
            old(ledger).presents < u64::MAX,
        ensures
            commands@ == spec_frame_commands(
                FrameTarget { width: self.uniforms.width, height: self.uniforms.height },
            ),
            *final(ledger) == (GpuLedger {
                submissions: (old(ledger).submissions + 1) as u64,
                presents: (old(ledger).presents + 1) as u64,
                ..*old(ledger)
            }),
    {
        let target = FrameTarget { width: self.uniforms.width, height: self.uniforms.height };
        let commands = self.render_frame(&target, ledger);
        ledger.record_present();
        commands
    }

    /// Drives `n` successive frames, one redraw signal each. Law: across
    /// any number of frames there are exactly `n` submissions and `n`
    /// presentations, and the created-object counts do not change — the
    /// renderer allocates nothing after construction.
    pub fn run_frames(&self, n: u32, ledger: &mut GpuLedger)
        requires
            old(ledger).submissions + n <= u64::MAX,
            old(ledger).presents + n <= u64::MAX,
        ensures
            *final(ledger) == (GpuLedger {
                submissions: (old(ledger).submissions + n) as u64,
                presents: (old(ledger).presents + n) as u64,
                ..*old(ledger)
            }),
    {
        let ghost orig = *ledger;
        let mut i: u32 = 0;
        while i < n
            invariant
                0 <= i <= n,
                orig.submissions + n <= u64::MAX,
                orig.presents + n <= u64::MAX,
                *ledger == (GpuLedger {
                    submissions: (orig.submissions + i) as u64,
                    presents: (orig.presents + i) as u64,
                    ..orig
                }),
            decreases n - i,
        {
            let _ = self.run_frame(ledger);
            i = i + 1;
        }
    }
}

/// Law: the uniform value a well-formed renderer wrote into the GPU-visible
/// buffer reads back as the same value.
pub proof fn lemma_uniform_buffer_round_trip(renderer: PathTracer)
    requires
        renderer.wf(),
    ensures
        Uniforms::spec_from_bytes(renderer.uniform_buffer_contents@) == renderer.uniforms,
{
    lemma_uniforms_byte_round_trip(renderer.uniforms);
}

/// Law: on a target of any dimensions, a frame applies the clear color
/// before any draw output and never retains the target's prior contents.
/// Whatever the target held before the call — and for any two prior
/// contents alike — after the frame's commands it holds the pass output
/// drawn over the black clear, never `Prior`.
pub proof fn lemma_frame_never_retains_prior_contents(
    target: FrameTarget,
    a: TargetContents,
    b: TargetContents,
)
    ensures
        target_after(a, spec_frame_commands(target)) == target_after(
            b,
            spec_frame_commands(target),
        ),
        target_after(a, spec_frame_commands(target)) == TargetContents::Drawn,
{
    lemma_frame_drawn_from(target, a);
    lemma_frame_drawn_from(target, b);
}

/// Running the frame's commands leaves the target drawn, whatever it held.
proof fn lemma_frame_drawn_from(target: FrameTarget, contents: TargetContents)
    ensures
        target_after(contents, spec_frame_commands(target)) == TargetContents::Drawn,
{
    let commands = spec_frame_commands(target);
    let s1 = apply_command(contents, commands[0]);
    assert(s1 == TargetContents::Cleared(spec_black()));
    let s2 = apply_command(s1, commands[1]);
    let s3 = apply_command(s2, commands[2]);
    let s4 = apply_command(s3, commands[3]);
    assert(s4 == TargetContents::Drawn);
    let s5 = apply_command(s4, commands[4]);
    assert(target_after_from(contents, commands, 0) == target_after_from(s1, commands, 1));
    assert(target_after_from(s1, commands, 1) == target_after_from(s2, commands, 2));
    assert(target_after_from(s2, commands, 2) == target_after_from(s3, commands, 3));
    assert(target_after_from(s3, commands, 3) == target_after_from(s4, commands, 4));
    assert(target_after_from(s4, commands, 4) == target_after_from(s5, commands, 5));
    assert(target_after_from(s5, commands, 5) == s5);
}

/// Law: the clear comes first. The frame's first command begins the render
/// pass against the caller's target by clearing it to black and storing the
/// pass output, and every draw command of the frame comes after it.
pub proof fn lemma_clear_precedes_draw(target: FrameTarget)
    ensures
        spec_frame_commands(target).len() == 5,
        spec_frame_commands(target)[0] == (RenderCommand::BeginRenderPass {
            target,
            load: LoadOp::Clear(spec_black()),
            stores_output: true,
        }),
        forall|i: int|
            0 <= i < spec_frame_commands(target).len() && spec_frame_commands(target)[i] is Draw
                ==> i > 0,
{
    assert forall|i: int|
        0 <= i < spec_frame_commands(target).len() && spec_frame_commands(target)[i] is Draw
        implies i > 0 by {
        assert(spec_frame_commands(target)[0] is BeginRenderPass);
    }
}

/// The two signals the window/event-loop collaborator delivers that this
/// core acts on, and everything else.
#[derive(Clone, Copy, PartialEq, Eq, Structural, Debug)]
pub enum FrameEvent {
    CloseRequested,
    RedrawRequested,
    Other,
}

/// What the frame loop does with one delivered event.
#[derive(Clone, Copy, PartialEq, Eq, Structural, Debug)]
pub enum LoopAction {
    /// Exit the frame loop cooperatively.
    Exit,
    /// Render exactly one frame into a freshly acquired target, present
    /// it, and request the next redraw.
    RenderAndPresent,
    /// Not this core's business.
    Ignore,
}

/// What the frame loop decides for each event.
pub open spec fn spec_handle_event(event: FrameEvent) -> LoopAction {
    match event {
        FrameEvent::CloseRequested => LoopAction::Exit,
        FrameEvent::RedrawRequested => LoopAction::RenderAndPresent,
        FrameEvent::Other => LoopAction::Ignore,
    }
}

/// The frame loop's decision for one delivered window event: close
/// requests exit the loop, each redraw request renders and presents
/// exactly one frame and requests the next redraw, and any other event is
/// ignored.
pub fn handle_window_event(event: FrameEvent) -> (action: LoopAction)
    ensures
        action == spec_handle_event(event),
{
    match event {
        FrameEvent::CloseRequested => LoopAction::Exit,
        FrameEvent::RedrawRequested => LoopAction::RenderAndPresent,
        FrameEvent::Other => LoopAction::Ignore,
    }
}

} // verus!
