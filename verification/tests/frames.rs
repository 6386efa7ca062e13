use path_tracer::FrameEvent;
use path_tracer::FrameTarget;
use path_tracer::GpuLedger;
use path_tracer::LoadOp;
use path_tracer::LoopAction;
use path_tracer::PathTracer;
use path_tracer::RenderCommand;
use path_tracer::Rgba;
use path_tracer::SurfaceFormat;
use path_tracer::Uniforms;
use path_tracer::handle_window_event;

fn black() -> Rgba {
    Rgba { red: 0, green: 0, blue: 0, alpha: 255 }
}

#[test]
fn construction_creates_each_object_once_and_submits_nothing() {
    let mut ledger = GpuLedger::new();
    let renderer = PathTracer::new(960, 544, SurfaceFormat::Rgba8Unorm, &mut ledger);
    assert_eq!(ledger.shader_modules, 1);
    assert_eq!(ledger.pipelines, 1);
    assert_eq!(ledger.buffers, 1);
    assert_eq!(ledger.bind_groups, 1);
    assert_eq!(ledger.submissions, 0);
    assert_eq!(ledger.presents, 0);
    assert_eq!(renderer.uniforms, Uniforms { width: 960, height: 544 });
    assert_eq!(renderer.uniform_buffer.size, 8);
    assert!(renderer.uniform_buffer.usage_uniform);
    assert!(renderer.uniform_buffer.usage_copy_dst);
    assert!(renderer.uniform_buffer.mapped_at_creation);
    assert_eq!(renderer.display_bind_group.binding, 0);
    assert_eq!(renderer.display_bind_group.offset, 0);
    assert!(renderer.display_bind_group.binds_whole_buffer);
}

#[test]
fn written_buffer_reads_back_as_the_constructed_uniforms() {
    let mut ledger = GpuLedger::new();
    let renderer = PathTracer::new(960, 544, SurfaceFormat::Bgra8Unorm, &mut ledger);
    let read_back = Uniforms::from_bytes(&renderer.uniform_buffer_contents);
    assert_eq!(read_back, renderer.uniforms);
}

#[test]
fn render_frame_records_the_fixed_command_sequence() {
    let mut ledger = GpuLedger::new();
    let renderer = PathTracer::new(960, 544, SurfaceFormat::Rgba8Unorm, &mut ledger);
    let target = FrameTarget { width: 960, height: 544 };
    let commands = renderer.render_frame(&target, &mut ledger);
    assert_eq!(
        commands,
        vec![
            RenderCommand::BeginRenderPass {
                target: FrameTarget { width: 960, height: 544 },
                load: LoadOp::Clear(black()),
                stores_output: true,
            },
            RenderCommand::SetPipeline,
            RenderCommand::SetBindGroup { index: 0 },
            RenderCommand::Draw {
                first_vertex: 0,
                vertex_count: 6,
                first_instance: 0,
                instance_count: 1,
            },
            RenderCommand::EndRenderPass,
        ]
    );
    assert_eq!(ledger.submissions, 1);
}

#[test]
fn frame_clears_before_any_draw() {
    let mut ledger = GpuLedger::new();
    let renderer = PathTracer::new(800, 600, SurfaceFormat::Rgba8Unorm, &mut ledger);
    let target = FrameTarget { width: 800, height: 600 };
    let commands = renderer.render_frame(&target, &mut ledger);
    let clear_at = commands
        .iter()
        .position(|c| matches!(c, RenderCommand::BeginRenderPass { load: LoadOp::Clear(_), .. }))
        .expect("a frame must begin by clearing the target");
    assert_eq!(clear_at, 0);
    for (i, c) in commands.iter().enumerate() {
        if matches!(c, RenderCommand::Draw { .. }) {
            assert!(i > clear_at);
        }
    }
}

#[test]
fn thousand_frames_allocate_no_new_objects() {
    let mut ledger = GpuLedger::new();
    let renderer = PathTracer::new(960, 544, SurfaceFormat::Rgba8Unorm, &mut ledger);
    renderer.run_frames(1000, &mut ledger);
    assert_eq!(ledger.buffers, 1);
    assert_eq!(ledger.pipelines, 1);
    assert_eq!(ledger.bind_groups, 1);
    assert_eq!(ledger.shader_modules, 1);
    assert_eq!(ledger.submissions, 1000);
    assert_eq!(ledger.presents, 1000);
}

#[test]
fn ten_frames_make_ten_submissions_and_ten_presents() {
    let formats = vec![SurfaceFormat::Bgra8UnormSrgb, SurfaceFormat::Rgba8Unorm];
    let format = path_tracer::select_format(&formats).unwrap();
    assert_eq!(format, SurfaceFormat::Rgba8Unorm);
    let mut ledger = GpuLedger::new();
    let renderer = PathTracer::new(960, 544, format, &mut ledger);
    for _ in 0..10 {
        let action = handle_window_event(FrameEvent::RedrawRequested);
        assert_eq!(action, LoopAction::RenderAndPresent);
        let _ = renderer.run_frame(&mut ledger);
    }
    assert_eq!(ledger.submissions, 10);
    assert_eq!(ledger.presents, 10);
    assert_eq!(ledger.buffers, 1);
    assert_eq!(ledger.pipelines, 1);
    assert_eq!(ledger.bind_groups, 1);
}

#[test]
fn window_events_map_to_loop_actions() {
    assert_eq!(handle_window_event(FrameEvent::CloseRequested), LoopAction::Exit);
    assert_eq!(
        handle_window_event(FrameEvent::RedrawRequested),
        LoopAction::RenderAndPresent
    );
    assert_eq!(handle_window_event(FrameEvent::Other), LoopAction::Ignore);
}
