use path_tracer::AlphaMode;
use path_tracer::FrontFace;
use path_tracer::PolygonMode;
use path_tracer::PresentMode;
use path_tracer::SetupError;
use path_tracer::SurfaceCapabilities;
use path_tracer::SurfaceFormat;
use path_tracer::Topology;
use path_tracer::Uniforms;
use path_tracer::configure_surface;
use path_tracer::create_display_pipeline;
use path_tracer::plan_session;
use path_tracer::select_format;

#[test]
fn uniforms_bytes_are_little_endian_words() {
    let u = Uniforms { width: 960, height: 544 };
    let bytes = u.to_bytes();
    assert_eq!(bytes, vec![192, 3, 0, 0, 32, 2, 0, 0]);
}

#[test]
fn uniforms_round_trip_window_size() {
    let u = Uniforms { width: 960, height: 544 };
    let bytes = u.to_bytes();
    assert_eq!(Uniforms::from_bytes(&bytes), u);
}

#[test]
fn uniforms_round_trip_smallest_positive() {
    let u = Uniforms { width: 1, height: 1 };
    let bytes = u.to_bytes();
    assert_eq!(Uniforms::from_bytes(&bytes), u);
}

#[test]
fn uniforms_round_trip_largest() {
    let u = Uniforms { width: u32::MAX, height: u32::MAX - 7 };
    let bytes = u.to_bytes();
    assert_eq!(bytes.len(), 8);
    assert_eq!(Uniforms::from_bytes(&bytes), u);
}

#[test]
fn select_format_takes_first_accepted_in_reported_order() {
    let formats = vec![
        SurfaceFormat::Other,
        SurfaceFormat::Bgra8UnormSrgb,
        SurfaceFormat::Bgra8Unorm,
        SurfaceFormat::Rgba8Unorm,
    ];
    assert_eq!(select_format(&formats), Ok(SurfaceFormat::Bgra8Unorm));

    let formats = vec![SurfaceFormat::Rgba8Unorm, SurfaceFormat::Bgra8Unorm];
    assert_eq!(select_format(&formats), Ok(SurfaceFormat::Rgba8Unorm));
}

#[test]
fn select_format_is_deterministic_across_reruns() {
    let formats = vec![
        SurfaceFormat::Rgba8UnormSrgb,
        SurfaceFormat::Bgra8Unorm,
        SurfaceFormat::Rgba8Unorm,
    ];
    let first = select_format(&formats);
    let second = select_format(&formats);
    assert_eq!(first, second);
    assert_eq!(first, Ok(SurfaceFormat::Bgra8Unorm));
}

#[test]
fn select_format_without_accepted_format_is_a_setup_error() {
    let formats = vec![
        SurfaceFormat::Rgba8UnormSrgb,
        SurfaceFormat::Bgra8UnormSrgb,
        SurfaceFormat::Other,
    ];
    assert_eq!(select_format(&formats), Err(SetupError::NoCompatibleFormat));
}

#[test]
fn select_format_on_empty_capability_list_is_a_setup_error() {
    let formats: Vec<SurfaceFormat> = Vec::new();
    assert_eq!(select_format(&formats), Err(SetupError::NoCompatibleFormat));
}

#[test]
fn setup_error_messages_name_the_cause() {
    assert_eq!(
        SetupError::NoCompatibleAdapter.message(),
        "Failed to find a compatible adapter"
    );
    assert_eq!(SetupError::NoDeviceGranted.message(), "Failed to connect to the GPU");
    assert_eq!(
        SetupError::NoCompatibleFormat.message(),
        "Couldn't find preferred texture format (Rgba8Unorm or Bgra8Unorm)"
    );
}

#[test]
fn configure_surface_takes_first_reported_alpha_mode() {
    let caps = SurfaceCapabilities {
        formats: vec![SurfaceFormat::Rgba8Unorm],
        alpha_modes: vec![AlphaMode::PostMultiplied, AlphaMode::Opaque],
    };
    let config = configure_surface(960, 544, SurfaceFormat::Rgba8Unorm, &caps);
    assert!(config.usage_render_attachment);
    assert_eq!(config.format, SurfaceFormat::Rgba8Unorm);
    assert_eq!(config.width, 960);
    assert_eq!(config.height, 544);
    assert_eq!(config.present_mode, PresentMode::AutoVsync);
    assert_eq!(config.desired_maximum_frame_latency, 3);
    assert_eq!(config.alpha_mode, AlphaMode::PostMultiplied);
}

#[test]
fn plan_session_without_adapter_fails_first() {
    let caps = SurfaceCapabilities { formats: Vec::new(), alpha_modes: Vec::new() };
    assert_eq!(
        plan_session(false, false, &caps, 960, 544),
        Err(SetupError::NoCompatibleAdapter)
    );
}

#[test]
fn plan_session_without_device_grant_fails_second() {
    let caps = SurfaceCapabilities { formats: Vec::new(), alpha_modes: Vec::new() };
    assert_eq!(
        plan_session(true, false, &caps, 960, 544),
        Err(SetupError::NoDeviceGranted)
    );
}

#[test]
fn plan_session_without_accepted_format_fails_with_format_error() {
    let caps = SurfaceCapabilities {
        formats: vec![SurfaceFormat::Bgra8UnormSrgb],
        alpha_modes: vec![AlphaMode::Auto],
    };
    assert_eq!(
        plan_session(true, true, &caps, 960, 544),
        Err(SetupError::NoCompatibleFormat)
    );
}

#[test]
fn plan_session_builds_the_negotiated_configuration() {
    let caps = SurfaceCapabilities {
        formats: vec![SurfaceFormat::Other, SurfaceFormat::Rgba8Unorm],
        alpha_modes: vec![AlphaMode::Opaque, AlphaMode::Inherit],
    };
    let config = plan_session(true, true, &caps, 960, 544).unwrap();
    assert!(config.usage_render_attachment);
    assert_eq!(config.format, SurfaceFormat::Rgba8Unorm);
    assert_eq!(config.width, 960);
    assert_eq!(config.height, 544);
    assert_eq!(config.present_mode, PresentMode::AutoVsync);
    assert_eq!(config.desired_maximum_frame_latency, 3);
    assert_eq!(config.alpha_mode, AlphaMode::Opaque);
}

#[test]
fn display_pipeline_is_fully_pinned_down() {
    let p = create_display_pipeline(SurfaceFormat::Bgra8Unorm);
    assert_eq!(p.vertex_entry_point, "display_vs");
    assert_eq!(p.fragment_entry_point, "display_fs");
    assert_eq!(p.topology, Topology::TriangleList);
    assert_eq!(p.front_face, FrontFace::Ccw);
    assert_eq!(p.polygon_mode, PolygonMode::Fill);
    assert!(!p.has_depth_stencil);
    assert_eq!(p.multisample_count, 1);
    assert_eq!(p.target_format, SurfaceFormat::Bgra8Unorm);
    assert!(!p.has_blending);
    assert!(p.writes_all_channels);
    assert_eq!(p.uniform_binding.binding, 0);
    assert!(p.uniform_binding.visibility.fragment);
    assert!(!p.uniform_binding.visibility.vertex);
    assert!(p.uniform_binding.uniform_buffer);
    assert!(!p.uniform_binding.has_dynamic_offset);
}
