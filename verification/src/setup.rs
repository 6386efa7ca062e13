//! Session establishment: negotiating a presentable surface format from the
//! platform-reported capability list and assembling the surface
//! configuration. The asynchronous adapter/device requests themselves are an
//! external collaborator's work; their outcomes and the reported
//! capabilities are handed to this module as plain values, and the module
//! decides the rest: which format to present
//! in, how to configure the surface, and which setup error is fatal.

use vstd::prelude::*;

verus! {

/// A surface color format as reported in the platform's capability list.
/// Only the two accepted 8-bit-per-channel formats are distinguished by the
/// session logic; every other reported format is `Other`.
#[derive(Clone, Copy, PartialEq, Eq, Structural, Debug)]
pub enum SurfaceFormat {
    Rgba8Unorm,
    Bgra8Unorm,
    Rgba8UnormSrgb,
    Bgra8UnormSrgb,
    Other,
}

/// An alpha compositing mode as reported in the platform's capability list.
#[derive(Clone, Copy, PartialEq, Eq, Structural, Debug)]
pub enum AlphaMode {
    Auto,
    Opaque,
    PreMultiplied,
    PostMultiplied,
    Inherit,
}

/// A presentation mode for the configured surface.
#[derive(Clone, Copy, PartialEq, Eq, Structural, Debug)]
pub enum PresentMode {
    AutoVsync,
    AutoNoVsync,
    Fifo,
    FifoRelaxed,
    Immediate,
    Mailbox,
}

/// What the platform reports the surface can do: the supported color
/// formats and alpha compositing modes, each in platform order.
#[derive(Clone, Debug)]
pub struct SurfaceCapabilities {
    pub formats: Vec<SurfaceFormat>,
    pub alpha_modes: Vec<AlphaMode>,
}

/// The surface configuration the session presents with. The surface must be
/// configured with the session's exact dimensions and negotiated format
/// before any frame is presented.
#[derive(Clone, Copy, PartialEq, Eq, Structural, Debug)]
pub struct SurfaceConfig {
    /// The surface is used as a render attachment.
    pub usage_render_attachment: bool,
    pub format: SurfaceFormat,
    pub width: u32,
    pub height: u32,
    pub present_mode: PresentMode,
    pub desired_maximum_frame_latency: u32,
    pub alpha_mode: AlphaMode,
}

/// The unrecoverable ways establishment can fail. A session without an
/// adapter, a device, or a presentable format cannot render, so none of
/// these is retried.
#[derive(Clone, Copy, PartialEq, Eq, Structural, Debug)]
pub enum SetupError {
    NoCompatibleAdapter,
    NoDeviceGranted,
    NoCompatibleFormat,
}

impl SetupError {
    /// The causal context reported for this failure.
    pub open spec fn spec_message(self) -> Seq<char> {
        match self {
            SetupError::NoCompatibleAdapter => "Failed to find a compatible adapter"@,
            SetupError::NoDeviceGranted => "Failed to connect to the GPU"@,
            SetupError::NoCompatibleFormat =>
                "Couldn't find preferred texture format (Rgba8Unorm or Bgra8Unorm)"@,
        }
    }

    /// Renders the causal context for error reporting.
    pub fn message(&self) -> (m: &'static str)
        ensures
            m@ == self.spec_message(),
    {
        match self {
            SetupError::NoCompatibleAdapter => "Failed to find a compatible adapter",
            SetupError::NoDeviceGranted => "Failed to connect to the GPU",
            SetupError::NoCompatibleFormat =>
                "Couldn't find preferred texture format (Rgba8Unorm or Bgra8Unorm)",
        }
    }
}

/// Whether a reported format is one of the two the display pipeline accepts.
pub open spec fn accepted_format(f: SurfaceFormat) -> bool {
    f == SurfaceFormat::Rgba8Unorm || f == SurfaceFormat::Bgra8Unorm
}

/// The first accepted format at or after position `i` of the capability
/// list, in platform-reported order.
pub open spec fn first_accepted_from(formats: Seq<SurfaceFormat>, i: int) -> Option<SurfaceFormat>
    decreases formats.len() - i,
{
    if i < 0 || i >= formats.len() {
        None
    } else if accepted_format(formats[i]) {
        Some(formats[i])
    } else {
        first_accepted_from(formats, i + 1)
    }
}

/// The format the session negotiates: the first accepted format in
/// platform-reported order, if any.
pub open spec fn spec_first_accepted(formats: Seq<SurfaceFormat>) -> Option<SurfaceFormat> {
    first_accepted_from(formats, 0)
}

/// What format selection returns on a given capability list.
pub open spec fn spec_select_format(formats: Seq<SurfaceFormat>) -> Result<
    SurfaceFormat,
    SetupError,
> {
    match spec_first_accepted(formats) {
        Option::Some(f) => Result::Ok(f),
        Option::None => Result::Err(SetupError::NoCompatibleFormat),
    }
}

impl SurfaceFormat {
    /// Whether this format is one of the two the display pipeline accepts.
    pub fn is_accepted(&self) -> (r: bool)
        ensures
            r == accepted_format(*self),
    {
        match self {
            SurfaceFormat::Rgba8Unorm => true,
            SurfaceFormat::Bgra8Unorm => true,
            _ => false,
        }
    }
}

/// Selects the presentation format: the first format of the capability list
/// that the display pipeline accepts, or the format setup error when the
/// list offers neither accepted format.
pub fn select_format(formats: &Vec<SurfaceFormat>) -> (r: Result<SurfaceFormat, SetupError>)
    ensures
        r == spec_select_format(formats@),
{
    let n = formats.len();
    let mut i: usize = 0;
    while i < n
        invariant
            0 <= i <= n,
            n == formats@.len(),
            first_accepted_from(formats@, 0) == first_accepted_from(formats@, i as int),
        decreases n - i,
    {
        let f = formats[i];
        if f.is_accepted() {
            return Result::Ok(f);
        }
        i = i + 1;
    }
    Result::Err(SetupError::NoCompatibleFormat)
}

/// Law: format selection is deterministic. Any two selections made from the
/// same capability list agree; re-running the Establisher on a fixed
/// capability list yields the same format.
pub proof fn lemma_selection_deterministic(
    formats: Seq<SurfaceFormat>,
    r1: Result<SurfaceFormat, SetupError>,
    r2: Result<SurfaceFormat, SetupError>,
)
    requires
        r1 == spec_select_format(formats),
        r2 == spec_select_format(formats),
    ensures
        r1 == r2,
{
}

/// Law: the negotiated format is exactly the first accepted format in
/// platform-reported order, and selection succeeds if and only if the
/// capability list contains an accepted format. When it does not, the
/// failure is the format setup error, nothing else.
pub proof fn lemma_selection_first_in_order(formats: Seq<SurfaceFormat>)
    ensures
        spec_select_format(formats) matches Result::Ok(f) ==> exists|k: int|
            0 <= k < formats.len() && formats[k] == f && accepted_format(f) && (forall|j: int|
                0 <= j < k ==> !accepted_format(formats[j])),
        spec_select_format(formats) is Err <==> (forall|j: int|
            0 <= j < formats.len() ==> !accepted_format(formats[j])),
        spec_select_format(formats) is Err ==> spec_select_format(formats) == Result::<
            SurfaceFormat,
            SetupError,
        >::Err(SetupError::NoCompatibleFormat),
{
    lemma_first_accepted_from(formats, 0);
}

/// The first accepted format at or after `i` is indeed the first: it is
/// accepted, it occurs in the list, and nothing accepted precedes it; and
/// there is none exactly when no accepted format occurs at or after `i`.
proof fn lemma_first_accepted_from(formats: Seq<SurfaceFormat>, i: int)
    requires
        0 <= i <= formats.len(),
    ensures
        first_accepted_from(formats, i) is None <==> (forall|j: int|
            i <= j < formats.len() ==> !accepted_format(formats[j])),
        first_accepted_from(formats, i) matches Some(f) ==> exists|k: int|
            i <= k < formats.len() && formats[k] == f && accepted_format(f) && (forall|j: int|
                i <= j < k ==> !accepted_format(formats[j])),
    decreases formats.len() - i,
{
    if i == formats.len() {
    } else if accepted_format(formats[i]) {
        assert(i <= i < formats.len() && formats[i] == formats[i] && accepted_format(formats[i])
            && (forall|j: int| i <= j < i ==> !accepted_format(formats[j])));
    } else {
        lemma_first_accepted_from(formats, i + 1);
        match first_accepted_from(formats, i) {
            Option::Some(f) => {
                let k = choose|k: int|
                    i + 1 <= k < formats.len() && formats[k] == f && accepted_format(f) && (forall|
                        j: int,
                    |
                        i + 1 <= j < k ==> !accepted_format(formats[j]));
                assert(forall|j: int| i <= j < k ==> !accepted_format(formats[j]));
                assert(i <= k < formats.len() && formats[k] == f && accepted_format(f) && (forall|
                    j: int,
                |
                    i <= j < k ==> !accepted_format(formats[j])));
            },
            Option::None => {},
        }
    }
}

/// The surface configuration the Establisher builds: render-attachment usage,
/// the negotiated format, the window's pixel dimensions, vsync-style
/// presentation, at most three in-flight frames, and the first reported
/// alpha compositing mode.
pub open spec fn spec_surface_config(
    width: u32,
    height: u32,
    format: SurfaceFormat,
    alpha_mode: AlphaMode,
) -> SurfaceConfig {
    SurfaceConfig {
        usage_render_attachment: true,
        format,
        width,
        height,
        present_mode: PresentMode::AutoVsync,
        desired_maximum_frame_latency: 3,
        alpha_mode,
    }
}

/// Assembles the surface configuration for a negotiated format and the
/// window's pixel dimensions, taking the first reported alpha mode.
pub fn configure_surface(
    width: u32,
    height: u32,
    format: SurfaceFormat,
    caps: &SurfaceCapabilities,
) -> (config: SurfaceConfig)
    requires
        caps.alpha_modes@.len() > 0,
    ensures
        config == spec_surface_config(width, height, format, caps.alpha_modes@[0]),
{
    SurfaceConfig {
        usage_render_attachment: true,
        format,
        width,
        height,
        present_mode: PresentMode::AutoVsync,
        desired_maximum_frame_latency: 3,
        alpha_mode: caps.alpha_modes[0],
    }
}

/// What establishment decides, given the outcomes of the two asynchronous
/// platform requests and the reported capabilities.
pub open spec fn spec_plan_session(
    adapter_found: bool,
    device_granted: bool,
    formats: Seq<SurfaceFormat>,
    alpha_modes: Seq<AlphaMode>,
    width: u32,
    height: u32,
) -> Result<SurfaceConfig, SetupError> {
    if !adapter_found {
        Result::Err(SetupError::NoCompatibleAdapter)
    } else if !device_granted {
        Result::Err(SetupError::NoDeviceGranted)
    } else {
        match spec_first_accepted(formats) {
            Option::Some(f) => Result::Ok(spec_surface_config(width, height, f, alpha_modes[0])),
            Option::None => Result::Err(SetupError::NoCompatibleFormat),
        }
    }
}

/// The Establisher's full decision. The external collaborator performs the
/// asynchronous adapter and device requests and queries the surface
/// capabilities; this function decides, in establishment order, whether the
/// session can exist and with which surface configuration: no adapter and
/// no device grant are each fatal before capabilities are consulted, then
/// the first accepted format is taken and the surface configuration built.
pub fn plan_session(
    adapter_found: bool,
    device_granted: bool,
    caps: &SurfaceCapabilities,
    width: u32,
    height: u32,
) -> (r: Result<SurfaceConfig, SetupError>)
    requires
        adapter_found && device_granted && spec_first_accepted(caps.formats@) is Some
            ==> caps.alpha_modes@.len() > 0,
    ensures
        r == spec_plan_session(
            adapter_found,
            device_granted,
            caps.formats@,
            caps.alpha_modes@,
            width,
            height,
        ),
{
    if !adapter_found {
        return Result::Err(SetupError::NoCompatibleAdapter);
    }
    if !device_granted {
        return Result::Err(SetupError::NoDeviceGranted);
    }
    match select_format(&caps.formats) {
        Result::Ok(format) => Result::Ok(configure_surface(width, height, format, caps)),
        Result::Err(e) => Result::Err(e),
    }
}

} // verus!
