//! The GPU-backed driver and the protocol that brings it up.
//!
//! Bringing a driver up is a conversation with the platform. The library
//! holds the state of that conversation in a [`BringUp`] and names the next
//! thing to do as a [`Request`]; the host does it and reports a [`Reply`].
//! A [`WgpuDriver`] exists only once the whole conversation has succeeded.

use vstd::prelude::*;
use web_sys::HtmlCanvasElement;

use crate::app::CanvasElement;
use crate::render::driver::GraphicsDriver;

verus! {

/// `wgpu::TextureFormat`: the pixel format of a texture. The library picks one
/// out of a list and passes it on; nothing is assumed of its variants.
#[verifier::external_type_specification]
#[verifier::external_body]
pub struct ExTextureFormat(::wgpu::TextureFormat);

/// `wgpu::PresentMode`: how frames are handed to the display. The library
/// stores the one the platform reports and passes it on unread.
#[verifier::external_type_specification]
#[verifier::external_body]
pub struct ExPresentMode(::wgpu::PresentMode);

/// The shader program of the one pipeline: a vertex stage that places three
/// vertices from the built-in vertex index, and a fragment stage that paints
/// opaque white.
pub const SRC: &'static str = r###"
@vertex
fn vs_main(@builtin(vertex_index) in_vertex_index: u32) -> @builtin(position) vec4<f32> {
    let x = f32(i32(in_vertex_index) - 1);
    let y = f32(i32(in_vertex_index & 1u) * 2 - 1);
    return vec4<f32>(x, y, 0.0, 1.0);
}

@fragment
fn fs_main() -> @location(0) vec4<f32> {
    return vec4<f32>(1.0, 1.0, 1.0, 1.0);
}
"###;

/// Why bringing the driver up failed.
#[derive(Clone, Copy, Debug, PartialEq, Eq, Structural)]
pub enum WgpuDriverError {
    /// The drawable could not be bound as a presentable surface.
    CreateSurfaceError,
    /// No adapter is compatible with the surface.
    AdapterNotFound,
    /// The adapter refused to hand out a device and queue.
    CreateDeviceError,
}

pub type WgpuDriverResult<T> = Result<T, WgpuDriverError>;

impl WgpuDriverError {
    /// The text shown for the error.
    pub open spec fn message(self) -> Seq<char> {
        match self {
            WgpuDriverError::CreateSurfaceError => "Failed to create surface"@,
            WgpuDriverError::AdapterNotFound => "Failed to find an appropriate adapter"@,
            WgpuDriverError::CreateDeviceError => "Failed to create device"@,
        }
    }

    /// Renders the error as text.
    pub fn to_string(&self) -> (text: String)
        ensures
            text@ == self.message(),
    {
        match self {
            WgpuDriverError::CreateSurfaceError => "Failed to create surface".to_owned(),
            WgpuDriverError::AdapterNotFound => "Failed to find an appropriate adapter".to_owned(),
            WgpuDriverError::CreateDeviceError => "Failed to create device".to_owned(),
        }
    }
}

/// A class of GPU backend.
#[derive(Clone, Copy, Debug, PartialEq, Eq, Structural)]
pub enum Backend {
    Vulkan,
    Metal,
    Dx12,
    Gl,
    BrowserWebGpu,
}

/// How much power use weighs in the choice of an adapter.
#[derive(Clone, Copy, Debug, PartialEq, Eq, Structural)]
pub enum PowerPreference {
    /// Power use is not considered.
    NoPreference,
    LowPower,
    HighPerformance,
}

/// What is asked of an adapter.
#[derive(Clone, Copy, Debug, PartialEq, Eq, Structural)]
pub struct AdapterRequest {
    pub power_preference: PowerPreference,
    /// Whether a software adapter is acceptable.
    pub force_fallback_adapter: bool,
    /// Whether the adapter must be able to present to the bound surface.
    pub compatible_surface: bool,
}

/// A named set of device limits.
#[derive(Clone, Copy, Debug, PartialEq, Eq, Structural)]
pub enum LimitsProfile {
    Defaults,
    DownlevelDefaults,
    /// The limits that a WebGL2 context is able to meet.
    DownlevelWebgl2,
}

/// What a device should favour when it allocates memory.
#[derive(Clone, Copy, Debug, PartialEq, Eq, Structural)]
pub enum MemoryHints {
    Performance,
    MemoryUsage,
}

/// What is asked of a device.
#[derive(Clone, Copy, Debug, PartialEq, Eq, Structural)]
pub struct DeviceRequest {
    /// The required features as a set of bits; zero asks for none.
    pub required_features: u64,
    pub required_limits: LimitsProfile,
    /// Whether the texture-size limits are taken from the adapter instead of
    /// from the profile.
    pub adapter_resolution: bool,
    pub memory_hints: MemoryHints,
}

/// The one render pipeline, described down to what the platform needs to
/// build it.
#[derive(Clone, Copy, Debug, PartialEq, Eq)]
pub struct PipelinePlan {
    pub shader_source: &'static str,
    pub vertex_entry_point: &'static str,
    pub fragment_entry_point: &'static str,
    /// The format of the one colour target.
    pub target_format: ::wgpu::TextureFormat,
    /// The number of bind-group layouts in the pipeline layout.
    pub bind_group_layouts: u32,
    /// The number of push-constant ranges in the pipeline layout.
    pub push_constant_ranges: u32,
}

/// A background colour.
#[derive(Clone, Copy, Debug, PartialEq, Eq, Structural)]
pub enum ClearColor {
    Transparent,
    Black,
    White,
    Red,
    Green,
    Blue,
}

/// One frame: a single pass that clears the target and draws once.
#[derive(Clone, Copy, Debug, PartialEq, Eq, Structural)]
pub struct FramePlan {
    pub clear_color: ClearColor,
    pub vertices: u32,
    pub instances: u32,
}

/// The swap-chain configuration of the surface.
#[derive(Clone, Copy, Debug, PartialEq, Eq)]
pub struct SurfaceConfiguration {
    pub format: ::wgpu::TextureFormat,
    pub present_mode: ::wgpu::PresentMode,
    pub width: u32,
    pub height: u32,
}

/// The adapter request of the bring-up: default power preference, no software
/// fallback, compatible with the surface that was bound.
pub open spec fn adapter_request() -> AdapterRequest {
    AdapterRequest {
        power_preference: PowerPreference::NoPreference,
        force_fallback_adapter: false,
        compatible_surface: true,
    }
}

/// The device request of the bring-up: no features, the WebGL2 limits with
/// the adapter's own texture sizes, memory use favoured over speed.
pub open spec fn device_request() -> DeviceRequest {
    DeviceRequest {
        required_features: 0,
        required_limits: LimitsProfile::DownlevelWebgl2,
        adapter_resolution: true,
        memory_hints: MemoryHints::MemoryUsage,
    }
}

/// The pipeline of the driver for a target of the given format: the embedded
/// shader, its two entry points, and an empty pipeline layout.
pub open spec fn pipeline_plan(format: ::wgpu::TextureFormat) -> PipelinePlan {
    PipelinePlan {
        shader_source: SRC,
        vertex_entry_point: "vs_main",
        fragment_entry_point: "fs_main",
        target_format: format,
        bind_group_layouts: 0,
        push_constant_ranges: 0,
    }
}

/// The frame drawn once at the end of the bring-up: a green background and
/// one triangle.
pub open spec fn first_frame() -> FramePlan {
    FramePlan { clear_color: ClearColor::Green, vertices: 3, instances: 1 }
}

/// The format chosen out of the formats a surface supports: the first one.
pub open spec fn selected_format(formats: Seq<::wgpu::TextureFormat>) -> Option<
    ::wgpu::TextureFormat,
> {
    if formats.len() > 0 {
        Some(formats[0])
    } else {
        None
    }
}

/// Chooses the swap-chain format: the first format reported wins, whatever
/// follows it. There is a choice exactly when the list is not empty.
pub fn select_format(formats: &Vec<::wgpu::TextureFormat>) -> (chosen: Option<
    ::wgpu::TextureFormat,
>)
    ensures
        chosen == selected_format(formats@),
{
    if formats.len() > 0 {
        Some(formats[0])
    } else {
        None
    }
}

/// What the library asks the host to do next.
///
/// The host may have to wait for an adapter and for a device; every other
/// request is carried out at once.
#[derive(Debug, PartialEq, Eq)]
pub enum Request {
    /// Create a backend instance restricted to `backend` and bind `target` as
    /// its presentable surface.
    BindSurface { backend: Backend, target: HtmlCanvasElement },
    /// Ask the instance for an adapter.
    RequestAdapter(AdapterRequest),
    /// Ask the adapter for a device and its queue.
    RequestDevice(DeviceRequest),
    /// Report the presentation formats the surface supports with the adapter,
    /// in the order the platform lists them.
    QueryFormats,
    /// Compile the shader and build the pipeline.
    BuildPipeline(PipelinePlan),
    /// Derive the default swap-chain configuration for the adapter and this
    /// size, and apply it to the surface.
    Configure { width: u32, height: u32 },
    /// Draw and present one frame.
    PresentFrame(FramePlan),
}

/// What the host reports back.
#[derive(Debug, PartialEq, Eq)]
pub enum Reply {
    SurfaceBound,
    SurfaceRejected,
    AdapterFound,
    AdapterMissing,
    DeviceGranted,
    DeviceRejected,
    /// The supported presentation formats, preferred first.
    Formats(Vec<::wgpu::TextureFormat>),
    PipelineBuilt,
    /// The surface was configured; these are the format and the present mode
    /// of the configuration the platform derived.
    Configured { format: ::wgpu::TextureFormat, present_mode: ::wgpu::PresentMode },
    FramePresented,
}

/// How far a bring-up has come. In every stage exactly one request is
/// outstanding; the driver itself is what stands at the end, presenting.
#[derive(Clone, Copy, Debug, PartialEq, Eq)]
pub enum Stage {
    /// Nothing exists yet; the surface is being bound.
    Uninitialized,
    /// The surface is bound; an adapter is being requested.
    SurfaceBound,
    /// An adapter is selected; a device and its queue are being requested.
    AdapterSelected,
    /// Device and queue exist; the supported formats are being queried.
    DeviceReady,
    /// The format is chosen; the pipeline is being built for it.
    FormatSelected { format: ::wgpu::TextureFormat },
    /// The pipeline is ready; the surface is being configured.
    PipelineReady { format: ::wgpu::TextureFormat },
    /// The surface is configured; the first frame is being drawn.
    Configured {
        format: ::wgpu::TextureFormat,
        surface_format: ::wgpu::TextureFormat,
        present_mode: ::wgpu::PresentMode,
    },
}

/// The state of a bring-up as contracts see it.
pub struct State {
    pub stage: Stage,
    /// The drawable size the bring-up was started with.
    pub width: u32,
    pub height: u32,
}

/// The state of a driver as contracts see it.
pub struct DriverState {
    pub width: u32,
    pub height: u32,
    pub config: SurfaceConfiguration,
    pub render_pipeline: PipelinePlan,
}

/// Where a bring-up stands after a step, as contracts see it.
pub enum Outcome {
    /// The bring-up goes on once the host has answered the request.
    Pending(State, Request),
    /// The driver is up and presenting.
    Ready(DriverState),
    /// The bring-up is over; nothing of the driver exists.
    Failed(WgpuDriverError),
}

impl DriverState {
    /// The swap-chain configuration has the size the driver has cached.
    pub open spec fn consistent(self) -> bool {
        self.config.width == self.width && self.config.height == self.height
    }

    /// The state after the cached size was copied into the configuration.
    pub open spec fn reconfigured(self) -> DriverState {
        DriverState {
            config: SurfaceConfiguration {
                width: self.width,
                height: self.height,
                ..self.config
            },
            ..self
        }
    }

    /// The state after a resize to `width` by `height`: both the cached size
    /// and the configuration take the new size, and nothing else changes.
    pub open spec fn resized(self, width: u32, height: u32) -> DriverState {
        (DriverState { width, height, ..self }).reconfigured()
    }
}

impl State {
    /// The same bring-up at another stage.
    pub open spec fn at(self, stage: Stage) -> State {
        State { stage, ..self }
    }

    /// Whether `reply` answers the request that is outstanding in this
    /// state. A list of formats answers the query only if it names a format.
    pub open spec fn accepts(self, reply: Reply) -> bool {
        match self.stage {
            Stage::Uninitialized => reply is SurfaceBound || reply is SurfaceRejected,
            Stage::SurfaceBound => reply is AdapterFound || reply is AdapterMissing,
            Stage::AdapterSelected => reply is DeviceGranted || reply is DeviceRejected,
            Stage::DeviceReady => reply matches Reply::Formats(formats) && formats@.len() > 0,
            Stage::FormatSelected { .. } => reply is PipelineBuilt,
            Stage::PipelineReady { .. } => reply is Configured,
            Stage::Configured { .. } => reply is FramePresented,
        }
    }

    /// The step of the bring-up: where it stands once `reply` has come in.
    ///
    /// A refusal ends the bring-up with the error of the stage. Any other
    /// reply moves it to the next stage and names the next request, until the
    /// first frame is presented and the driver is ready. The step has no
    /// meaning for a reply that the state does not accept.
    pub open spec fn next(self, reply: Reply) -> Outcome
        recommends
            self.accepts(reply),
    {
        match self.stage {
            Stage::Uninitialized => match reply {
                Reply::SurfaceBound => Outcome::Pending(
                    self.at(Stage::SurfaceBound),
                    Request::RequestAdapter(adapter_request()),
                ),
                _ => Outcome::Failed(WgpuDriverError::CreateSurfaceError),
            },
            Stage::SurfaceBound => match reply {
                Reply::AdapterFound => Outcome::Pending(
                    self.at(Stage::AdapterSelected),
                    Request::RequestDevice(device_request()),
                ),
                _ => Outcome::Failed(WgpuDriverError::AdapterNotFound),
            },
            Stage::AdapterSelected => match reply {
                Reply::DeviceGranted => Outcome::Pending(
                    self.at(Stage::DeviceReady),
                    Request::QueryFormats,
                ),
                _ => Outcome::Failed(WgpuDriverError::CreateDeviceError),
            },
            Stage::DeviceReady => {
                let format = selected_format(reply->Formats_0@)->Some_0;
                Outcome::Pending(
                    self.at(Stage::FormatSelected { format }),
                    Request::BuildPipeline(pipeline_plan(format)),
                )
            },
            Stage::FormatSelected { format } => Outcome::Pending(
                self.at(Stage::PipelineReady { format }),
                Request::Configure { width: self.width, height: self.height },
            ),
            Stage::PipelineReady { format } => Outcome::Pending(
                self.at(
                    Stage::Configured {
                        format,
                        surface_format: reply->Configured_format,
                        present_mode: reply->Configured_present_mode,
                    },
                ),
                Request::PresentFrame(first_frame()),
            ),
            Stage::Configured { format, surface_format, present_mode } => Outcome::Ready(
                DriverState {
                    width: self.width,
                    height: self.height,
                    config: SurfaceConfiguration {
                        format: surface_format,
                        present_mode,
                        width: self.width,
                        height: self.height,
                    },
                    render_pipeline: pipeline_plan(format),
                },
            ),
        }
    }
}

/// Where the bring-up for a canvas starts: nothing exists yet, and the first
/// request binds the canvas on a backend instance restricted to GL.
pub open spec fn begin(canvas: CanvasElement) -> Outcome {
    Outcome::Pending(
        State { stage: Stage::Uninitialized, width: canvas.width, height: canvas.height },
        Request::BindSurface { backend: Backend::Gl, target: canvas.elm },
    )
}

/// A bring-up in progress. It is made by [`WgpuDriver::from_canvas`] and moved
/// forward by [`BringUp::resume`]; there is no other way to obtain one.
#[derive(Debug)]
pub struct BringUp {
    stage: Stage,
    width: u32,
    height: u32,
}

impl View for BringUp {
    type V = State;

    closed spec fn view(&self) -> State {
        State { stage: self.stage, width: self.width, height: self.height }
    }
}

/// The driver that renders through the GPU.
///
/// A value of this type stands for a device, its queue, a configured surface
/// and a built pipeline: it is only ever handed out by a bring-up that went
/// through. The pipeline never changes; the configuration and the cached size
/// change on resize, and only there.
#[derive(Debug)]
pub struct WgpuDriver {
    config: SurfaceConfiguration,
    width: u32,
    height: u32,
    render_pipeline: PipelinePlan,
}

impl View for WgpuDriver {
    type V = DriverState;

    closed spec fn view(&self) -> DriverState {
        DriverState {
            width: self.width,
            height: self.height,
            config: self.config,
            render_pipeline: self.render_pipeline,
        }
    }
}

/// Where a bring-up stands after a step.
#[derive(Debug)]
pub enum Negotiation {
    /// The host is to carry out the request and resume the bring-up with the
    /// reply.
    Pending(BringUp, Request),
    /// The driver is up.
    Ready(WgpuDriver),
    /// The bring-up failed. No driver, whole or partial, comes out of it.
    Failed(WgpuDriverError),
}

impl View for Negotiation {
    type V = Outcome;

    open spec fn view(&self) -> Outcome {
        match self {
            Negotiation::Pending(bring_up, request) => Outcome::Pending(bring_up@, *request),
            Negotiation::Ready(driver) => Outcome::Ready(driver@),
            Negotiation::Failed(error) => Outcome::Failed(*error),
        }
    }
}

impl BringUp {
    /// The stage the bring-up is at.
    pub fn stage(&self) -> (stage: Stage)
        ensures
            stage == self@.stage,
    {
        self.stage
    }

    /// The drawable size the bring-up was started with.
    pub fn size(&self) -> (size: (u32, u32))
        ensures
            size == (self@.width, self@.height),
    {
        (self.width, self.height)
    }

    /// Tells whether `reply` answers the outstanding request. `resume` may be
    /// called with exactly the replies for which this holds.
    pub fn accepts(&self, reply: &Reply) -> (ok: bool)
        ensures
            ok == self@.accepts(*reply),
    {
        match self.stage {
            Stage::Uninitialized => match reply {
                Reply::SurfaceBound => true,
                Reply::SurfaceRejected => true,
                _ => false,
            },
            Stage::SurfaceBound => match reply {
                Reply::AdapterFound => true,
                Reply::AdapterMissing => true,
                _ => false,
            },
            Stage::AdapterSelected => match reply {
                Reply::DeviceGranted => true,
                Reply::DeviceRejected => true,
                _ => false,
            },
            Stage::DeviceReady => match reply {
                Reply::Formats(formats) => formats.len() > 0,
                _ => false,
            },
            Stage::FormatSelected { .. } => match reply {
                Reply::PipelineBuilt => true,
                _ => false,
            },
            Stage::PipelineReady { .. } => match reply {
                Reply::Configured { .. } => true,
                _ => false,
            },
            Stage::Configured { .. } => match reply {
                Reply::FramePresented => true,
                _ => false,
            },
        }
    }

    /// Takes the reply to the outstanding request and moves the bring-up one
    /// step: to the next request, to the finished driver, or to the error
    /// that ends it.
    pub fn resume(self, reply: Reply) -> (result: Negotiation)
        requires
            self@.accepts(reply),
        ensures
            result@ == self@.next(reply),
    {
        match self.stage {
            Stage::Uninitialized => match reply {
                Reply::SurfaceBound => Negotiation::Pending(
                    BringUp { stage: Stage::SurfaceBound, width: self.width, height: self.height },
                    Request::RequestAdapter(
                        AdapterRequest {
                            power_preference: PowerPreference::NoPreference,
                            force_fallback_adapter: false,
                            compatible_surface: true,
                        },
                    ),
                ),
                _ => Negotiation::Failed(WgpuDriverError::CreateSurfaceError),
            },
            _ => WgpuDriver::init(self, reply),
        }
    }
}

impl WgpuDriver {
    /// Decides on the reply to the adapter request: with an adapter the
    /// bring-up goes on to ask for a device, without one it is over.
    fn init_adapter(bring_up: BringUp, reply: Reply) -> (result: Negotiation)
        requires
            bring_up@.stage is SurfaceBound,
            bring_up@.accepts(reply),
        ensures
            result@ == bring_up@.next(reply),
    {
        match reply {
            Reply::AdapterFound => Negotiation::Pending(
                BringUp {
                    stage: Stage::AdapterSelected,
                    width: bring_up.width,
                    height: bring_up.height,
                },
                Request::RequestDevice(
                    DeviceRequest {
                        required_features: 0,
                        required_limits: LimitsProfile::DownlevelWebgl2,
                        adapter_resolution: true,
                        memory_hints: MemoryHints::MemoryUsage,
                    },
                ),
            ),
            _ => Negotiation::Failed(WgpuDriverError::AdapterNotFound),
        }
    }

    /// Carries the bring-up from a bound surface to a presenting driver, one
    /// reply at a time: adapter, device, formats, pipeline, configuration,
    /// first frame.
    fn init(bring_up: BringUp, reply: Reply) -> (result: Negotiation)
        requires
            !(bring_up@.stage is Uninitialized),
            bring_up@.accepts(reply),
        ensures
            result@ == bring_up@.next(reply),
    {
        let width = bring_up.width;
        let height = bring_up.height;
        match bring_up.stage {
            Stage::Uninitialized => unreached(),
            Stage::SurfaceBound => Self::init_adapter(bring_up, reply),
            Stage::AdapterSelected => match reply {
                Reply::DeviceGranted => Negotiation::Pending(
                    BringUp { stage: Stage::DeviceReady, width, height },
                    Request::QueryFormats,
                ),
                _ => Negotiation::Failed(WgpuDriverError::CreateDeviceError),
            },
            Stage::DeviceReady => match reply {
                Reply::Formats(formats) => match select_format(&formats) {
                    Some(format) => Negotiation::Pending(
                        BringUp { stage: Stage::FormatSelected { format }, width, height },
                        Request::BuildPipeline(Self::pipeline(format)),
                    ),
                    None => unreached(),
                },
                _ => unreached(),
            },
            Stage::FormatSelected { format } => Negotiation::Pending(
                BringUp { stage: Stage::PipelineReady { format }, width, height },
                Request::Configure { width, height },
            ),
            Stage::PipelineReady { format } => match reply {
                Reply::Configured { format: surface_format, present_mode } => Negotiation::Pending(
                    BringUp {
                        stage: Stage::Configured { format, surface_format, present_mode },
                        width,
                        height,
                    },
                    Request::PresentFrame(
                        FramePlan { clear_color: ClearColor::Green, vertices: 3, instances: 1 },
                    ),
                ),
                _ => unreached(),
            },
            Stage::Configured { format, surface_format, present_mode } => Negotiation::Ready(
                WgpuDriver {
                    config: SurfaceConfiguration {
                        format: surface_format,
                        present_mode,
                        width,
                        height,
                    },
                    width,
                    height,
                    render_pipeline: Self::pipeline(format),
                },
            ),
        }
    }

    /// Describes the pipeline for a target of the given format.
    fn pipeline(format: ::wgpu::TextureFormat) -> (plan: PipelinePlan)
        ensures
            plan == pipeline_plan(format),
    {
        PipelinePlan {
            shader_source: SRC,
            vertex_entry_point: "vs_main",
            fragment_entry_point: "fs_main",
            target_format: format,
            bind_group_layouts: 0,
            push_constant_ranges: 0,
        }
    }

    /// Starts the bring-up of a driver for a canvas. The first request binds
    /// the canvas, on an instance restricted to the GL backend; the size of
    /// the canvas becomes the size the driver starts with.
    pub fn from_canvas(canvas: CanvasElement) -> (result: Negotiation)
        ensures
            result@ == begin(canvas),
    {
        Negotiation::Pending(
            BringUp { stage: Stage::Uninitialized, width: canvas.width, height: canvas.height },
            Request::BindSurface { backend: Backend::Gl, target: canvas.elm },
        )
    }

    /// Copies the cached size into the swap-chain configuration, which the
    /// host then applies to the surface as a whole.
    pub fn reconfigure_surface_size(&mut self)
        ensures
            final(self)@ == old(self)@.reconfigured(),
    {
        self.config.width = self.width;
        self.config.height = self.height;
    }

    /// The cached width of the drawable.
    pub fn width(&self) -> (width: u32)
        ensures
            width == self@.width,
    {
        self.width
    }

    /// The cached height of the drawable.
    pub fn height(&self) -> (height: u32)
        ensures
            height == self@.height,
    {
        self.height
    }

    /// The swap-chain configuration as it is stored.
    pub fn config(&self) -> (config: SurfaceConfiguration)
        ensures
            config == self@.config,
    {
        self.config
    }

    /// The pipeline the driver was brought up with.
    pub fn render_pipeline(&self) -> (plan: PipelinePlan)
        ensures
            plan == self@.render_pipeline,
    {
        self.render_pipeline
    }
}

impl GraphicsDriver for WgpuDriver {
    open spec fn size(&self) -> (u32, u32) {
        (self@.width, self@.height)
    }

    open spec fn configured(&self) -> (u32, u32) {
        (self@.config.width, self@.config.height)
    }

    fn resize_surface(&mut self, width: u32, height: u32)
        ensures
            final(self)@ == old(self)@.resized(width, height),
    {
        self.width = width;
        self.height = height;
        self.reconfigure_surface_size();
    }

    fn surface_size(&self) -> (size: (u32, u32)) {
        (self.width, self.height)
    }

    fn configured_size(&self) -> (size: (u32, u32)) {
        (self.config.width, self.config.height)
    }
}

} // verus!
