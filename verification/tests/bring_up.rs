use canvaspads::app::CanvasElement;
use canvaspads::app::CanvasElementOptions;
use canvaspads::app::Construction;
use canvaspads::app::Instance;
use canvaspads::app::InstanceError;
use canvaspads::app::Surface;
use canvaspads::render::driver::wgpu::AdapterRequest;
use canvaspads::render::driver::wgpu::Backend;
use canvaspads::render::driver::wgpu::BringUp;
use canvaspads::render::driver::wgpu::ClearColor;
use canvaspads::render::driver::wgpu::DeviceRequest;
use canvaspads::render::driver::wgpu::FramePlan;
use canvaspads::render::driver::wgpu::LimitsProfile;
use canvaspads::render::driver::wgpu::MemoryHints;
use canvaspads::render::driver::wgpu::Negotiation;
use canvaspads::render::driver::wgpu::PowerPreference;
use canvaspads::render::driver::wgpu::Reply;
use canvaspads::render::driver::wgpu::Request;
use canvaspads::render::driver::wgpu::Stage;
use canvaspads::render::driver::wgpu::SurfaceConfiguration;
use canvaspads::render::driver::wgpu::WgpuDriver;
use canvaspads::render::driver::wgpu::WgpuDriverError;
use canvaspads::render::driver::wgpu::select_format;
use canvaspads::render::driver::wgpu::SRC;
use wasm_bindgen::convert::IntoWasmAbi;
use wasm_bindgen::JsCast;
use wasm_bindgen::JsValue;
use web_sys::HtmlCanvasElement;

fn canvas(width: u32, height: u32) -> CanvasElement {
    CanvasElement {
        elm: JsValue::NULL.unchecked_into::<HtmlCanvasElement>(),
        width,
        height,
        padding: (0, 0, 0, 0),
    }
}

fn pending(negotiation: Negotiation) -> (BringUp, Request) {
    match negotiation {
        Negotiation::Pending(bring_up, request) => (bring_up, request),
        Negotiation::Ready(_) => panic!("the driver is up, no request is outstanding"),
        Negotiation::Failed(error) => panic!("the bring-up failed: {}", error.to_string()),
    }
}

fn failure(negotiation: Negotiation) -> WgpuDriverError {
    match negotiation {
        Negotiation::Failed(error) => error,
        _ => panic!("the bring-up did not fail"),
    }
}

/// Answers every request in the affirmative, as a platform with these
/// formats and this present mode would, and returns the driver.
fn bring_up(canvas: CanvasElement, formats: Vec<wgpu::TextureFormat>, present_mode: wgpu::PresentMode) -> WgpuDriver {
    let mut negotiation = WgpuDriver::from_canvas(canvas);
    let mut steps = 0;
    loop {
        let (state, request) = match negotiation {
            Negotiation::Ready(driver) => return driver,
            Negotiation::Failed(error) => panic!("the bring-up failed: {}", error.to_string()),
            Negotiation::Pending(state, request) => (state, request),
        };
        let reply = match request {
            Request::BindSurface { .. } => Reply::SurfaceBound,
            Request::RequestAdapter(_) => Reply::AdapterFound,
            Request::RequestDevice(_) => Reply::DeviceGranted,
            Request::QueryFormats => Reply::Formats(formats.clone()),
            Request::BuildPipeline(_) => Reply::PipelineBuilt,
            Request::Configure { .. } => Reply::Configured { format: formats[0], present_mode },
            Request::PresentFrame(_) => Reply::FramePresented,
        };
        assert!(state.accepts(&reply));
        negotiation = state.resume(reply);
        steps += 1;
        assert!(steps <= 7);
    }
}

#[test]
fn bring_up_starts_by_binding_the_canvas_on_the_gl_backend() {
    let (state, request) = pending(WgpuDriver::from_canvas(canvas(640, 480)));
    assert_eq!(state.stage(), Stage::Uninitialized);
    assert_eq!(state.size(), (640, 480));
    match request {
        Request::BindSurface { backend, target } => {
            assert_eq!(backend, Backend::Gl);
            assert_eq!(target.into_abi(), JsValue::NULL.into_abi());
        }
        _ => panic!("the first request must bind the surface"),
    }
}

#[test]
fn bring_up_hands_the_given_canvas_to_the_bind_request() {
    let given = CanvasElement {
        elm: JsValue::TRUE.unchecked_into::<HtmlCanvasElement>(),
        width: 1,
        height: 1,
        padding: (0, 0, 0, 0),
    };
    let (_, request) = pending(WgpuDriver::from_canvas(given));
    match request {
        Request::BindSurface { target, .. } => {
            assert_eq!(target.into_abi(), JsValue::TRUE.into_abi());
            assert_ne!(JsValue::TRUE.into_abi(), JsValue::NULL.into_abi());
        }
        _ => panic!("the first request must bind the surface"),
    }
}

#[test]
fn bring_up_makes_its_seven_requests_in_order() {
    let formats = vec![wgpu::TextureFormat::Rgba8UnormSrgb];
    let (state, _) = pending(WgpuDriver::from_canvas(canvas(640, 480)));

    let (state, request) = pending(state.resume(Reply::SurfaceBound));
    assert_eq!(state.stage(), Stage::SurfaceBound);
    assert_eq!(
        request,
        Request::RequestAdapter(AdapterRequest {
            power_preference: PowerPreference::NoPreference,
            force_fallback_adapter: false,
            compatible_surface: true,
        })
    );

    let (state, request) = pending(state.resume(Reply::AdapterFound));
    assert_eq!(state.stage(), Stage::AdapterSelected);
    assert_eq!(
        request,
        Request::RequestDevice(DeviceRequest {
            required_features: 0,
            required_limits: LimitsProfile::DownlevelWebgl2,
            adapter_resolution: true,
            memory_hints: MemoryHints::MemoryUsage,
        })
    );

    let (state, request) = pending(state.resume(Reply::DeviceGranted));
    assert_eq!(state.stage(), Stage::DeviceReady);
    assert_eq!(request, Request::QueryFormats);

    let (state, request) = pending(state.resume(Reply::Formats(formats)));
    assert_eq!(state.stage(), Stage::FormatSelected { format: wgpu::TextureFormat::Rgba8UnormSrgb });
    match request {
        Request::BuildPipeline(plan) => {
            assert_eq!(plan.shader_source, SRC);
            assert_eq!(plan.vertex_entry_point, "vs_main");
            assert_eq!(plan.fragment_entry_point, "fs_main");
            assert_eq!(plan.target_format, wgpu::TextureFormat::Rgba8UnormSrgb);
            assert_eq!(plan.bind_group_layouts, 0);
            assert_eq!(plan.push_constant_ranges, 0);
        }
        _ => panic!("the pipeline must be built once the format is chosen"),
    }

    let (state, request) = pending(state.resume(Reply::PipelineBuilt));
    assert_eq!(state.stage(), Stage::PipelineReady { format: wgpu::TextureFormat::Rgba8UnormSrgb });
    assert_eq!(request, Request::Configure { width: 640, height: 480 });

    let (state, request) = pending(state.resume(Reply::Configured {
        format: wgpu::TextureFormat::Rgba8UnormSrgb,
        present_mode: wgpu::PresentMode::Fifo,
    }));
    assert_eq!(
        state.stage(),
        Stage::Configured {
            format: wgpu::TextureFormat::Rgba8UnormSrgb,
            surface_format: wgpu::TextureFormat::Rgba8UnormSrgb,
            present_mode: wgpu::PresentMode::Fifo,
        }
    );
    assert_eq!(state.size(), (640, 480));
    assert_eq!(
        request,
        Request::PresentFrame(FramePlan { clear_color: ClearColor::Green, vertices: 3, instances: 1 })
    );

    match state.resume(Reply::FramePresented) {
        Negotiation::Ready(driver) => {
            assert_eq!(driver.width(), 640);
            assert_eq!(driver.height(), 480);
            assert_eq!(
                driver.config(),
                SurfaceConfiguration {
                    format: wgpu::TextureFormat::Rgba8UnormSrgb,
                    present_mode: wgpu::PresentMode::Fifo,
                    width: 640,
                    height: 480,
                }
            );
        }
        _ => panic!("the driver must be up after the first frame"),
    }
}

#[test]
fn shader_has_a_vertex_and_a_fragment_stage_with_the_named_entry_points() {
    assert!(SRC.contains("@vertex"));
    assert!(SRC.contains("fn vs_main(@builtin(vertex_index) in_vertex_index: u32)"));
    assert!(SRC.contains("@fragment"));
    assert!(SRC.contains("fn fs_main()"));
    assert!(SRC.contains("return vec4<f32>(1.0, 1.0, 1.0, 1.0);"));
}

#[test]
fn first_reported_format_is_bound_into_the_pipeline() {
    let formats = vec![wgpu::TextureFormat::Bgra8UnormSrgb, wgpu::TextureFormat::Rgba8Unorm];
    let driver = bring_up(canvas(640, 480), formats, wgpu::PresentMode::Fifo);
    assert_eq!(driver.render_pipeline().target_format, wgpu::TextureFormat::Bgra8UnormSrgb);

    let swapped = vec![wgpu::TextureFormat::Rgba8Unorm, wgpu::TextureFormat::Bgra8UnormSrgb];
    let driver = bring_up(canvas(640, 480), swapped, wgpu::PresentMode::Fifo);
    assert_eq!(driver.render_pipeline().target_format, wgpu::TextureFormat::Rgba8Unorm);
}

#[test]
fn select_format_takes_the_first_and_nothing_from_an_empty_list() {
    assert_eq!(
        select_format(&vec![wgpu::TextureFormat::Bgra8UnormSrgb, wgpu::TextureFormat::Rgba8Unorm]),
        Some(wgpu::TextureFormat::Bgra8UnormSrgb)
    );
    assert_eq!(select_format(&vec![wgpu::TextureFormat::Rgba16Float]), Some(wgpu::TextureFormat::Rgba16Float));
    assert_eq!(select_format(&Vec::new()), None);
}

#[test]
fn configuration_takes_format_and_present_mode_from_the_platform() {
    let (state, _) = pending(WgpuDriver::from_canvas(canvas(800, 600)));
    let (state, _) = pending(state.resume(Reply::SurfaceBound));
    let (state, _) = pending(state.resume(Reply::AdapterFound));
    let (state, _) = pending(state.resume(Reply::DeviceGranted));
    let (state, _) = pending(state.resume(Reply::Formats(vec![wgpu::TextureFormat::Bgra8Unorm])));
    let (state, _) = pending(state.resume(Reply::PipelineBuilt));
    let (state, _) = pending(state.resume(Reply::Configured {
        format: wgpu::TextureFormat::Rgba8Unorm,
        present_mode: wgpu::PresentMode::Mailbox,
    }));
    match state.resume(Reply::FramePresented) {
        Negotiation::Ready(driver) => {
            assert_eq!(driver.config().format, wgpu::TextureFormat::Rgba8Unorm);
            assert_eq!(driver.config().present_mode, wgpu::PresentMode::Mailbox);
            assert_eq!((driver.config().width, driver.config().height), (800, 600));
            assert_eq!(driver.render_pipeline().target_format, wgpu::TextureFormat::Bgra8Unorm);
        }
        _ => panic!("the driver must be up after the first frame"),
    }
}

#[test]
fn surface_rejection_ends_with_create_surface_error() {
    let (state, _) = pending(WgpuDriver::from_canvas(canvas(640, 480)));
    assert_eq!(failure(state.resume(Reply::SurfaceRejected)), WgpuDriverError::CreateSurfaceError);
}

#[test]
fn missing_adapter_ends_with_adapter_not_found() {
    let (state, _) = pending(WgpuDriver::from_canvas(canvas(640, 480)));
    let (state, _) = pending(state.resume(Reply::SurfaceBound));
    assert_eq!(failure(state.resume(Reply::AdapterMissing)), WgpuDriverError::AdapterNotFound);
}

#[test]
fn device_rejection_ends_with_create_device_error() {
    let (state, _) = pending(WgpuDriver::from_canvas(canvas(640, 480)));
    let (state, _) = pending(state.resume(Reply::SurfaceBound));
    let (state, _) = pending(state.resume(Reply::AdapterFound));
    assert_eq!(failure(state.resume(Reply::DeviceRejected)), WgpuDriverError::CreateDeviceError);
}

#[test]
fn instance_reports_adapter_not_found_and_asks_for_nothing_more() {
    let surface = Surface::CanvasElement(canvas(640, 480));
    let mut asked = Vec::new();
    let mut construction = Instance::new(surface);
    let mut replies = vec![Reply::AdapterMissing, Reply::SurfaceBound];
    let reported = loop {
        match construction {
            Construction::Pending(state, request) => {
                asked.push(match request {
                    Request::BindSurface { .. } => "bind surface",
                    Request::RequestAdapter(_) => "request adapter",
                    Request::RequestDevice(_) => "request device",
                    Request::QueryFormats => "query formats",
                    Request::BuildPipeline(_) => "build pipeline",
                    Request::Configure { .. } => "configure",
                    Request::PresentFrame(_) => "present frame",
                });
                let reply = replies.pop().unwrap();
                assert!(state.accepts(&reply));
                construction = Instance::resume(state, reply);
            }
            Construction::Ready(_) => panic!("no instance may come out of a failed bring-up"),
            Construction::Failed(error) => break error,
        }
    };
    assert_eq!(reported, InstanceError::WgpuDriverError(WgpuDriverError::AdapterNotFound));
    assert_eq!(asked, vec!["bind surface", "request adapter"]);
    assert!(replies.is_empty());
}

#[test]
fn instance_wraps_each_driver_error() {
    let first = Instance::new(Surface::CanvasElement(canvas(1, 1)));
    let state = match first {
        Construction::Pending(state, _) => state,
        _ => panic!("a construction starts pending"),
    };
    match Instance::resume(state, Reply::SurfaceRejected) {
        Construction::Failed(error) => {
            assert_eq!(error, InstanceError::WgpuDriverError(WgpuDriverError::CreateSurfaceError))
        }
        _ => panic!("a rejected surface must fail the construction"),
    }

    let state = match Instance::new(Surface::CanvasElement(canvas(1, 1))) {
        Construction::Pending(state, _) => state,
        _ => panic!("a construction starts pending"),
    };
    let state = match Instance::resume(state, Reply::SurfaceBound) {
        Construction::Pending(state, _) => state,
        _ => panic!("a bound surface keeps the construction pending"),
    };
    let state = match Instance::resume(state, Reply::AdapterFound) {
        Construction::Pending(state, _) => state,
        _ => panic!("a found adapter keeps the construction pending"),
    };
    match Instance::resume(state, Reply::DeviceRejected) {
        Construction::Failed(error) => {
            assert_eq!(error, InstanceError::WgpuDriverError(WgpuDriverError::CreateDeviceError))
        }
        _ => panic!("a rejected device must fail the construction"),
    }
}

#[test]
fn every_course_of_replies_ends_in_a_driver_or_a_reported_error() {
    let courses: Vec<(Vec<bool>, Option<WgpuDriverError>)> = vec![
        (vec![false], Some(WgpuDriverError::CreateSurfaceError)),
        (vec![true, false], Some(WgpuDriverError::AdapterNotFound)),
        (vec![true, true, false], Some(WgpuDriverError::CreateDeviceError)),
        (vec![true, true, true], None),
    ];
    for (grants, expected) in courses {
        let mut negotiation = WgpuDriver::from_canvas(canvas(320, 200));
        let mut answered = 0;
        let ended = loop {
            let (state, request) = match negotiation {
                Negotiation::Pending(state, request) => (state, request),
                Negotiation::Ready(driver) => {
                    assert_eq!(driver.width(), 320);
                    assert_eq!(driver.height(), 200);
                    break None;
                }
                Negotiation::Failed(error) => break Some(error),
            };
            let granted = answered >= grants.len() || grants[answered];
            let reply = match request {
                Request::BindSurface { .. } if granted => Reply::SurfaceBound,
                Request::BindSurface { .. } => Reply::SurfaceRejected,
                Request::RequestAdapter(_) if granted => Reply::AdapterFound,
                Request::RequestAdapter(_) => Reply::AdapterMissing,
                Request::RequestDevice(_) if granted => Reply::DeviceGranted,
                Request::RequestDevice(_) => Reply::DeviceRejected,
                Request::QueryFormats => Reply::Formats(vec![wgpu::TextureFormat::Bgra8Unorm]),
                Request::BuildPipeline(_) => Reply::PipelineBuilt,
                Request::Configure { .. } => Reply::Configured {
                    format: wgpu::TextureFormat::Bgra8Unorm,
                    present_mode: wgpu::PresentMode::Fifo,
                },
                Request::PresentFrame(_) => Reply::FramePresented,
            };
            assert!(state.accepts(&reply));
            negotiation = state.resume(reply);
            answered += 1;
            assert!(answered <= 7);
        };
        assert_eq!(ended, expected);
        if expected.is_none() {
            assert_eq!(answered, 7);
        } else {
            assert_eq!(answered, grants.len());
        }
    }
}

#[test]
fn a_reply_is_accepted_only_for_the_request_it_answers() {
    let all = || {
        vec![
            Reply::SurfaceBound,
            Reply::SurfaceRejected,
            Reply::AdapterFound,
            Reply::AdapterMissing,
            Reply::DeviceGranted,
            Reply::DeviceRejected,
            Reply::Formats(vec![wgpu::TextureFormat::Bgra8Unorm]),
            Reply::PipelineBuilt,
            Reply::Configured { format: wgpu::TextureFormat::Bgra8Unorm, present_mode: wgpu::PresentMode::Fifo },
            Reply::FramePresented,
        ]
    };
    let accepted = |state: &BringUp| -> Vec<bool> { all().iter().map(|reply| state.accepts(reply)).collect() };
    let t = true;
    let f = false;

    let (state, _) = pending(WgpuDriver::from_canvas(canvas(640, 480)));
    assert_eq!(accepted(&state), vec![t, t, f, f, f, f, f, f, f, f]);
    let (state, _) = pending(state.resume(Reply::SurfaceBound));
    assert_eq!(accepted(&state), vec![f, f, t, t, f, f, f, f, f, f]);
    let (state, _) = pending(state.resume(Reply::AdapterFound));
    assert_eq!(accepted(&state), vec![f, f, f, f, t, t, f, f, f, f]);
    let (state, _) = pending(state.resume(Reply::DeviceGranted));
    assert_eq!(accepted(&state), vec![f, f, f, f, f, f, t, f, f, f]);
    assert!(!state.accepts(&Reply::Formats(Vec::new())));
    let (state, _) = pending(state.resume(Reply::Formats(vec![wgpu::TextureFormat::Bgra8Unorm])));
    assert_eq!(accepted(&state), vec![f, f, f, f, f, f, f, t, f, f]);
    let (state, _) = pending(state.resume(Reply::PipelineBuilt));
    assert_eq!(accepted(&state), vec![f, f, f, f, f, f, f, f, t, f]);
    let (state, _) = pending(state.resume(Reply::Configured {
        format: wgpu::TextureFormat::Bgra8Unorm,
        present_mode: wgpu::PresentMode::Fifo,
    }));
    assert_eq!(accepted(&state), vec![f, f, f, f, f, f, f, f, f, t]);
}

#[test]
fn error_messages() {
    assert_eq!(WgpuDriverError::CreateSurfaceError.to_string(), "Failed to create surface");
    assert_eq!(WgpuDriverError::AdapterNotFound.to_string(), "Failed to find an appropriate adapter");
    assert_eq!(WgpuDriverError::CreateDeviceError.to_string(), "Failed to create device");
}

#[test]
fn canvas_options_are_copied_field_by_field() {
    let options = CanvasElementOptions {
        elm: JsValue::NULL.unchecked_into::<HtmlCanvasElement>(),
        width: 640,
        height: 480,
        padding_top: 1,
        padding_bottom: 2,
        padding_left: 3,
        padding_right: 4,
    };
    let canvas = CanvasElement::from_options(options);
    assert_eq!(canvas.width, 640);
    assert_eq!(canvas.height, 480);
    assert_eq!(canvas.padding, (1, 2, 3, 4));
    assert_eq!(canvas.elm.into_abi(), JsValue::NULL.into_abi());
}

#[test]
fn surface_from_canvas_is_the_canvas_variant() {
    let options = CanvasElementOptions {
        elm: JsValue::UNDEFINED.unchecked_into::<HtmlCanvasElement>(),
        width: 300,
        height: 150,
        padding_top: 8,
        padding_bottom: 8,
        padding_left: 16,
        padding_right: 16,
    };
    match Surface::from_canvas(options) {
        Surface::CanvasElement(canvas) => {
            assert_eq!(canvas.width, 300);
            assert_eq!(canvas.height, 150);
            assert_eq!(canvas.padding, (8, 8, 16, 16));
            assert_eq!(canvas.elm.into_abi(), JsValue::UNDEFINED.into_abi());
        }
        Surface::Window(_) => panic!("a canvas must not become a window"),
    }
}

#[test]
fn run_completes_at_once() {
    assert!(matches!(Instance::run(), Ok(())));
}
