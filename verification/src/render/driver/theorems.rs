//! What holds of the bring-up protocol and of the driver, whatever the host
//! answers and however often the surface is resized.

use vstd::prelude::*;

use crate::app::CanvasElement;
use crate::app::Construction;
use crate::app::InstanceError;
use crate::render::driver::wgpu::adapter_request;
use crate::render::driver::wgpu::begin;
use crate::render::driver::wgpu::device_request;
use crate::render::driver::wgpu::first_frame;
use crate::render::driver::wgpu::pipeline_plan;
use crate::render::driver::wgpu::Backend;
use crate::render::driver::wgpu::DriverState;
use crate::render::driver::wgpu::Outcome;
use crate::render::driver::wgpu::Reply;
use crate::render::driver::wgpu::Request;
use crate::render::driver::wgpu::State;
use crate::render::driver::wgpu::SurfaceConfiguration;
use crate::render::driver::wgpu::WgpuDriverError;

verus! {

/// Where a bring-up stands after the host has given `replies`, one after the
/// other. A bring-up that has ended takes no further reply.
pub open spec fn run(outcome: Outcome, replies: Seq<Reply>) -> Outcome
    decreases replies.len(),
{
    if replies.len() == 0 {
        outcome
    } else {
        match outcome {
            Outcome::Pending(state, _) => run(state.next(replies[0]), replies.drop_first()),
            _ => outcome,
        }
    }
}

/// Each of `replies` answers the request that is outstanding when it comes.
pub open spec fn answered(outcome: Outcome, replies: Seq<Reply>) -> bool
    decreases replies.len(),
{
    if replies.len() == 0 {
        true
    } else {
        match outcome {
            Outcome::Pending(state, _) => {
                &&& state.accepts(replies[0])
                &&& answered(state.next(replies[0]), replies.drop_first())
            },
            _ => true,
        }
    }
}

/// The requests the host is given in the course of `run(outcome, replies)`,
/// in the order in which they are made.
pub open spec fn requests(outcome: Outcome, replies: Seq<Reply>) -> Seq<Request>
    decreases replies.len(),
{
    match outcome {
        Outcome::Pending(state, request) => if replies.len() == 0 {
            seq![request]
        } else {
            seq![request] + requests(state.next(replies[0]), replies.drop_first())
        },
        _ => Seq::empty(),
    }
}

/// The driver after the resizes in `sizes`, applied first to last.
pub open spec fn resized_through(driver: DriverState, sizes: Seq<(u32, u32)>) -> DriverState
    decreases sizes.len(),
{
    if sizes.len() == 0 {
        driver
    } else {
        resized_through(driver.resized(sizes[0].0, sizes[0].1), sizes.drop_first())
    }
}

/// Resizing twice to the same size leaves the driver exactly as resizing
/// once does.
pub proof fn resize_is_idempotent(driver: DriverState, width: u32, height: u32)
    ensures
        driver.resized(width, height).resized(width, height) == driver.resized(width, height),
{
}

/// After any resize, and so after any number of them, the configuration has
/// the size the driver has cached, which is the size asked for last. Format,
/// present mode and pipeline are what they were before.
pub proof fn resizes_keep_configuration_in_step(driver: DriverState, sizes: Seq<(u32, u32)>)
    requires
        sizes.len() > 0,
    ensures
        resized_through(driver, sizes).consistent(),
        resized_through(driver, sizes).width == sizes.last().0,
        resized_through(driver, sizes).height == sizes.last().1,
        resized_through(driver, sizes).config.format == driver.config.format,
        resized_through(driver, sizes).config.present_mode == driver.config.present_mode,
        resized_through(driver, sizes).render_pipeline == driver.render_pipeline,
    decreases sizes.len(),
{
    let after = driver.resized(sizes[0].0, sizes[0].1);
    let rest = sizes.drop_first();
    if rest.len() > 0 {
        resizes_keep_configuration_in_step(after, rest);
        assert(rest.last() == sizes.last());
    } else {
        assert(resized_through(after, rest) == after);
    }
}

/// How a bring-up for `canvas` ends when the host gives `replies`: with the
/// error of the first refusal, or else with a driver that has the size of the
/// canvas, the first of the reported formats in its pipeline, and the format
/// and present mode that the platform configured.
pub open spec fn verdict(canvas: CanvasElement, replies: Seq<Reply>) -> Outcome
    recommends
        replies.len() >= 7,
{
    if replies[0] is SurfaceRejected {
        Outcome::Failed(WgpuDriverError::CreateSurfaceError)
    } else if replies[1] is AdapterMissing {
        Outcome::Failed(WgpuDriverError::AdapterNotFound)
    } else if replies[2] is DeviceRejected {
        Outcome::Failed(WgpuDriverError::CreateDeviceError)
    } else {
        Outcome::Ready(
            DriverState {
                width: canvas.width,
                height: canvas.height,
                config: SurfaceConfiguration {
                    format: replies[5]->Configured_format,
                    present_mode: replies[5]->Configured_present_mode,
                    width: canvas.width,
                    height: canvas.height,
                },
                render_pipeline: pipeline_plan(replies[3]->Formats_0@[0]),
            },
        )
    }
}

/// The requests of a bring-up for `canvas` that goes through, in their order:
/// surface, adapter, device, formats, pipeline, configuration, first frame.
pub open spec fn full_course(canvas: CanvasElement, replies: Seq<Reply>) -> Seq<Request>
    recommends
        replies.len() >= 7,
{
    seq![
        Request::BindSurface { backend: Backend::Gl, target: canvas.elm },
        Request::RequestAdapter(adapter_request()),
        Request::RequestDevice(device_request()),
        Request::QueryFormats,
        Request::BuildPipeline(pipeline_plan(replies[3]->Formats_0@[0])),
        Request::Configure { width: canvas.width, height: canvas.height },
        Request::PresentFrame(first_frame()),
    ]
}

/// Unfolds one step of `run`, `answered` and `requests`.
proof fn step(state: State, request: Request, replies: Seq<Reply>)
    requires
        replies.len() > 0,
    ensures
        run(Outcome::Pending(state, request), replies) == run(
            state.next(replies[0]),
            replies.drop_first(),
        ),
        answered(Outcome::Pending(state, request), replies) == (state.accepts(replies[0])
            && answered(state.next(replies[0]), replies.drop_first())),
        requests(Outcome::Pending(state, request), replies) == seq![request] + requests(
            state.next(replies[0]),
            replies.drop_first(),
        ),
{
}

/// A bring-up always comes to an end: once the host has answered seven
/// requests, or fewer if one was refused, the bring-up is over. It has failed
/// with the error of the first refusal, or it has produced a driver whose
/// configuration is in step with its size; it is never left pending. A
/// construction that stands where the bring-up stands then holds an instance
/// with the size of the canvas, or the reported error. A bring-up that goes
/// through has made its seven requests in the fixed order, each one only
/// after the one before it was granted.
pub proof fn bring_up_concludes<'a>(canvas: CanvasElement, replies: Seq<Reply>)
    requires
        replies.len() >= 7,
        answered(begin(canvas), replies),
    ensures
        run(begin(canvas), replies) == verdict(canvas, replies),
        !(run(begin(canvas), replies) is Pending),
        run(begin(canvas), replies) matches Outcome::Ready(driver) ==> driver.consistent()
            && requests(begin(canvas), replies) == full_course(canvas, replies),
        forall|construction: Construction<'a>| #[trigger]
            construction.reflects(run(begin(canvas), replies)) ==> match construction {
                Construction::Pending(_, _) => false,
                Construction::Ready(instance) => {
                    &&& instance.size() == (canvas.width, canvas.height)
                    &&& instance.configured() == (canvas.width, canvas.height)
                },
                Construction::Failed(error) => verdict(canvas, replies) == Outcome::Failed(
                    error->WgpuDriverError_0,
                ),
            },
{
    let r1 = replies.drop_first();
    let r2 = r1.drop_first();
    let r3 = r2.drop_first();
    let r4 = r3.drop_first();
    let r5 = r4.drop_first();
    let r6 = r5.drop_first();
    let s0 = begin(canvas)->Pending_0;
    step(s0, begin(canvas)->Pending_1, replies);
    if let Outcome::Pending(s1, q1) = s0.next(replies[0]) {
        step(s1, q1, r1);
        if let Outcome::Pending(s2, q2) = s1.next(r1[0]) {
            step(s2, q2, r2);
            if let Outcome::Pending(s3, q3) = s2.next(r2[0]) {
                step(s3, q3, r3);
                let s4 = s3.next(r3[0])->Pending_0;
                step(s4, s3.next(r3[0])->Pending_1, r4);
                let s5 = s4.next(r4[0])->Pending_0;
                step(s5, s4.next(r4[0])->Pending_1, r5);
                let s6 = s5.next(r5[0])->Pending_0;
                let q6 = s5.next(r5[0])->Pending_1;
                step(s6, q6, r6);
                assert(requests(begin(canvas), replies) =~= full_course(canvas, replies));
            }
        }
    }
}

/// When the surface is bound and then no adapter is found, the bring-up
/// ends there with `AdapterNotFound`, whatever the host may say afterwards,
/// and a construction that stands where the bring-up stands reports that
/// error and holds no instance. The host was asked to bind the surface and
/// to look for an adapter and for nothing else: no device, no queue and no
/// pipeline was ever requested.
pub proof fn adapter_failure_is_isolated<'a>(canvas: CanvasElement, replies: Seq<Reply>)
    requires
        replies.len() >= 2,
        replies[0] is SurfaceBound,
        replies[1] is AdapterMissing,
    ensures
        run(begin(canvas), replies) == Outcome::Failed(WgpuDriverError::AdapterNotFound),
        forall|construction: Construction<'a>| #[trigger]
            construction.reflects(run(begin(canvas), replies)) ==> construction
                == Construction::<'a>::Failed(
                InstanceError::WgpuDriverError(WgpuDriverError::AdapterNotFound),
            ),
        requests(begin(canvas), replies) == seq![
            Request::BindSurface { backend: Backend::Gl, target: canvas.elm },
            Request::RequestAdapter(adapter_request()),
        ],
{
    let r1 = replies.drop_first();
    let s0 = begin(canvas)->Pending_0;
    step(s0, begin(canvas)->Pending_1, replies);
    let s1 = s0.next(replies[0])->Pending_0;
    step(s1, s0.next(replies[0])->Pending_1, r1);
    assert(requests(begin(canvas), replies) =~= seq![
        Request::BindSurface { backend: Backend::Gl, target: canvas.elm },
        Request::RequestAdapter(adapter_request()),
    ]);
}

} // verus!
