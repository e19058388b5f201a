//! The drawable targets a caller can hand over, and the instance that owns
//! the driver built for one of them.

use vstd::prelude::*;
use web_sys::HtmlCanvasElement;

use crate::render::driver::wgpu::BringUp;
use crate::render::driver::wgpu::Negotiation;
use crate::render::driver::wgpu::Outcome;
use crate::render::driver::wgpu::Reply;
use crate::render::driver::wgpu::Request;
use crate::render::driver::wgpu::WgpuDriver;
use crate::render::driver::wgpu::WgpuDriverError;
use crate::render::driver::wgpu::begin;
use crate::render::driver::GraphicsDriver;

verus! {

/// `web_sys::HtmlCanvasElement`: a handle to a canvas in the page. The library
/// only carries it from the caller to the request that binds it; nothing is
/// assumed of what it refers to.
#[verifier::external_type_specification]
#[verifier::external_body]
pub struct ExHtmlCanvasElement(HtmlCanvasElement);

/// A native window that can identify itself and its display to the platform.
pub trait WindowHandle {

}

/// A native window as a drawable target.
pub struct Window<'a> {
    handle: Box<dyn WindowHandle + 'a>,
}

/// A canvas as a drawable target.
///
/// `width` and `height` are the pixel size of the drawable itself, not of the
/// padded container around it. `padding` is `(top, bottom, left, right)`; it
/// is kept for the caller's layout and never read by a driver.
#[derive(Debug, PartialEq, Eq)]
pub struct CanvasElement {
    pub elm: HtmlCanvasElement,
    pub width: u32,
    pub height: u32,
    pub padding: (u32, u32, u32, u32),
}

/// What a caller supplies to describe a canvas target.
#[derive(Debug, PartialEq, Eq)]
pub struct CanvasElementOptions {
    pub elm: HtmlCanvasElement,
    pub width: u32,
    pub height: u32,
    pub padding_top: u32,
    pub padding_bottom: u32,
    pub padding_left: u32,
    pub padding_right: u32,
}

impl CanvasElement {
    /// The canvas target that the options describe: element and size as they
    /// are given, the four paddings gathered as `(top, bottom, left, right)`.
    pub open spec fn described_by(options: CanvasElementOptions) -> CanvasElement {
        CanvasElement {
            elm: options.elm,
            width: options.width,
            height: options.height,
            padding: (
                options.padding_top,
                options.padding_bottom,
                options.padding_left,
                options.padding_right,
            ),
        }
    }

    /// Wraps the options into a canvas target, field by field.
    pub fn from_options(options: CanvasElementOptions) -> (canvas: Self)
        ensures
            canvas == Self::described_by(options),
    {
        CanvasElement {
            elm: options.elm,
            width: options.width,
            height: options.height,
            padding: (
                options.padding_top,
                options.padding_bottom,
                options.padding_left,
                options.padding_right,
            ),
        }
    }
}

/// The drawable target of an instance: a native window or a canvas.
pub enum Surface<'a> {
    Window(Window<'a>),
    CanvasElement(CanvasElement),
}

impl<'a> Surface<'a> {
    /// The canvas target described by `options`. It cannot fail.
    pub fn from_canvas(options: CanvasElementOptions) -> (surface: Self)
        ensures
            surface == Surface::<'a>::CanvasElement(CanvasElement::described_by(options)),
    {
        let elm = CanvasElement::from_options(options);
        Surface::CanvasElement(elm)
    }
}

/// Why an instance could not be built.
#[derive(Clone, Copy, Debug, PartialEq, Eq, Structural)]
pub enum InstanceError {
    /// The GPU-backed driver did not come up.
    WgpuDriverError(WgpuDriverError),
}

pub type InstanceResult<T> = Result<T, InstanceError>;

/// The entry point of the library: it owns the one driver that was built for
/// its surface, and nobody else does.
pub struct Instance<'a> {
    driver: Box<dyn GraphicsDriver + 'a>,
}

/// Where the construction of an instance stands after a step.
pub enum Construction<'a> {
    /// The host is to carry out the request and resume the construction with
    /// the reply.
    Pending(BringUp, Request),
    /// The instance is built and owns its driver.
    Ready(Instance<'a>),
    /// The construction failed. No instance and no driver come out of it.
    Failed(InstanceError),
}

impl<'a> Construction<'a> {
    /// The construction stands where the bring-up of the driver stands: it is
    /// pending on the same request, or it holds an instance whose driver has
    /// the sizes of the driver that came up, or it failed with that driver's
    /// error.
    pub open spec fn reflects(self, outcome: Outcome) -> bool {
        match outcome {
            Outcome::Pending(state, request) => {
                &&& self matches Construction::Pending(bring_up, asked)
                &&& bring_up@ == state
                &&& asked == request
            },
            Outcome::Ready(driver) => {
                &&& self matches Construction::Ready(instance)
                &&& instance.size() == (driver.width, driver.height)
                &&& instance.configured() == (driver.config.width, driver.config.height)
            },
            Outcome::Failed(error) => {
                &&& self matches Construction::Failed(reported)
                &&& reported == InstanceError::WgpuDriverError(error)
            },
        }
    }
}

impl<'a> Instance<'a> {
    /// The drawable size the driver has cached.
    pub closed spec fn size(&self) -> (u32, u32) {
        self.driver.size()
    }

    /// The size in the driver's swap-chain configuration.
    pub closed spec fn configured(&self) -> (u32, u32) {
        self.driver.configured()
    }

    /// Wraps what the bring-up of the GPU-backed driver came to.
    fn wrap(negotiation: Negotiation) -> (result: Construction<'a>)
        ensures
            result.reflects(negotiation@),
    {
        match negotiation {
            Negotiation::Pending(bring_up, request) => Construction::Pending(bring_up, request),
            Negotiation::Ready(driver) => Construction::Ready(Instance { driver: Box::new(driver) }),
            Negotiation::Failed(err) => Construction::Failed(
                InstanceError::WgpuDriverError(err),
            ),
        }
    }

    /// Starts to build an instance for `surface`. A canvas is served by the
    /// GPU-backed driver, whose bring-up begins here. A native window has no
    /// driver to serve it and must not be passed.
    pub fn new(surface: Surface<'a>) -> (result: Construction<'a>)
        requires
            surface is CanvasElement,
        ensures
            result.reflects(begin(surface->CanvasElement_0)),
    {
        match surface {
            Surface::CanvasElement(elm) => Self::wrap(WgpuDriver::from_canvas(elm)),
            _ => unreached(),
        }
    }

    /// Takes the reply to the outstanding request and moves the construction
    /// one step, as the bring-up of the driver moves.
    pub fn resume(bring_up: BringUp, reply: Reply) -> (result: Construction<'a>)
        requires
            bring_up@.accepts(reply),
        ensures
            result.reflects(bring_up@.next(reply)),
    {
        Self::wrap(bring_up.resume(reply))
    }

    /// Runs the instance. There is no frame loop yet: it returns at once.
    pub fn run() -> (result: InstanceResult<()>)
        ensures
            result == Ok::<(), InstanceError>(()),
    {
        Ok(())
    }

    /// Tells the driver that the drawable now has this size.
    pub fn resize_surface(&mut self, width: u32, height: u32)
        ensures
            final(self).size() == (width, height),
            final(self).configured() == (width, height),
    {
        self.driver.resize_surface(width, height);
    }

    /// Reads the drawable size the driver has cached.
    pub fn surface_size(&self) -> (size: (u32, u32))
        ensures
            size == self.size(),
    {
        self.driver.surface_size()
    }

    /// Reads the size in the driver's swap-chain configuration.
    pub fn configured_size(&self) -> (size: (u32, u32))
        ensures
            size == self.configured(),
    {
        self.driver.configured_size()
    }
}

} // verus!
