//! The capability every rendering backend offers once it is up.

use vstd::prelude::*;

pub mod theorems;
pub mod wgpu;

verus! {

/// A rendering backend that presents into one surface.
///
/// After construction the only thing a backend is asked to do is to follow the
/// size of its drawable.
pub trait GraphicsDriver {
    /// The drawable size the driver has cached, as `(width, height)`.
    spec fn size(&self) -> (u32, u32);

    /// The size recorded in the driver's swap-chain configuration.
    spec fn configured(&self) -> (u32, u32);

    /// Records a new drawable size and brings the swap-chain configuration in
    /// line with it. Calling it again with the same size changes nothing more.
    fn resize_surface(&mut self, width: u32, height: u32)
        ensures
            final(self).size() == (width, height),
            final(self).configured() == (width, height),
    ;

    /// Reads the cached drawable size.
    fn surface_size(&self) -> (size: (u32, u32))
        ensures
            size == self.size(),
    ;

    /// Reads the size held by the swap-chain configuration, which is the size
    /// the host applies to the presentable surface.
    fn configured_size(&self) -> (size: (u32, u32))
        ensures
            size == self.configured(),
    ;
}

} // verus!
