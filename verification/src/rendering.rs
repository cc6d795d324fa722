//! The renderer interface, and the trivial renderer.
//!
//! The engine never draws; a renderer reads the particle table between steps
//! and paints it. This trait is what a renderer implements; the engine ships
//! only the trivial one, which draws nothing and delays nothing.

use vstd::prelude::*;

verus! {

/// What a renderer offers: window setup, painting, event handling, and the
/// delays that keep simulation time in step with real time.
pub trait IsRenderer {
    type Output;

    /// Initialize window, surface, events, etc.
    fn new(width: u32, height: u32) -> Self::Output;

    /// Paint the current simulation state.
    fn paint(&self);

    /// Handle pending input events.
    fn events(&self);

    /// Sync simulation time to real time while running.
    fn set_real_time(&self);

    /// Run as fast as possible, as when baking an animation.
    fn set_baked(&self);

    /// Delay so that simulation time and real time agree; `dt` is the step
    /// size in raw fixed-point units. Only used when running in real time.
    fn delay(&self, dt: i64);

    /// Start the event loop, step the simulation, manage time delays, etc.
    fn run(&self);
}

/// The default renderer: it only has the functionality of delaying the
/// simulation, and here even the delay is a no-op.
pub struct SimpleDelayRenderer;

impl IsRenderer for SimpleDelayRenderer {
    type Output = SimpleDelayRenderer;

    fn new(_width: u32, _height: u32) -> Self::Output {
        SimpleDelayRenderer
    }

    fn paint(&self) {
    }

    fn events(&self) {
    }

    fn set_real_time(&self) {
    }

    fn set_baked(&self) {
    }

    fn delay(&self, _dt: i64) {
    }

    fn run(&self) {
    }
}

/// Pack an rgb color into the 32-bit framebuffer pixel format
/// `00000000RRRRRRRRGGGGGGGGBBBBBBBB` that softbuffer consumes.
pub fn rgb_to_softbuffer(rgb: (u8, u8, u8)) -> (pixel: u32)
    ensures
        pixel == rgb.0 as u32 * 0x10000 + rgb.1 as u32 * 0x100 + rgb.2 as u32,
{
    let rv: u32 = rgb.0 as u32;
    let gv: u32 = rgb.1 as u32;
    let bv: u32 = rgb.2 as u32;
    proof {
        assert(((rv << 16u32) | (gv << 8u32) | bv) == ((rv * 0x10000 + gv * 0x100 + bv) as u32))
            by (bit_vector)
            requires
                rv < 256,
                gv < 256,
                bv < 256,
        ;
        assert(rv * 0x10000 + gv * 0x100 + bv < 0x100000000);
    }
    (rv << 16u32) | (gv << 8u32) | bv
}

} // verus!
