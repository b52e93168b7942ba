//! The render-resource and frame lifecycle core of a small real-time
//! renderer.
//!
//! The library holds everything the renderer decides as plain, verified
//! values: the surface configuration and its resize guard, the camera and
//! its input-driven controller, the uniform mirror of the view-projection
//! matrix, vertex layouts with their byte codec, the pipeline description,
//! and the exact per-frame command sequence.  A thin host performs the GPU
//! calls these values describe: it uploads the byte images built here,
//! replays the frame script, and feeds window events back in as plain
//! values.

pub mod camera;
pub mod camera_controller;
pub mod camera_uniform;
pub mod layout;
pub mod pipeline;
pub mod polygon_buffer;
pub mod state;
pub mod surface;
pub mod textured_vertex;
pub mod vertex;
pub mod vertex_types;

use vstd::prelude::*;

verus! {

/// Width and height of a drawable area, in pixels.
#[derive(Clone, Copy, PartialEq, Eq, Structural, Debug)]
pub struct Extent {
    pub width: u32,
    pub height: u32,
}

impl Extent {
    /// A size is drawable only when both dimensions are positive; zero-area
    /// sizes arise transiently while a window is minimized.
    pub open spec fn is_drawable(self) -> bool {
        self.width > 0 && self.height > 0
    }

    pub fn drawable(&self) -> (r: bool)
        ensures
            r == self.is_drawable(),
    {
        self.width > 0 && self.height > 0
    }
}

} // verus!
