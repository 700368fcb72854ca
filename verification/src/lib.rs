//! Memory and raster-graphics subsystem of a fixed-resolution fantasy
//! console: a 128x128 indexed-color framebuffer, a tile map aliased into a
//! nibble-packed sprite sheet at high addresses, per-sprite flag bytes, a
//! 16-entry palette with per-entry transparency, and the drawing primitives
//! (pixel, clipped rectangle fill, midpoint-circle disk fill, sprite blit,
//! flag-gated tile-map rendering) that game code issues every frame.

pub mod circle;
pub mod hexcodec;
pub mod laws;
pub mod memory;
pub mod raster;
pub mod sprite;
pub mod structures;

use vstd::prelude::*;

verus! {

/// A pixel coordinate pair is visible when both axes lie on the 128-wide grid.
pub open spec fn on_screen(x: int, y: int) -> bool {
    0 <= x < 128 && 0 <= y < 128
}

} // verus!
