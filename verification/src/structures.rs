//! Small plain data carriers shared by the drawing primitives.

use vstd::prelude::*;

verus! {

/// Whether a sprite blit mirrors its source cell horizontally and/or
/// vertically.
#[derive(Clone, Copy)]
pub struct FlipState {
    pub x: bool,
    pub y: bool,
}

/// The horizontal flip requested by an optional `FlipState`; absent means no
/// flip.
pub open spec fn flip_x(flip: Option<FlipState>) -> bool {
    match flip {
        Some(f) => f.x,
        None => false,
    }
}

/// The vertical flip requested by an optional `FlipState`; absent means no
/// flip.
pub open spec fn flip_y(flip: Option<FlipState>) -> bool {
    match flip {
        Some(f) => f.y,
        None => false,
    }
}

} // verus!
