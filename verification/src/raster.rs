//! The rasterizer: the single pixel-write primitive and the clipped,
//! inclusive rectangle fill built on it.

use vstd::prelude::*;

use crate::memory::{graphics_only, Memory};
use crate::on_screen;

verus! {

/// True when `v` lies between `a` and `b` inclusive, in either order.
pub open spec fn span_contains(a: int, b: int, v: int) -> bool {
    (a <= v && v <= b) || (b <= v && v <= a)
}

/// True when pixel (px, py) lies in the rectangle with corners (x, y) and
/// (x1, y1), both corners included, whichever way round they are given.
pub open spec fn rect_contains(x: int, y: int, x1: int, y1: int, px: int, py: int) -> bool {
    span_contains(x, x1, px) && span_contains(y, y1, py)
}

/// A coordinate clamped up to 0.
pub open spec fn clamp_low(v: int) -> int {
    if v < 0 {
        0
    } else {
        v
    }
}

/// A coordinate clamped down to 127.
pub open spec fn clamp_high(v: int) -> int {
    if v > 127 {
        127
    } else {
        v
    }
}

/// The visibility test of `rectfill`: the call is a no-op unless the first
/// corner lies left of and above the grid's far edge and the second corner
/// lies right of and below its near edge.
pub open spec fn rect_visible(x: int, y: int, x2: int, y2: int) -> bool {
    x < 128 && x2 > 0 && y < 128 && y2 > 0
}

/// True when pixel (px, py) is painted by `rectfill(x, y, x2, y2, _)`: the
/// rectangle passes the visibility test and the pixel lies in it after both
/// corners are clamped into [0, 127].
pub open spec fn rectfill_covers(x: int, y: int, x2: int, y2: int, px: int, py: int) -> bool {
    rect_visible(x, y, x2, y2) && rect_contains(
        clamp_low(x),
        clamp_low(y),
        clamp_high(x2),
        clamp_high(y2),
        px,
        py,
    )
}

impl Memory {
    /// Writes one framebuffer pixel. A coordinate at or past 128 on either
    /// axis is silently ignored; this permissive policy is the console's
    /// lenient semantics, not an error.
    pub fn gset(&mut self, col: u8, x: u8, y: u8)
        requires
            old(self).wf(),
        ensures
            final(self).wf(),
            graphics_only(old(self)@, final(self)@),
            on_screen(x as int, y as int) ==> final(self)@.graphics == old(self)@.graphics.update(
                x as int + y as int * 128,
                col,
            ),
            !on_screen(x as int, y as int) ==> final(self)@.graphics == old(self)@.graphics,
    {
        if x >= 128 || y >= 128 {
            return ;
        }
        let ind: usize = x as usize + y as usize * 128;
        self.graphics.set(ind, col);
    }

    /// The inclusive stepping fill: paints every pixel of the rectangle with
    /// corners (x, y) and (x1, y1), both endpoints included on each axis, in
    /// whichever direction each axis runs. Corners must already lie on the
    /// visible grid; `rectfill` clamps before calling here.
    pub fn rrectfill(&mut self, x: u8, y: u8, x1: u8, y1: u8, col: u8)
        requires
            old(self).wf(),
            x < 128,
            y < 128,
            x1 < 128,
            y1 < 128,
        ensures
            final(self).wf(),
            graphics_only(old(self)@, final(self)@),
            forall|p: int|
                0 <= p < 16384 ==> #[trigger] final(self)@.graphics[p] == if rect_contains(
                    x as int,
                    y as int,
                    x1 as int,
                    y1 as int,
                    p % 128,
                    p / 128,
                ) {
                    col
                } else {
                    old(self)@.graphics[p]
                },
    {
        let ghost orig = self@;
        let x_lo: u8 = if x <= x1 {
            x
        } else {
            x1
        };
        let x_hi: u8 = if x <= x1 {
            x1
        } else {
            x
        };
        let y_lo: u8 = if y <= y1 {
            y
        } else {
            y1
        };
        let y_hi: u8 = if y <= y1 {
            y1
        } else {
            y
        };
        let mut i: u8 = x_lo;
        while i <= x_hi
            invariant
                self.wf(),
                graphics_only(orig, self@),
                x_lo <= i <= x_hi + 1,
                x_lo <= x_hi,
                y_lo <= y_hi,
                x_lo < 128,
                x_hi < 128,
                y_lo < 128,
                y_hi < 128,
                forall|p: int|
                    0 <= p < 16384 ==> #[trigger] self@.graphics[p] == if x_lo <= p % 128 < i
                        && y_lo <= p / 128 <= y_hi {
                        col
                    } else {
                        orig.graphics[p]
                    },
            decreases x_hi + 1 - i,
        {
            let mut j: u8 = y_lo;
            while j <= y_hi
                invariant
                    self.wf(),
                    graphics_only(orig, self@),
                    x_lo <= i <= x_hi,
                    y_lo <= j <= y_hi + 1,
                    x_lo <= x_hi,
                    y_lo <= y_hi,
                    x_lo < 128,
                    x_hi < 128,
                    y_lo < 128,
                    y_hi < 128,
                    forall|p: int|
                        0 <= p < 16384 ==> #[trigger] self@.graphics[p] == if (x_lo <= p % 128 < i
                            && y_lo <= p / 128 <= y_hi) || (p % 128 == i && y_lo <= p / 128 < j) {
                            col
                        } else {
                            orig.graphics[p]
                        },
                decreases y_hi + 1 - j,
            {
                self.gset(col, i, j);
                proof {
                    lemma_linear_index(i as int, j as int);
                }
                j = j + 1;
            }
            i = i + 1;
        }
    }

    /// The clipped rectangle fill: a no-op when the rectangle misses the
    /// visible grid entirely, otherwise the corners are clamped into
    /// [0, 127] and handed to the inclusive stepping fill, so both clamped
    /// endpoints are painted on each axis.
    pub fn rectfill(&mut self, x: i32, y: i32, x2: i32, y2: i32, c: u8)
        requires
            old(self).wf(),
        ensures
            final(self).wf(),
            graphics_only(old(self)@, final(self)@),
            forall|p: int|
                0 <= p < 16384 ==> #[trigger] final(self)@.graphics[p] == if rectfill_covers(
                    x as int,
                    y as int,
                    x2 as int,
                    y2 as int,
                    p % 128,
                    p / 128,
                ) {
                    c
                } else {
                    old(self)@.graphics[p]
                },
    {
        if x < 128 && x2 > 0 && y < 128 && y2 > 0 {
            let cx: u8 = if x < 0 {
                0
            } else {
                x as u8
            };
            let cy: u8 = if y < 0 {
                0
            } else {
                y as u8
            };
            let cx2: u8 = if x2 > 127 {
                127
            } else {
                x2 as u8
            };
            let cy2: u8 = if y2 > 127 {
                127
            } else {
                y2 as u8
            };
            self.rrectfill(cx, cy, cx2, cy2, c);
        }
    }
}

/// Row-major indexing: a visible coordinate pair and its linear framebuffer
/// index determine one another.
pub proof fn lemma_linear_index(x: int, y: int)
    by (nonlinear_arith)
    requires
        0 <= x < 128,
        0 <= y < 128,
    ensures
        (x + y * 128) % 128 == x,
        (x + y * 128) / 128 == y,
        0 <= x + y * 128 < 16384,
{
}

} // verus!
