//! The circle filler: an incremental midpoint-circle walk over one octant
//! that paints six rectangle spans across the eight-way symmetric positions
//! of each step, so that the overlapping spans cover the whole disk.

use vstd::prelude::*;

use crate::memory::{graphics_only, Memory};
use crate::raster::rectfill_covers;

verus! {

/// True when pixel (px, py) is painted by the six spans that one walk step
/// (x, y) around center (xc, yc) issues. Two of the spans are issued twice
/// with identical corners; painting is idempotent, so the set covered is
/// that of the four distinct spans.
pub open spec fn circ_step_covers(xc: int, yc: int, x: int, y: int, px: int, py: int) -> bool {
    ||| rectfill_covers(xc - x, yc + y, xc - x, yc - y, px, py)
    ||| rectfill_covers(xc + y, yc + x, xc - y, yc + x, px, py)
    ||| rectfill_covers(xc + x, yc - y, xc + x, yc + y, px, py)
    ||| rectfill_covers(xc - y, yc - x, xc + y, yc - x, px, py)
}

/// True when pixel (px, py) is painted by some step that the midpoint walk
/// still has to take from state (x, y, d): while y has not dropped below x,
/// the walk advances x, lowers y exactly when the decision variable is
/// positive, and paints the spans of the new position.
pub open spec fn circ_walk_covers(xc: int, yc: int, x: int, y: int, d: int, px: int, py: int) -> bool
    decreases (if y >= x { y - x + 1 } else { 0 }),
{
    if y >= x {
        let x2 = x + 1;
        let y2 = if d > 0 { y - 1 } else { y };
        let d2 = if d > 0 { d + 4 * (x2 - y2) + 10 } else { d + 4 * x2 + 6 };
        circ_step_covers(xc, yc, x2, y2, px, py) || circ_walk_covers(xc, yc, x2, y2, d2, px, py)
    } else {
        false
    }
}

/// True when pixel (px, py) is painted by `circfill(xc, yc, r, _)`: either
/// by the spans of the walk's starting position (0, r) or by those of a
/// later step.
pub open spec fn circfill_covers(xc: int, yc: int, r: int, px: int, py: int) -> bool {
    circ_step_covers(xc, yc, 0, r, px, py) || circ_walk_covers(xc, yc, 0, r, 3 - 2 * r, px, py)
}

impl Memory {
    /// Paints the six spans of one walk position. The console issues two of
    /// the six rectangle fills twice with identical corners; the repetition
    /// changes nothing visible and is kept as it is.
    fn draw_circ(&mut self, xc: i32, yc: i32, x: i32, y: i32, c: u8)
        requires
            old(self).wf(),
            -1000 <= xc <= 1000,
            -1000 <= yc <= 1000,
            -1000 <= x <= 1000,
            -1000 <= y <= 1000,
        ensures
            final(self).wf(),
            graphics_only(old(self)@, final(self)@),
            forall|p: int|
                0 <= p < 16384 ==> #[trigger] final(self)@.graphics[p] == if circ_step_covers(
                    xc as int,
                    yc as int,
                    x as int,
                    y as int,
                    p % 128,
                    p / 128,
                ) {
                    c
                } else {
                    old(self)@.graphics[p]
                },
    {
        self.rectfill(xc - x, yc + y, xc - x, yc - y, c);
        self.rectfill(xc + y, yc + x, xc - y, yc + x, c);
        self.rectfill(xc + x, yc - y, xc + x, yc + y, c);
        self.rectfill(xc - y, yc - x, xc + y, yc - x, c);
        self.rectfill(xc + x, yc - y, xc + x, yc + y, c);
        self.rectfill(xc - y, yc - x, xc + y, yc - x, c);
    }

    /// Fills the disk of radius `r` around (xc, yc) with color `c`: the
    /// classic integer midpoint-circle walk over one octant, with the
    /// decision variable starting at `3 - 2 r`, painting spans across the
    /// eight-way symmetric positions of every step; consecutive spans
    /// overlap and cover the full body of the disk.
    pub fn circfill(&mut self, xc: u8, yc: u8, r: i8, c: u8)
        requires
            old(self).wf(),
        ensures
            final(self).wf(),
            graphics_only(old(self)@, final(self)@),
            forall|p: int|
                0 <= p < 16384 ==> #[trigger] final(self)@.graphics[p] == if circfill_covers(
                    xc as int,
                    yc as int,
                    r as int,
                    p % 128,
                    p / 128,
                ) {
                    c
                } else {
                    old(self)@.graphics[p]
                },
    {
        let ghost orig = self@;
        let mut x: i32 = 0;
        let mut y: i32 = r as i32;
        let mut d: i32 = 3 - 2 * (r as i32);
        self.draw_circ(xc as i32, yc as i32, x, y, c);
        let ghost mut painted = Set::new(
            |p: int|
                0 <= p < 16384 && circ_step_covers(xc as int, yc as int, 0, r as int, p % 128, p / 128),
        );
        while y >= x
            invariant
                self.wf(),
                graphics_only(orig, self@),
                0 <= x <= 128,
                -128 <= y <= 127,
                3 - 2 * (r as int) - 600 * x <= d <= 3 - 2 * (r as int) + 600 * x,
                forall|p: int|
                    0 <= p < 16384 ==> #[trigger] self@.graphics[p] == if painted.contains(p) {
                        c
                    } else {
                        orig.graphics[p]
                    },
                forall|p: int|
                    0 <= p < 16384 ==> (#[trigger] circfill_covers(
                        xc as int,
                        yc as int,
                        r as int,
                        p % 128,
                        p / 128,
                    ) <==> painted.contains(p) || circ_walk_covers(
                        xc as int,
                        yc as int,
                        x as int,
                        y as int,
                        d as int,
                        p % 128,
                        p / 128,
                    )),
            decreases (if y >= x { y - x + 1 } else { 0 }),
        {
            x = x + 1;
            if d > 0 {
                y = y - 1;
                d = d + 4 * (x - y) + 10;
            } else {
                d = d + 4 * x + 6;
            }
            self.draw_circ(xc as i32, yc as i32, x, y, c);
            proof {
                painted = painted.union(
                    Set::new(
                        |p: int|
                            0 <= p < 16384 && circ_step_covers(
                                xc as int,
                                yc as int,
                                x as int,
                                y as int,
                                p % 128,
                                p / 128,
                            ),
                    ),
                );
            }
        }
    }
}

} // verus!
