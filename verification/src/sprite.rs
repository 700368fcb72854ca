//! The sprite blitter and the tile-map renderer: copying 8x8 sprite cells
//! into the framebuffer with flip and palette transparency, and iterating a
//! rectangular block of map cells gated by per-sprite flag masks.

use vstd::prelude::*;

use crate::memory::{graphics_only, mget_spec, Memory, MemView};
use crate::raster::lemma_linear_index;
use crate::structures::{flip_x, flip_y, FlipState};

verus! {

/// The sprite-sheet index of source pixel (i, j) of a sprite's 8x8 cell,
/// after the requested mirroring. Cell `id` sits at column `(id mod 16) * 8`,
/// row `(id div 16) * 8` of the 128x128 sheet.
pub open spec fn spr_src_index(sprite: int, fx: bool, fy: bool, i: int, j: int) -> int {
    (sprite % 16) * 8 + (sprite / 16) * 1024 + (if fx {
        7 - i
    } else {
        i
    }) + (if fy {
        7 - j
    } else {
        j
    }) * 128
}

/// True when `spr(sprite, x, y, ..)` writes the framebuffer pixel (px, py):
/// the pixel lies in the 8x8 destination square and the source pixel's
/// palette entry is not transparent.
pub open spec fn spr_writes(
    m: MemView,
    sprite: int,
    x: int,
    y: int,
    fx: bool,
    fy: bool,
    px: int,
    py: int,
) -> bool {
    &&& x <= px < x + 8
    &&& y <= py < y + 8
    &&& !m.pallete[m.sprites[spr_src_index(sprite, fx, fy, px - x, py - y)] as int].transparent
}

/// The display color that `spr(sprite, x, y, ..)` writes at (px, py): the
/// source pixel's palette entry resolved through the palette table.
pub open spec fn spr_color(
    m: MemView,
    sprite: int,
    x: int,
    y: int,
    fx: bool,
    fy: bool,
    px: int,
    py: int,
) -> u8 {
    m.pallete[m.sprites[spr_src_index(sprite, fx, fy, px - x, py - y)] as int].color
}

/// True when `map(celx, cely, sx, sy, celw, celh, mask)` writes the
/// framebuffer pixel (px, py): the pixel lies in the destination square of
/// some cell of the block, that cell's tile carries every bit of the
/// required mask, and the source pixel is not transparent.
pub open spec fn map_cell_writes(
    m: MemView,
    celx: int,
    cely: int,
    sx: int,
    sy: int,
    celw: int,
    celh: int,
    mask: u8,
    px: int,
    py: int,
) -> bool {
    &&& sx <= px / 8 < sx + celw
    &&& sy <= py / 8 < sy + celh
    &&& {
        let tile = mget_spec(m, celx + (px / 8 - sx), cely + (py / 8 - sy));
        &&& (m.flags[tile as int] & mask) == mask
        &&& spr_writes(m, tile as int, (px / 8) * 8, (py / 8) * 8, false, false, px, py)
    }
}

/// The display color that the tile-map renderer writes at (px, py).
pub open spec fn map_cell_color(
    m: MemView,
    celx: int,
    cely: int,
    sx: int,
    sy: int,
    px: int,
    py: int,
) -> u8 {
    let tile = mget_spec(m, celx + (px / 8 - sx), cely + (py / 8 - sy));
    spr_color(m, tile as int, (px / 8) * 8, (py / 8) * 8, false, false, px, py)
}

/// A pixel coordinate determines its 8-wide cell: `v` lies in cell `a`
/// exactly when `v / 8 == a`.
pub proof fn lemma_cell_of_pixel(a: int, v: int)
    by (nonlinear_arith)
    requires
        0 <= v,
        0 <= a,
    ensures
        (v / 8 == a) <==> (8 * a <= v < 8 * a + 8),
{
}

impl Memory {
    /// Blits the 8x8 cell of `sprite` to destination corner (x, y),
    /// mirroring per the flip flags, resolving every source pixel through
    /// the palette and skipping transparent entries. Destination pixels off
    /// the visible grid are silently dropped.
    pub fn spr(&mut self, sprite: u8, x: i32, y: i32, flip: Option<FlipState>)
        requires
            old(self).wf(),
            x <= i32::MAX - 8,
            y <= i32::MAX - 8,
        ensures
            final(self).wf(),
            graphics_only(old(self)@, final(self)@),
            forall|p: int|
                0 <= p < 16384 ==> #[trigger] final(self)@.graphics[p] == if spr_writes(
                    old(self)@,
                    sprite as int,
                    x as int,
                    y as int,
                    flip_x(flip),
                    flip_y(flip),
                    p % 128,
                    p / 128,
                ) {
                    spr_color(
                        old(self)@,
                        sprite as int,
                        x as int,
                        y as int,
                        flip_x(flip),
                        flip_y(flip),
                        p % 128,
                        p / 128,
                    )
                } else {
                    old(self)@.graphics[p]
                },
    {
        let ghost orig = self@;
        let fs = match flip {
            Some(f) => f,
            None => FlipState { x: false, y: false },
        };
        let mut i: usize = 0;
        while i < 8
            invariant
                self.wf(),
                graphics_only(orig, self@),
                0 <= i <= 8,
                x <= i32::MAX - 8,
                y <= i32::MAX - 8,
                fs.x == flip_x(flip),
                fs.y == flip_y(flip),
                forall|p: int|
                    0 <= p < 16384 ==> #[trigger] self@.graphics[p] == if spr_writes(
                        orig,
                        sprite as int,
                        x as int,
                        y as int,
                        fs.x,
                        fs.y,
                        p % 128,
                        p / 128,
                    ) && p % 128 - x < i {
                        spr_color(
                            orig,
                            sprite as int,
                            x as int,
                            y as int,
                            fs.x,
                            fs.y,
                            p % 128,
                            p / 128,
                        )
                    } else {
                        orig.graphics[p]
                    },
            decreases 8 - i,
        {
            let mut j: usize = 0;
            while j < 8
                invariant
                    self.wf(),
                    graphics_only(orig, self@),
                    0 <= i < 8,
                    0 <= j <= 8,
                    x <= i32::MAX - 8,
                    y <= i32::MAX - 8,
                    fs.x == flip_x(flip),
                    fs.y == flip_y(flip),
                    forall|p: int|
                        0 <= p < 16384 ==> #[trigger] self@.graphics[p] == if spr_writes(
                            orig,
                            sprite as int,
                            x as int,
                            y as int,
                            fs.x,
                            fs.y,
                            p % 128,
                            p / 128,
                        ) && (p % 128 - x < i || (p % 128 - x == i && p / 128 - y < j)) {
                            spr_color(
                                orig,
                                sprite as int,
                                x as int,
                                y as int,
                                fs.x,
                                fs.y,
                                p % 128,
                                p / 128,
                            )
                        } else {
                            orig.graphics[p]
                        },
                decreases 8 - j,
            {
                let ci: usize = if fs.x {
                    7 - i
                } else {
                    i
                };
                let cj: usize = if fs.y {
                    7 - j
                } else {
                    j
                };
                let idx: usize = ((sprite as usize % 16) * 8) + (((sprite as usize / 16) * 8 * 128)
                    + ci + (cj * 128));
                let v = self.sprites[idx];
                let color = self.pallete[v as usize];
                if !color.transparent {
                    let dx = x + i as i32;
                    let dy = y + j as i32;
                    if 0 <= dx && dx < 128 && 0 <= dy && dy < 128 {
                        self.gset(color.color, dx as u8, dy as u8);
                        proof {
                            lemma_linear_index(dx as int, dy as int);
                        }
                    }
                }
                j = j + 1;
            }
            i = i + 1;
        }
    }

    /// Renders a `celw` x `celh` block of map cells starting at map cell
    /// (celx, cely) to screen cells starting at (sx, sy): a cell's sprite is
    /// blitted, unflipped, at `((sx+dx)*8, (sy+dy)*8)` exactly when its flag
    /// byte carries every bit of `mask`; all other cells are skipped with no
    /// side effect.
    pub fn map(&mut self, celx: u8, cely: u8, sx: u8, sy: u8, celw: u8, celh: u8, mask: u8)
        requires
            old(self).wf(),
            celw > 0 && celh > 0 ==> {
                &&& celx + celw <= 256
                &&& cely + celh <= 256
                &&& sx + celw <= 32
                &&& sy + celh <= 32
                &&& (celx + celw - 1) + (cely + celh - 1) * 128 < 8192
            },
        ensures
            final(self).wf(),
            graphics_only(old(self)@, final(self)@),
            forall|p: int|
                0 <= p < 16384 ==> #[trigger] final(self)@.graphics[p] == if map_cell_writes(
                    old(self)@,
                    celx as int,
                    cely as int,
                    sx as int,
                    sy as int,
                    celw as int,
                    celh as int,
                    mask,
                    p % 128,
                    p / 128,
                ) {
                    map_cell_color(
                        old(self)@,
                        celx as int,
                        cely as int,
                        sx as int,
                        sy as int,
                        p % 128,
                        p / 128,
                    )
                } else {
                    old(self)@.graphics[p]
                },
    {
        let ghost orig = self@;
        let mut ioffset: u8 = 0;
        while ioffset < celw
            invariant
                self.wf(),
                graphics_only(orig, self@),
                0 <= ioffset <= celw,
                celw > 0 && celh > 0 ==> {
                    &&& celx + celw <= 256
                    &&& cely + celh <= 256
                    &&& sx + celw <= 32
                    &&& sy + celh <= 32
                    &&& (celx + celw - 1) + (cely + celh - 1) * 128 < 8192
                },
                forall|p: int|
                    0 <= p < 16384 ==> #[trigger] self@.graphics[p] == if map_cell_writes(
                        orig,
                        celx as int,
                        cely as int,
                        sx as int,
                        sy as int,
                        celw as int,
                        celh as int,
                        mask,
                        p % 128,
                        p / 128,
                    ) && p % 128 / 8 - sx < ioffset {
                        map_cell_color(
                            orig,
                            celx as int,
                            cely as int,
                            sx as int,
                            sy as int,
                            p % 128,
                            p / 128,
                        )
                    } else {
                        orig.graphics[p]
                    },
            decreases celw - ioffset,
        {
            let mut joffset: u8 = 0;
            while joffset < celh
                invariant
                    self.wf(),
                    graphics_only(orig, self@),
                    0 <= ioffset < celw,
                    0 <= joffset <= celh,
                    celh > 0 ==> {
                        &&& celx + celw <= 256
                        &&& cely + celh <= 256
                        &&& sx + celw <= 32
                        &&& sy + celh <= 32
                        &&& (celx + celw - 1) + (cely + celh - 1) * 128 < 8192
                    },
                    forall|p: int|
                        0 <= p < 16384 ==> #[trigger] self@.graphics[p] == if map_cell_writes(
                            orig,
                            celx as int,
                            cely as int,
                            sx as int,
                            sy as int,
                            celw as int,
                            celh as int,
                            mask,
                            p % 128,
                            p / 128,
                        ) && (p % 128 / 8 - sx < ioffset || (p % 128 / 8 - sx == ioffset && p / 128
                            / 8 - sy < joffset)) {
                            map_cell_color(
                                orig,
                                celx as int,
                                cely as int,
                                sx as int,
                                sy as int,
                                p % 128,
                                p / 128,
                            )
                        } else {
                            orig.graphics[p]
                        },
                decreases celh - joffset,
            {
                let tx: u8 = celx + ioffset;
                let ty: u8 = cely + joffset;
                let sprnum = self.mget(tx, ty);
                let flag = self.fget_all(sprnum);
                if (flag & mask) == mask {
                    let dx: u8 = (sx + ioffset) * 8;
                    let dy: u8 = (sy + joffset) * 8;
                    self.spr(sprnum, dx as i32, dy as i32, None);
                    proof {
                        assert forall|p: int| #![trigger p % 128] 0 <= p < 16384 implies {
                            &&& ((p % 128 / 8 == sx + ioffset) <==> (dx <= p % 128 < dx + 8))
                            &&& ((p / 128 / 8 == sy + joffset) <==> (dy <= p / 128 < dy + 8))
                        } by {
                            lemma_cell_of_pixel(sx as int + ioffset as int, p % 128);
                            lemma_cell_of_pixel(sy as int + joffset as int, p / 128);
                        }
                    }
                }
                joffset = joffset + 1;
            }
            ioffset = ioffset + 1;
        }
    }
}

} // verus!
