//! Laws of the memory subsystem that relate several operations.

use vstd::prelude::*;

use crate::memory::{mget_spec, mset_spec, MemView};
use crate::sprite::{spr_src_index, spr_writes};

verus! {

/// Writing a visible pixel and then reading the framebuffer at the same
/// coordinates returns exactly the written color, and no other entry moves:
/// the relation between the two states is the one `gset` ensures for an
/// on-screen coordinate pair.
pub proof fn lemma_set_pixel_read_back(pre: MemView, post: MemView, col: u8, x: u8, y: u8)
    requires
        pre.wf(),
        x < 128,
        y < 128,
        post.graphics == pre.graphics.update(x as int + y as int * 128, col),
    ensures
        post.graphics[x as int + y as int * 128] == col,
        forall|p: int|
            0 <= p < 16384 && p != x as int + y as int * 128 ==> #[trigger] post.graphics[p]
                == pre.graphics[p],
{
}

/// A sprite blit never takes the pixel-write path for a source pixel whose
/// resolved palette entry is transparent: such a destination pixel is not
/// among those `spr` writes.
pub proof fn lemma_transparent_pixel_never_written(
    m: MemView,
    sprite: int,
    x: int,
    y: int,
    fx: bool,
    fy: bool,
    px: int,
    py: int,
)
    requires
        m.pallete[m.sprites[spr_src_index(sprite, fx, fy, px - x, py - y)] as int].transparent,
    ensures
        !spr_writes(m, sprite, x, y, fx, fy, px, py),
{
}

/// Writing a tile at map coordinates whose address lies below 4096 and
/// reading the same coordinates back returns exactly the written tile id:
/// inside the tile map proper, `mget` is the inverse of `mset`. (At or above
/// 4096 the two paths deliberately part ways: writes store the raw byte
/// while reads rebuild one from two nibbles.)
pub proof fn lemma_tile_round_trip(m: MemView, x: u8, y: u8, tile: u8)
    requires
        m.wf(),
        x as int + y as int * 128 < 4096,
    ensures
        mget_spec(mset_spec(m, x as int, y as int, tile), x as int, y as int) == tile,
{
}

} // verus!
