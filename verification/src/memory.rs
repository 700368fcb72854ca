//! The console's memory: framebuffer, tile map, sprite sheet, flag table,
//! palette, button state, and the font-atlas mask, together with the
//! byte-level accessors whose addressing aliases the tile map into the
//! nibble-packed tail of the sprite sheet.

use vstd::prelude::*;

use crate::hexcodec::{all_hex_digits, decode_hex_string, hex_bytes, hex_digit, hex_digit_val};
use vstd::std_specs::iter::IteratorSpec;

verus! {

broadcast use vstd::string::group_string_axioms;

/// One palette entry: the color index actually displayed for a logical
/// color, and whether that logical color is skipped as transparent.
#[derive(Clone, Copy)]
pub struct ColorState {
    pub color: u8,
    pub transparent: bool,
}

/// The console's whole addressable state.
pub struct Memory {
    /// The 128x128 framebuffer, row-major: index = x + y * 128.
    pub graphics: Vec<u8>,
    /// One flag per sprite-string character: whether it is the digit '1'.
    pub fontatlas: Vec<bool>,
    /// The tile map proper: the first 4096 addressable slots.
    pub map: Vec<u8>,
    /// The sprite sheet, one color index per pixel, 128x128 in 8x8 cells.
    pub sprites: Vec<u8>,
    /// One attribute byte per sprite id.
    pub flags: Vec<u8>,
    /// Six input buttons, stored here but driven by outside callers.
    pub buttons: Vec<bool>,
    /// The 16-entry palette.
    pub pallete: Vec<ColorState>,
}

/// The mathematical model of a `Memory`: each region as a sequence.
pub struct MemView {
    pub graphics: Seq<u8>,
    pub fontatlas: Seq<bool>,
    pub map: Seq<u8>,
    pub sprites: Seq<u8>,
    pub flags: Seq<u8>,
    pub buttons: Seq<bool>,
    pub pallete: Seq<ColorState>,
}

impl View for Memory {
    type V = MemView;

    open spec fn view(&self) -> MemView {
        MemView {
            graphics: self.graphics@,
            fontatlas: self.fontatlas@,
            map: self.map@,
            sprites: self.sprites@,
            flags: self.flags@,
            buttons: self.buttons@,
            pallete: self.pallete@,
        }
    }
}

impl MemView {
    /// Well-formedness: every region has its architectural size and every
    /// sprite-sheet entry is a color index below 16, so that palette lookups
    /// and nibble reconstruction stay in range.
    pub open spec fn wf(self) -> bool {
        &&& self.graphics.len() == 16384
        &&& self.fontatlas.len() == 16384
        &&& self.map.len() == 4096
        &&& self.sprites.len() == 16384
        &&& self.flags.len() == 256
        &&& self.buttons.len() == 6
        &&& self.pallete.len() == 16
        &&& forall|i: int| 0 <= i < 16384 ==> #[trigger] self.sprites[i] < 16
    }
}

/// True when the two states agree on everything but the framebuffer: what
/// every drawing primitive leaves untouched.
pub open spec fn graphics_only(pre: MemView, post: MemView) -> bool {
    &&& post.fontatlas == pre.fontatlas
    &&& post.map == pre.map
    &&& post.sprites == pre.sprites
    &&& post.flags == pre.flags
    &&& post.buttons == pre.buttons
    &&& post.pallete == pre.pallete
}

/// The tile id read at map coordinates (x, y), for addresses below 8192:
/// below 4096 the tile map itself, above it the byte rebuilt from two
/// adjacent nibbles in the sprite sheet's reserved tail, low nibble first.
pub open spec fn mget_spec(m: MemView, x: int, y: int) -> u8 {
    let ind = x + y * 128;
    if ind < 4096 {
        m.map[ind]
    } else {
        let start = (ind - 4096) * 2 + 8192;
        (m.sprites[start + 1] * 16 + m.sprites[start]) as u8
    }
}

/// The state after a tile write at map coordinates (x, y): below 4096 the
/// tile map slot, at or above it the raw sprite-sheet byte at the same
/// address. The write path deliberately does not mirror the read path's
/// nibble reconstruction; the asymmetry is a preserved quirk of the console.
pub open spec fn mset_spec(m: MemView, x: int, y: int, tile: u8) -> MemView {
    let ind = x + y * 128;
    if ind < 4096 {
        MemView { map: m.map.update(ind, tile), ..m }
    } else {
        MemView { sprites: m.sprites.update(ind, tile), ..m }
    }
}

/// The flag-bit test: nonzero result of `(flagByte AND 2) XOR bitIndex`.
/// This is the console's literal rule, not a conventional "is bit N set"
/// test.
pub open spec fn fget_spec(m: MemView, sprnum: u8, idx: u8) -> bool {
    ((m.flags[sprnum as int] & 2) ^ idx) != 0
}

/// Reads every character of a string of hex digits as its nibble value.
fn nibbles_of_string(s: &String) -> (r: Vec<u8>)
    requires
        all_hex_digits(s@),
    ensures
        r@.len() == s@.len(),
        forall|i: int| 0 <= i < s@.len() ==> #[trigger] r@[i] == hex_digit_val(s@[i]),
{
    let n: usize = s.as_str().unicode_len();
    let mut it = s.as_str().chars();
    let mut r: Vec<u8> = Vec::new();
    let mut i: usize = 0;
    while i < n
        invariant
            all_hex_digits(s@),
            s@.len() == n,
            0 <= i <= n,
            it.remaining() =~= s@.skip(i as int),
            r@.len() == i,
            forall|j: int| 0 <= j < i ==> #[trigger] r@[j] == hex_digit_val(s@[j]),
        decreases n - i,
    {
        let copt = it.next();
        if let Some(c) = copt {
            proof {
                assert(c == s@[i as int]);
                assert(s@.skip(i + 1 as int) =~= s@.skip(i as int).drop_first());
            }
            r.push(hex_digit(c));
            i = i + 1;
        } else {
            proof {
                assert(false);
            }
        }
    }
    r
}

/// Marks every character of the sprite string that is the literal digit '1':
/// the font-atlas mask is derived from the sprite data, not from the
/// dedicated font argument.
fn font_mask_of_string(s: &String) -> (r: Vec<bool>)
    ensures
        r@.len() == s@.len(),
        forall|i: int| 0 <= i < s@.len() ==> #[trigger] r@[i] == (s@[i] == '1'),
{
    let n: usize = s.as_str().unicode_len();
    let mut it = s.as_str().chars();
    let mut r: Vec<bool> = Vec::new();
    let mut i: usize = 0;
    while i < n
        invariant
            s@.len() == n,
            0 <= i <= n,
            it.remaining() =~= s@.skip(i as int),
            r@.len() == i,
            forall|j: int| 0 <= j < i ==> #[trigger] r@[j] == (s@[j] == '1'),
        decreases n - i,
    {
        let copt = it.next();
        if let Some(c) = copt {
            proof {
                assert(c == s@[i as int]);
                assert(s@.skip(i + 1 as int) =~= s@.skip(i as int).drop_first());
            }
            r.push(c == '1');
            i = i + 1;
        } else {
            proof {
                assert(false);
            }
        }
    }
    r
}

impl Memory {
    /// Well-formedness of the concrete state; see `MemView::wf`.
    pub open spec fn wf(&self) -> bool {
        self@.wf()
    }

    /// Builds the console's memory from its three encoded inputs: the tile
    /// map and the flag table as hex byte strings, the sprite sheet as one
    /// hex digit per pixel. The framebuffer starts as the fixed `index mod
    /// 15` gradient and the palette maps every color to itself, entry 0
    /// transparent. The fourth argument is accepted for the font atlas, but
    /// the atlas is derived from the sprite string and the argument is left
    /// unread.
    pub fn new(map: String, sprites: String, flags: String, fontatlas: String) -> (r: Memory)
        requires
            map@.len() == 8192,
            all_hex_digits(map@),
            sprites@.len() == 16384,
            all_hex_digits(sprites@),
            flags@.len() == 512,
            all_hex_digits(flags@),
        ensures
            r.wf(),
            forall|i: int| 0 <= i < 16384 ==> #[trigger] r@.graphics[i] == (i % 15) as u8,
            forall|i: int| 0 <= i < 16 ==> #[trigger] r@.pallete[i] == (ColorState {
                color: i as u8,
                transparent: i == 0,
            }),
            r@.map == hex_bytes(map@),
            forall|i: int| 0 <= i < 16384 ==> #[trigger] r@.sprites[i] == hex_digit_val(sprites@[i]),
            forall|i: int| 0 <= i < 16384 ==> #[trigger] r@.fontatlas[i] == (sprites@[i] == '1'),
            r@.flags == hex_bytes(flags@),
            r@.buttons.len() == 6,
            forall|i: int| 0 <= i < 6 ==> !(#[trigger] r@.buttons[i]),
    {
        let _ = fontatlas;
        let mut graphics: Vec<u8> = Vec::new();
        let mut i: usize = 0;
        while i < 16384
            invariant
                0 <= i <= 16384,
                graphics@.len() == i,
                forall|j: int| 0 <= j < i ==> #[trigger] graphics@[j] == (j % 15) as u8,
            decreases 16384 - i,
        {
            graphics.push((i % 15) as u8);
            i = i + 1;
        }
        let mut pal: Vec<ColorState> = Vec::new();
        let mut k: usize = 0;
        while k < 16
            invariant
                0 <= k <= 16,
                pal@.len() == k,
                forall|j: int| 0 <= j < k ==> #[trigger] pal@[j] == (ColorState {
                    color: j as u8,
                    transparent: j == 0,
                }),
            decreases 16 - k,
        {
            pal.push(ColorState { color: k as u8, transparent: k == 0 });
            k = k + 1;
        }
        let mut buttons: Vec<bool> = Vec::new();
        let mut b: usize = 0;
        while b < 6
            invariant
                0 <= b <= 6,
                buttons@.len() == b,
                forall|j: int| 0 <= j < b ==> !(#[trigger] buttons@[j]),
            decreases 6 - b,
        {
            buttons.push(false);
            b = b + 1;
        }
        let fontatlas_mask = font_mask_of_string(&sprites);
        let sprite_nibbles = nibbles_of_string(&sprites);
        let map_bytes = decode_hex_string(&map);
        let flag_bytes = decode_hex_string(&flags);
        Memory {
            graphics,
            fontatlas: fontatlas_mask,
            map: map_bytes,
            sprites: sprite_nibbles,
            flags: flag_bytes,
            buttons,
            pallete: pal,
        }
    }

    /// Overwrites the displayed color of a palette entry.
    pub fn pal(&mut self, index: usize, color: u8)
        requires
            old(self).wf(),
            index < 16,
        ensures
            final(self).wf(),
            final(self)@.pallete == old(self)@.pallete.update(
                index as int,
                ColorState { color, transparent: old(self)@.pallete[index as int].transparent },
            ),
            final(self)@ == (MemView { pallete: final(self)@.pallete, ..old(self)@ }),
    {
        let transparent = self.pallete[index].transparent;
        self.pallete.set(index, ColorState { color, transparent });
    }

    /// Overwrites the transparency flag of a palette entry.
    pub fn palt(&mut self, index: usize, transparent: bool)
        requires
            old(self).wf(),
            index < 16,
        ensures
            final(self).wf(),
            final(self)@.pallete == old(self)@.pallete.update(
                index as int,
                ColorState { color: old(self)@.pallete[index as int].color, transparent },
            ),
            final(self)@ == (MemView { pallete: final(self)@.pallete, ..old(self)@ }),
    {
        let color = self.pallete[index].color;
        self.pallete.set(index, ColorState { color, transparent });
    }

    /// Draws nothing: text rendering on this console leaves every memory
    /// region, the framebuffer included, exactly as it was.
    pub fn print(&mut self, text: String, x: u8, y: u8, col: u8)
        ensures
            *final(self) == *old(self),
    {
        let _ = text;
        let _ = x;
        let _ = y;
        let _ = col;
    }

    /// Reads the tile id at map coordinates (x, y). Addresses below 4096 hit
    /// the tile map; addresses up to 8192 rebuild a byte from two adjacent
    /// nibbles in the sprite sheet's reserved tail.
    pub fn mget(&self, x: u8, y: u8) -> (r: u8)
        requires
            self.wf(),
            x as int + y as int * 128 < 8192,
        ensures
            r == mget_spec(self@, x as int, y as int),
    {
        let ind: usize = x as usize + y as usize * 128;
        if ind < 4096 {
            self.map[ind]
        } else {
            let start: usize = (ind - 4096) * 2 + 8192;
            self.sprites[start + 1] * 16 + self.sprites[start]
        }
    }

    /// Writes a tile id at map coordinates (x, y). Addresses below 4096 hit
    /// the tile map; higher addresses store the raw byte straight into the
    /// sprite sheet, without the nibble split that `mget` undoes.
    pub fn mset(&mut self, x: u8, y: u8, tile: u8)
        requires
            old(self).wf(),
            x as int + y as int * 128 < 16384,
            x as int + y as int * 128 >= 4096 ==> tile < 16,
        ensures
            final(self).wf(),
            final(self)@ == mset_spec(old(self)@, x as int, y as int, tile),
    {
        let ind: usize = x as usize + y as usize * 128;
        if ind < 4096 {
            self.map.set(ind, tile);
        } else {
            self.sprites.set(ind, tile);
        }
    }

    /// Tests a sprite's flag byte with the console's literal rule: nonzero
    /// `(flagByte AND 2) XOR bitIndex`.
    pub fn fget(&self, sprnum: u8, idx: u8) -> (r: bool)
        requires
            self.wf(),
        ensures
            r == fget_spec(self@, sprnum, idx),
    {
        ((self.flags[sprnum as usize] & 2) ^ idx) != 0
    }

    /// Reads a sprite's whole flag byte.
    pub fn fget_all(&self, sprnum: u8) -> (r: u8)
        requires
            self.wf(),
        ensures
            r == self@.flags[sprnum as int],
    {
        self.flags[sprnum as usize]
    }
}

} // verus!
