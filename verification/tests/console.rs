use console_gfx::memory::Memory;
use console_gfx::structures::FlipState;

/// A memory whose map, sprite and flag strings are all zeroes.
fn blank_memory() -> Memory {
    Memory::new(
        "0".repeat(8192),
        "0".repeat(16384),
        "0".repeat(512),
        String::new(),
    )
}

/// A memory built from sprite nibbles and map/flag bytes chosen per index.
fn memory_with(
    map_bytes: &[(usize, u8)],
    sprite_nibbles: &[(usize, u8)],
    flag_bytes: &[(usize, u8)],
) -> Memory {
    let mut map: Vec<u8> = vec![0; 4096];
    for &(i, v) in map_bytes {
        map[i] = v;
    }
    let mut flags: Vec<u8> = vec![0; 256];
    for &(i, v) in flag_bytes {
        flags[i] = v;
    }
    let mut sprites: Vec<char> = vec!['0'; 16384];
    for &(i, v) in sprite_nibbles {
        sprites[i] = char::from_digit(v as u32, 16).unwrap();
    }
    let map_hex: String = map.iter().map(|b| format!("{:02x}", b)).collect();
    let flags_hex: String = flags.iter().map(|b| format!("{:02x}", b)).collect();
    let sprites_str: String = sprites.into_iter().collect();
    Memory::new(map_hex, sprites_str, flags_hex, String::new())
}

fn pixel(m: &Memory, x: usize, y: usize) -> u8 {
    m.graphics[x + y * 128]
}

/// The sprite-sheet string index of pixel (i, j) of sprite `id`'s 8x8 cell.
fn cell_index(id: usize, i: usize, j: usize) -> usize {
    (id % 16) * 8 + (id / 16) * 1024 + i + j * 128
}

#[test]
fn set_pixel_then_read_back() {
    let mut m = blank_memory();
    m.gset(7, 0, 0);
    m.gset(9, 127, 127);
    m.gset(3, 64, 31);
    assert_eq!(pixel(&m, 0, 0), 7);
    assert_eq!(pixel(&m, 127, 127), 9);
    assert_eq!(pixel(&m, 64, 31), 3);
}

#[test]
fn set_pixel_out_of_range_is_ignored() {
    let mut m = blank_memory();
    let before = m.graphics.clone();
    m.gset(7, 128, 0);
    m.gset(7, 0, 128);
    assert_eq!(m.graphics, before);
}

#[test]
fn rect_fill_fully_outside_is_noop() {
    let mut m = blank_memory();
    let before = m.graphics.clone();
    m.rectfill(200, 200, 300, 300, 5);
    assert_eq!(m.graphics, before);
}

#[test]
fn rect_fill_full_screen_paints_every_pixel() {
    let mut m = blank_memory();
    m.rectfill(0, 0, 127, 127, 5);
    assert!(m.graphics.iter().all(|&c| c == 5));
}

#[test]
fn rect_fill_clips_to_grid() {
    let mut m = blank_memory();
    m.rectfill(-10, -10, 2, 2, 6);
    for x in 0..128 {
        for y in 0..128 {
            let expected = if x <= 2 && y <= 2 { 6 } else { ((x + y * 128) % 15) as u8 };
            assert_eq!(pixel(&m, x, y), expected);
        }
    }
}

#[test]
fn rect_fill_inverted_corners_paints_both_ways() {
    let mut m = blank_memory();
    m.rectfill(10, 6, 3, 5, 9);
    for x in 0..128 {
        for y in 0..128 {
            let expected = if (3..=10).contains(&x) && (5..=6).contains(&y) {
                9
            } else {
                ((x + y * 128) % 15) as u8
            };
            assert_eq!(pixel(&m, x, y), expected);
        }
    }
}

#[test]
fn stepping_fill_paints_both_endpoints() {
    let mut m = blank_memory();
    m.rrectfill(4, 4, 4, 4, 8);
    assert_eq!(pixel(&m, 4, 4), 8);
    m.rrectfill(1, 2, 3, 2, 11);
    assert_eq!(pixel(&m, 1, 2), 11);
    assert_eq!(pixel(&m, 2, 2), 11);
    assert_eq!(pixel(&m, 3, 2), 11);
    assert_ne!(pixel(&m, 4, 2), 11);
}

#[test]
fn circle_fill_radius_ten() {
    let mut m = blank_memory();
    m.circfill(64, 64, 10, 5);
    assert_eq!(pixel(&m, 74, 64), 5);
    assert_eq!(pixel(&m, 54, 64), 5);
    assert_eq!(pixel(&m, 64, 74), 5);
    assert_eq!(pixel(&m, 64, 64), 5);
    assert_ne!(pixel(&m, 64, 90), 5);
    assert_ne!(pixel(&m, 76, 64), 5);
}

#[test]
fn default_construction_gradient_and_palette() {
    let m = blank_memory();
    for i in 0..128 * 128 {
        assert_eq!(m.graphics[i], (i % 15) as u8);
    }
    assert!(m.pallete[0].transparent);
    assert_eq!(m.pallete[0].color, 0);
    for i in 1..16 {
        assert!(!m.pallete[i].transparent);
        assert_eq!(m.pallete[i].color, i as u8);
    }
    assert_eq!(m.buttons, vec![false; 6]);
}

#[test]
fn construction_decodes_map_sprites_and_flags() {
    let m = memory_with(&[(0, 0xab), (4095, 0x7f)], &[(12, 0xe)], &[(3, 0x55)]);
    assert_eq!(m.map[0], 0xab);
    assert_eq!(m.map[4095], 0x7f);
    assert_eq!(m.sprites[12], 0xe);
    assert_eq!(m.sprites[0], 0);
    assert_eq!(m.fget_all(3), 0x55);
}

#[test]
fn font_atlas_marks_ones_of_the_sprite_string() {
    let m = memory_with(&[], &[(5, 1), (6, 2), (7, 1)], &[]);
    assert!(m.fontatlas[5]);
    assert!(!m.fontatlas[6]);
    assert!(m.fontatlas[7]);
    assert!(!m.fontatlas[0]);
}

#[test]
fn tile_write_then_read_round_trip() {
    let mut m = blank_memory();
    m.mset(10, 3, 200);
    assert_eq!(m.mget(10, 3), 200);
    m.mset(10, 3, 17);
    assert_eq!(m.mget(10, 3), 17);
    m.mset(127, 31, 255);
    assert_eq!(m.mget(127, 31), 255);
}

#[test]
fn tile_read_past_4096_rebuilds_byte_from_nibbles() {
    // Address 4096 reads sprite-sheet nibbles 8192 (low) and 8193 (high).
    let m = memory_with(&[], &[(8192, 0x4), (8193, 0xa)], &[]);
    assert_eq!(m.mget(0, 32), 0xa4);
    // Address 8191, the last aliased slot, reads nibbles 16382 and 16383.
    let m2 = memory_with(&[], &[(16382, 0x1), (16383, 0xf)], &[]);
    assert_eq!(m2.mget(127, 63), 0xf1);
}

#[test]
fn tile_write_past_4096_stores_raw_byte_in_sprite_sheet() {
    let mut m = blank_memory();
    // Address 4096 writes sprite-sheet entry 4096: pixel (0, 32), the
    // top-left pixel of sprite 64. The write path does not mirror the
    // nibble-rebuilding read path.
    m.mset(0, 32, 9);
    assert_eq!(m.sprites[4096], 9);
    assert_eq!(m.mget(0, 32), 0);
    m.spr(64, 0, 0, None);
    assert_eq!(pixel(&m, 0, 0), 9);
}

#[test]
fn flag_bit_test_uses_the_literal_formula() {
    let m = memory_with(&[], &[], &[(1, 0x02), (2, 0xff)]);
    // (flag & 2) ^ idx: flag 0x02 gives 2 ^ idx.
    assert!(!m.fget(1, 2));
    assert!(m.fget(1, 0));
    assert!(m.fget(1, 3));
    // flag 0xff also keeps only bit 1 before the xor.
    assert!(!m.fget(2, 2));
    assert!(m.fget(2, 7));
    // flag 0x00: result is idx itself.
    assert!(!m.fget(0, 0));
    assert!(m.fget(0, 4));
}

#[test]
fn sprite_blit_draws_cell_and_skips_transparent() {
    // Sprite 1: pixel (0,0) color 3, pixel (7,7) color 4, rest color 0
    // (transparent by default).
    let mut m = memory_with(&[], &[(cell_index(1, 0, 0), 3), (cell_index(1, 7, 7), 4)], &[]);
    let before = m.graphics.clone();
    m.spr(1, 20, 30, None);
    assert_eq!(pixel(&m, 20, 30), 3);
    assert_eq!(pixel(&m, 27, 37), 4);
    // Every other destination pixel kept its prior value.
    for x in 0..128 {
        for y in 0..128 {
            if (x, y) != (20, 30) && (x, y) != (27, 37) {
                assert_eq!(pixel(&m, x, y), before[x + y * 128]);
            }
        }
    }
}

#[test]
fn sprite_of_transparent_color_leaves_destination_unchanged() {
    // Sprite 2 is entirely color 0 and palette entry 0 is transparent.
    let mut m = blank_memory();
    let before = m.graphics.clone();
    m.spr(2, 40, 40, None);
    assert_eq!(m.graphics, before);
}

#[test]
fn sprite_blit_honors_flip_flags() {
    let mut m = memory_with(&[], &[(cell_index(1, 0, 0), 3)], &[]);
    m.spr(1, 0, 0, Some(FlipState { x: true, y: false }));
    assert_eq!(pixel(&m, 7, 0), 3);
    let mut m2 = memory_with(&[], &[(cell_index(1, 0, 0), 3)], &[]);
    m2.spr(1, 0, 0, Some(FlipState { x: true, y: true }));
    assert_eq!(pixel(&m2, 7, 7), 3);
    let mut m3 = memory_with(&[], &[(cell_index(1, 0, 0), 3)], &[]);
    m3.spr(1, 0, 0, Some(FlipState { x: false, y: true }));
    assert_eq!(pixel(&m3, 0, 7), 3);
}

#[test]
fn sprite_blit_clips_at_the_grid_edge() {
    let mut m = memory_with(
        &[],
        &[
            (cell_index(1, 0, 0), 3),
            (cell_index(1, 7, 0), 4),
        ],
        &[],
    );
    let before = m.graphics.clone();
    m.spr(1, 124, 0, None);
    // Column offset 7 would land at x = 131: dropped.
    assert_eq!(pixel(&m, 124, 0), 3);
    for y in 0..128 {
        for x in 0..124 {
            assert_eq!(pixel(&m, x, y), before[x + y * 128]);
        }
    }
    let mut m2 = memory_with(&[], &[(cell_index(1, 7, 7), 4)], &[]);
    m2.spr(1, -7, -7, None);
    assert_eq!(pixel(&m2, 0, 0), 4);
}

#[test]
fn palette_remap_and_transparency_change_blits() {
    let mut m = memory_with(&[], &[(cell_index(1, 0, 0), 2), (cell_index(1, 1, 0), 3)], &[]);
    m.pal(2, 9);
    m.palt(3, true);
    m.spr(1, 0, 0, None);
    // Color 2 now displays as 9; color 3 became transparent.
    assert_eq!(pixel(&m, 0, 0), 9);
    assert_eq!(pixel(&m, 1, 0), (1 % 15) as u8);
}

#[test]
fn map_block_blits_exactly_the_cells_whose_flags_match() {
    // Tiles 1..=4 at map cells (0,0), (1,0), (0,1), (1,1); each tile's cell
    // is a solid square of its own color; tile 3's flag misses one required
    // bit.
    let mut sprite_nibbles: Vec<(usize, u8)> = Vec::new();
    for tile in 1..=4usize {
        for i in 0..8 {
            for j in 0..8 {
                sprite_nibbles.push((cell_index(tile, i, j), tile as u8));
            }
        }
    }
    let mut m = memory_with(
        &[(0, 1), (1, 2), (128, 3), (129, 4)],
        &sprite_nibbles,
        &[(1, 0x03), (2, 0x03), (3, 0x01), (4, 0x07)],
    );
    let before = m.graphics.clone();
    m.map(0, 0, 2, 1, 2, 2, 0x03);
    for x in 0..128 {
        for y in 0..128 {
            let expected = if (16..24).contains(&x) && (8..16).contains(&y) {
                1
            } else if (24..32).contains(&x) && (8..16).contains(&y) {
                2
            } else if (24..32).contains(&x) && (16..24).contains(&y) {
                4
            } else {
                // The cell of tile 3, at x in 16..24 and y in 16..24, is
                // skipped along with the rest of the screen.
                before[x + y * 128]
            };
            assert_eq!(pixel(&m, x, y), expected);
        }
    }
}

#[test]
fn map_block_with_zero_mask_blits_all_cells() {
    let mut sprite_nibbles: Vec<(usize, u8)> = Vec::new();
    for i in 0..8 {
        for j in 0..8 {
            sprite_nibbles.push((cell_index(5, i, j), 6));
        }
    }
    let mut m = memory_with(&[(0, 5)], &sprite_nibbles, &[]);
    m.map(0, 0, 0, 0, 1, 1, 0);
    for x in 0..8 {
        for y in 0..8 {
            assert_eq!(pixel(&m, x, y), 6);
        }
    }
}

#[test]
fn print_leaves_memory_unchanged() {
    let mut m = blank_memory();
    let before = m.graphics.clone();
    m.print(String::from("hello"), 10, 10, 7);
    assert_eq!(m.graphics, before);
    assert_eq!(m.map, vec![0; 4096]);
}
