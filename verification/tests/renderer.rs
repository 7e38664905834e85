use nes_oxide::cpu::cartridge::Mirroring;
use nes_oxide::ppu::registers::ControlRegister;
use nes_oxide::ppu::Ppu;
use nes_oxide::renderer::bg_pallette;
use nes_oxide::renderer::render;
use nes_oxide::renderer::sprite_palette;
use nes_oxide::renderer::Frame;
use nes_oxide::renderer::SYSTEM_PALETTE;

const BLANK: u8 = 0xFF;

fn unit() -> Ppu {
    let mut chr = vec![0u8; 0x2000];
    // Tile 0: every pixel has value 1.
    for row in 0..8 {
        chr[row] = 0xFF;
    }
    // Tile 1: value 2 in the left half, value 3 in the right half.
    for row in 0..8 {
        chr[16 + row] = 0x0F;
        chr[16 + 8 + row] = 0xFF;
    }
    // Tile 2: one pixel of value 1 in the top left corner.
    chr[32] = 0x80;
    // Tile 3: value 1 in the top row, value 2 in the left column below it.
    chr[48] = 0xFF;
    for row in 1..8 {
        chr[48 + 8 + row] = 0x80;
    }
    // Tile 0 of the second pattern table: every pixel has value 3.
    for row in 0..16 {
        chr[0x1000 + row] = 0xFF;
    }
    let mut ppu = Ppu::new(chr, Mirroring::Horizontal);
    for tile in ppu.vram.iter_mut().take(0x3C0) {
        *tile = BLANK;
    }
    for y in ppu.oam_data.iter_mut().step_by(4) {
        *y = 0xF8;
    }
    for sprite in 0..64 {
        ppu.oam_data[4 * sprite + 1] = BLANK;
    }
    ppu.palette_table = vec![
        0x0F, 0x15, 0x16, 0x17, 0x00, 0x21, 0x22, 0x23, 0x00, 0x31, 0x32, 0x33, 0x00, 0x01, 0x02, 0x03,
        0x00, 0x05, 0x06, 0x07, 0x00, 0x09, 0x0A, 0x0B, 0x00, 0x19, 0x1A, 0x1B, 0x00, 0x29, 0x2A, 0x2B,
    ];
    ppu
}

fn pixel(frame: &Frame, x: usize, y: usize) -> (u8, u8, u8) {
    let base = (y * 256 + x) * 3;
    (frame.data[base], frame.data[base + 1], frame.data[base + 2])
}

fn color(index: u8) -> (u8, u8, u8) {
    SYSTEM_PALETTE[index as usize]
}

#[test]
fn system_palette_entries() {
    assert_eq!(SYSTEM_PALETTE.len(), 64);
    assert_eq!(SYSTEM_PALETTE[0x00], (0x80, 0x80, 0x80));
    assert_eq!(SYSTEM_PALETTE[0x0F], (0x05, 0x05, 0x05));
    assert_eq!(SYSTEM_PALETTE[0x15], (0xFF, 0x29, 0x50));
    assert_eq!(SYSTEM_PALETTE[0x20], (0xFF, 0xFF, 0xFF));
    assert_eq!(SYSTEM_PALETTE[0x3F], (0x11, 0x11, 0x11));
}

#[test]
fn empty_frame_is_black() {
    let frame = Frame::default();
    assert_eq!(frame.data, vec![0u8; 256 * 240 * 3]);
}

#[test]
fn set_pixel_writes_three_bytes() {
    let mut frame = Frame::default();
    frame.set_pixel(0, 0, (1, 2, 3));
    frame.set_pixel(255, 239, (4, 5, 6));
    frame.set_pixel(7, 2, (7, 8, 9));
    assert_eq!(&frame.data[0..3], &[1, 2, 3]);
    assert_eq!(&frame.data[184317..184320], &[4, 5, 6]);
    assert_eq!(&frame.data[(2 * 256 + 7) * 3..(2 * 256 + 7) * 3 + 3], &[7, 8, 9]);
    assert_eq!(frame.data.iter().filter(|byte| **byte != 0).count(), 9);
}

#[test]
fn set_pixel_outside_the_frame_changes_nothing() {
    let mut frame = Frame::default();
    frame.set_pixel(0, 240, (1, 2, 3));
    frame.set_pixel(256, 239, (1, 2, 3));
    frame.set_pixel(usize::MAX, 0, (1, 2, 3));
    frame.set_pixel(0, usize::MAX, (1, 2, 3));
    frame.set_pixel(usize::MAX / 3, usize::MAX / 768, (1, 2, 3));
    assert_eq!(frame.data, vec![0u8; 256 * 240 * 3]);
}

#[test]
fn set_pixel_runs_on_into_the_next_row() {
    let mut frame = Frame::default();
    frame.set_pixel(258, 10, (1, 2, 3));
    assert_eq!(pixel(&frame, 2, 11), (1, 2, 3));
    assert_eq!(frame.data.iter().filter(|byte| **byte != 0).count(), 3);
}

#[test]
fn set_pixel_on_a_short_buffer() {
    let mut frame = Frame { data: vec![0; 8] };
    frame.set_pixel(2, 0, (1, 2, 3));
    assert_eq!(frame.data, vec![0u8; 8]);
    frame.set_pixel(1, 0, (1, 2, 3));
    assert_eq!(frame.data, vec![0, 0, 0, 1, 2, 3, 0, 0]);
}

#[test]
fn background_tile_of_one_color() {
    let mut ppu = unit();
    ppu.vram[0] = 0;
    let frame = render(&ppu);
    for y in 0..8 {
        for x in 0..8 {
            assert_eq!(pixel(&frame, x, y), color(0x15));
        }
    }
    assert_eq!(pixel(&frame, 8, 0), color(0x0F));
    assert_eq!(pixel(&frame, 0, 8), color(0x0F));
    assert_eq!(pixel(&frame, 255, 239), color(0x0F));
}

#[test]
fn fresh_unit_shows_its_sprites_in_the_corner() {
    let mut chr = vec![0u8; 0x2000];
    for row in 0..8 {
        chr[row] = 0xFF;
    }
    let mut ppu = Ppu::new(chr, Mirroring::Vertical);
    ppu.palette_table[0] = 0x0F;
    ppu.palette_table[1] = 0x15;
    ppu.palette_table[0x12] = 0x2C;
    assert!(ppu.renderable());
    let frame = render(&ppu);
    assert_eq!(frame.data.len(), 256 * 240 * 3);
    for y in 0..240 {
        for x in 0..256 {
            let expected = if x < 8 && y < 8 { color(0x2C) } else { color(0x15) };
            assert_eq!(pixel(&frame, x, y), expected);
        }
    }
}

#[test]
fn background_pixels_follow_the_pattern_bits() {
    let mut ppu = unit();
    ppu.vram[33] = 1;
    ppu.vram[2 * 32 + 5] = 2;
    ppu.vram[29 * 32 + 31] = 3;
    let frame = render(&ppu);
    for y in 8..16 {
        for x in 8..12 {
            assert_eq!(pixel(&frame, x, y), color(0x16));
        }
        for x in 12..16 {
            assert_eq!(pixel(&frame, x, y), color(0x17));
        }
    }
    assert_eq!(pixel(&frame, 40, 16), color(0x15));
    assert_eq!(pixel(&frame, 41, 16), color(0x0F));
    assert_eq!(pixel(&frame, 40, 17), color(0x0F));
    assert_eq!(pixel(&frame, 47, 23), color(0x0F));
    // The last tile lies in the upper right block of its attribute byte.
    ppu.vram[0x3C0 + 7 * 8 + 7] = 0b0000_0100;
    let frame = render(&ppu);
    assert_eq!(pixel(&frame, 248, 232), color(0x21));
    assert_eq!(pixel(&frame, 255, 232), color(0x21));
    assert_eq!(pixel(&frame, 248, 233), color(0x22));
    assert_eq!(pixel(&frame, 249, 233), color(0x0F));
    assert_eq!(pixel(&frame, 248, 239), color(0x22));
}

#[test]
fn attribute_byte_picks_the_palette_of_each_block() {
    let mut ppu = unit();
    for row in 0..4 {
        for column in 0..4 {
            ppu.vram[row * 32 + column] = 0;
        }
    }
    ppu.vram[0x3C0] = 0b11_10_01_00;
    let frame = render(&ppu);
    assert_eq!(pixel(&frame, 0, 0), color(0x15));
    assert_eq!(pixel(&frame, 15, 15), color(0x15));
    assert_eq!(pixel(&frame, 16, 0), color(0x21));
    assert_eq!(pixel(&frame, 31, 15), color(0x21));
    assert_eq!(pixel(&frame, 0, 16), color(0x31));
    assert_eq!(pixel(&frame, 15, 31), color(0x31));
    assert_eq!(pixel(&frame, 16, 16), color(0x01));
    assert_eq!(pixel(&frame, 31, 31), color(0x01));
    assert_eq!(bg_pallette(&ppu, 0, 0), [0x0F, 0x15, 0x16, 0x17]);
    assert_eq!(bg_pallette(&ppu, 1, 1), [0x0F, 0x15, 0x16, 0x17]);
    assert_eq!(bg_pallette(&ppu, 2, 1), [0x0F, 0x21, 0x22, 0x23]);
    assert_eq!(bg_pallette(&ppu, 1, 2), [0x0F, 0x31, 0x32, 0x33]);
    assert_eq!(bg_pallette(&ppu, 3, 3), [0x0F, 0x01, 0x02, 0x03]);
    assert_eq!(bg_pallette(&ppu, 4, 0), [0x0F, 0x15, 0x16, 0x17]);
    ppu.vram[0x3C0 + 7 * 8 + 7] = 0b0000_1100;
    assert_eq!(bg_pallette(&ppu, 31, 29), [0x0F, 0x01, 0x02, 0x03]);
    assert_eq!(bg_pallette(&ppu, 30, 28), [0x0F, 0x01, 0x02, 0x03]);
    assert_eq!(bg_pallette(&ppu, 29, 28), [0x0F, 0x15, 0x16, 0x17]);
}

#[test]
fn control_register_picks_the_background_pattern_table() {
    let mut ppu = unit();
    ppu.vram[0] = 0;
    ppu.write_ctrl(ControlRegister::BACKGROUND_PATTERN_ADDR);
    let frame = render(&ppu);
    assert_eq!(pixel(&frame, 0, 0), color(0x17));
    assert_eq!(pixel(&frame, 7, 7), color(0x17));
    assert_eq!(pixel(&frame, 8, 0), color(0x0F));
}

#[test]
fn sprite_pixels_cover_the_background() {
    let mut ppu = unit();
    ppu.oam_data[0..4].copy_from_slice(&[100, 3, 0x01, 50]);
    let frame = render(&ppu);
    for x in 50..58 {
        assert_eq!(pixel(&frame, x, 100), color(0x0A));
    }
    for y in 101..108 {
        assert_eq!(pixel(&frame, 50, y), color(0x09));
        assert_eq!(pixel(&frame, 51, y), color(0x0F));
    }
    assert_eq!(pixel(&frame, 49, 100), color(0x0F));
    assert_eq!(pixel(&frame, 58, 100), color(0x0F));
    assert_eq!(pixel(&frame, 50, 99), color(0x0F));
    assert_eq!(pixel(&frame, 50, 108), color(0x0F));
}

#[test]
fn sprites_flip_both_ways() {
    let mut ppu = unit();
    ppu.oam_data[0..4].copy_from_slice(&[10, 2, 0x00, 20]);
    ppu.oam_data[4..8].copy_from_slice(&[10, 2, 0x40, 40]);
    ppu.oam_data[8..12].copy_from_slice(&[10, 2, 0x80, 60]);
    ppu.oam_data[12..16].copy_from_slice(&[10, 2, 0xC0, 80]);
    let frame = render(&ppu);
    let lit: Vec<(usize, usize)> = (0..240)
        .flat_map(|y| (0..256).map(move |x| (x, y)))
        .filter(|(x, y)| pixel(&frame, *x, *y) != color(0x0F))
        .collect();
    assert_eq!(lit, vec![(20, 10), (47, 10), (60, 17), (87, 17)]);
    for (x, y) in lit {
        assert_eq!(pixel(&frame, x, y), color(0x06));
    }
}

#[test]
fn lower_numbered_sprite_wins() {
    let mut ppu = unit();
    ppu.oam_data[0..4].copy_from_slice(&[30, 3, 0x00, 30]);
    ppu.oam_data[4..8].copy_from_slice(&[30, 0x00, 0x02, 34]);
    ppu.oam_data[8..12].copy_from_slice(&[34, 0x00, 0x03, 30]);
    let frame = render(&ppu);
    // Sprite 0 is opaque in its top row and its left column.
    for x in 30..38 {
        assert_eq!(pixel(&frame, x, 30), color(0x06));
    }
    for y in 31..38 {
        assert_eq!(pixel(&frame, 30, y), color(0x05));
    }
    // Where sprite 0 is transparent, sprite 1 shows, then sprite 2.
    assert_eq!(pixel(&frame, 34, 31), color(0x1A));
    assert_eq!(pixel(&frame, 41, 37), color(0x1A));
    assert_eq!(pixel(&frame, 34, 36), color(0x1A));
    assert_eq!(pixel(&frame, 31, 36), color(0x2A));
    assert_eq!(pixel(&frame, 33, 41), color(0x2A));
    assert_eq!(pixel(&frame, 37, 38), color(0x2A));
    assert_eq!(pixel(&frame, 38, 38), color(0x0F));
}

#[test]
fn sprite_palette_has_a_transparent_first_entry() {
    let ppu = unit();
    assert_eq!(sprite_palette(&ppu, 0), [0, 0x05, 0x06, 0x07]);
    assert_eq!(sprite_palette(&ppu, 1), [0, 0x09, 0x0A, 0x0B]);
    assert_eq!(sprite_palette(&ppu, 2), [0, 0x19, 0x1A, 0x1B]);
    assert_eq!(sprite_palette(&ppu, 3), [0, 0x29, 0x2A, 0x2B]);
}

#[test]
fn control_register_picks_the_sprite_pattern_table() {
    let mut ppu = unit();
    ppu.write_ctrl(ControlRegister::SPRITE_PATTERN_ADDR);
    ppu.oam_data[0..4].copy_from_slice(&[0, 0, 0x00, 0]);
    let frame = render(&ppu);
    assert_eq!(pixel(&frame, 0, 0), color(0x07));
    assert_eq!(pixel(&frame, 7, 7), color(0x07));
    assert_eq!(pixel(&frame, 8, 8), color(0x0F));
}

#[test]
fn sprites_at_the_edges_of_the_picture() {
    let mut ppu = unit();
    ppu.oam_data[0..4].copy_from_slice(&[236, 0, 0x00, 100]);
    ppu.oam_data[4..8].copy_from_slice(&[50, 0, 0x01, 252]);
    let frame = render(&ppu);
    for y in 236..240 {
        assert_eq!(pixel(&frame, 100, y), color(0x06));
        assert_eq!(pixel(&frame, 107, y), color(0x06));
    }
    assert_eq!(pixel(&frame, 100, 235), color(0x0F));
    for y in 50..58 {
        assert_eq!(pixel(&frame, 252, y), color(0x0A));
        assert_eq!(pixel(&frame, 255, y), color(0x0A));
        // Columns beyond the right edge run on into the next row.
        assert_eq!(pixel(&frame, 0, y + 1), color(0x0A));
        assert_eq!(pixel(&frame, 3, y + 1), color(0x0A));
        assert_eq!(pixel(&frame, 4, y + 1), color(0x0F));
    }
    assert_eq!(pixel(&frame, 0, 50), color(0x0F));
}

#[test]
fn unit_with_a_palette_entry_out_of_range_is_not_renderable() {
    let mut ppu = unit();
    assert!(ppu.renderable());
    ppu.palette_table[31] = 0x40;
    assert!(!ppu.renderable());
    ppu.palette_table[31] = 0x3F;
    assert!(ppu.renderable());
}
