//! The frame compositor: the picture that the state of the picture
//! processing unit stands for, background first, sprites on top.
use crate::ppu::registers::ControlRegister;
use crate::ppu::Ppu;
use crate::ppu::PpuView;
use vstd::prelude::*;

pub mod frame;

pub use frame::Frame;

use frame::lemma_plot_pixels;
use frame::pixel_of;
use frame::FRAME_BYTES;
use frame::PIXELS;

verus! {

/// The colors that the machine can show, as red, green and blue.
pub const SYSTEM_PALETTE: [(u8, u8, u8); 64] = [
    (0x80, 0x80, 0x80), (0x00, 0x3D, 0xA6), (0x00, 0x12, 0xB0), (0x44, 0x00, 0x96),
    (0xA1, 0x00, 0x5E), (0xC7, 0x00, 0x28), (0xBA, 0x06, 0x00), (0x8C, 0x17, 0x00),
    (0x5C, 0x2F, 0x00), (0x10, 0x45, 0x00), (0x05, 0x4A, 0x00), (0x00, 0x47, 0x2E),
    (0x00, 0x41, 0x66), (0x00, 0x00, 0x00), (0x05, 0x05, 0x05), (0x05, 0x05, 0x05),
    (0xC7, 0xC7, 0xC7), (0x00, 0x77, 0xFF), (0x21, 0x55, 0xFF), (0x82, 0x37, 0xFA),
    (0xEB, 0x2F, 0xB5), (0xFF, 0x29, 0x50), (0xFF, 0x22, 0x00), (0xD6, 0x32, 0x00),
    (0xC4, 0x62, 0x00), (0x35, 0x80, 0x00), (0x05, 0x8F, 0x00), (0x00, 0x8A, 0x55),
    (0x00, 0x99, 0xCC), (0x21, 0x21, 0x21), (0x09, 0x09, 0x09), (0x09, 0x09, 0x09),
    (0xFF, 0xFF, 0xFF), (0x0F, 0xD7, 0xFF), (0x69, 0xA2, 0xFF), (0xD4, 0x80, 0xFF),
    (0xFF, 0x45, 0xF3), (0xFF, 0x61, 0x8B), (0xFF, 0x88, 0x33), (0xFF, 0x9C, 0x12),
    (0xFA, 0xBC, 0x20), (0x9F, 0xE3, 0x0E), (0x2B, 0xF0, 0x35), (0x0C, 0xF0, 0xA4),
    (0x05, 0xFB, 0xFF), (0x5E, 0x5E, 0x5E), (0x0D, 0x0D, 0x0D), (0x0D, 0x0D, 0x0D),
    (0xFF, 0xFF, 0xFF), (0xA6, 0xFC, 0xFF), (0xB3, 0xEC, 0xFF), (0xDA, 0xAB, 0xEB),
    (0xFF, 0xA8, 0xF9), (0xFF, 0xAB, 0xB3), (0xFF, 0xD2, 0xB0), (0xFF, 0xEF, 0xA6),
    (0xFF, 0xF7, 0x9C), (0xD7, 0xE8, 0x95), (0xA6, 0xED, 0xAF), (0xA2, 0xF2, 0xDA),
    (0x99, 0xFF, 0xFC), (0xDD, 0xDD, 0xDD), (0x11, 0x11, 0x11), (0x11, 0x11, 0x11),
];

/// Tiles in a row of the nametable.
pub const TILE_COLUMNS: usize = 32;

/// Rows of tiles in the nametable.
pub const TILE_ROWS: usize = 30;

/// Where the attribute table starts in a nametable.
pub const ATTRIBUTE_TABLE: usize = 0x3C0;

/// Sprites in OAM.
pub const SPRITES: usize = 64;

/// The red, green or blue of a color.
pub open spec fn channel(rgb: (u8, u8, u8), c: int) -> u8 {
    if c == 0 {
        rgb.0
    } else if c == 1 {
        rgb.1
    } else {
        rgb.2
    }
}

/// Two planes of a pattern row give the two-bit value of the pixel in
/// column `x`: the bits `7 - x` of both bytes, the one of `high` on top.
pub open spec fn plane_value(high: u8, low: u8, x: int) -> u8 {
    (((high >> ((7 - x) as u8)) & 1) << 1) | ((low >> ((7 - x) as u8)) & 1)
}

/// A pixel value has two bits.
proof fn lemma_plane_value(high: u8, low: u8, shift: u8)
    by (bit_vector)
    requires
        shift <= 7,
    ensures
        ((((high >> shift) & 1) << 1) | ((low >> shift) & 1)) <= 3,
{
}

/// A palette number taken from an attribute byte has two bits.
proof fn lemma_two_bits(byte: u8)
    by (bit_vector)
    ensures
        byte & 3 <= 3,
{
}

impl PpuView {
    /// The unit can be rendered: it is well formed, and every palette entry
    /// names one of the 64 colors.
    pub open spec fn renderable(self) -> bool {
        &&& self.wf()
        &&& forall|i: int| 0 <= i < 32 ==> #[trigger] self.palette_table[i] < 64
    }

    /// The number of the background palette for the tile in `column` and
    /// `row`: two bits of the attribute byte that covers four by four tiles,
    /// one pair of bits for each two by two tiles in it.
    pub open spec fn attribute_palette(self, column: int, row: int) -> u8 {
        let attr_byte = self.vram[ATTRIBUTE_TABLE + row / 4 * 8 + column / 4];
        let right = column % 4 / 2 == 1;
        let lower = row % 4 / 2 == 1;
        if !right && !lower {
            attr_byte & 3
        } else if right && !lower {
            (attr_byte >> 2) & 3
        } else if !right && lower {
            (attr_byte >> 4) & 3
        } else {
            (attr_byte >> 6) & 3
        }
    }

    /// The four colors of the tile in `column` and `row`: the universal
    /// background color and the three of the tile's palette.
    pub open spec fn background_palette(self, column: int, row: int) -> Seq<u8> {
        let start = 1 + self.attribute_palette(column, row) * 4;
        seq![
            self.palette_table[0],
            self.palette_table[start],
            self.palette_table[start + 1],
            self.palette_table[start + 2],
        ]
    }

    /// The four colors of sprite palette `index`; the first stands for a
    /// transparent pixel and is never shown.
    pub open spec fn sprite_colors(self, index: u8) -> Seq<u8> {
        let start = 0x11 + index * 4;
        seq![
            0u8,
            self.palette_table[start],
            self.palette_table[start + 1],
            self.palette_table[start + 2],
        ]
    }

    /// Where the pattern of a tile starts in pattern memory.
    pub open spec fn pattern_start(self, bank_flag: u8, tile: u8) -> int {
        self.ctrl.pattern_base(bank_flag) + tile * 16
    }

    /// The color of the background at the pixel in column `x` of row `y`:
    /// the tile comes from the first nametable, the pixel value from the
    /// tile's pattern with the second plane on top, and value zero shows the
    /// universal background color.
    pub open spec fn background_color(self, x: int, y: int) -> u8 {
        let column = x / 8;
        let row = y / 8;
        let start = self.pattern_start(0x10, self.vram[row * 32 + column]);
        let value = plane_value(
            self.chr_rom[start + y % 8 + 8],
            self.chr_rom[start + y % 8],
            x % 8,
        );
        self.background_palette(column, row)[value as int]
    }

    /// The pixel of sprite `i` that lands on pixel number `p` of the
    /// picture, as column and row inside the sprite's pattern. The sprite's
    /// eight by eight pixels start at its position and are mirrored as its
    /// attributes say; pixels beyond the end of a row run on into the next.
    pub open spec fn sprite_hit(self, i: int, p: int) -> Option<(int, int)> {
        let attributes = self.oam_data[4 * i + 2];
        let offset = p - (self.oam_data[4 * i] * 256 + self.oam_data[4 * i + 3]);
        if 0 <= offset && offset % 256 < 8 && offset / 256 < 8 {
            Some(
                (
                    if (attributes >> 6) & 1 == 1 {
                        7 - offset % 256
                    } else {
                        offset % 256
                    },
                    if (attributes >> 7) & 1 == 1 {
                        7 - offset / 256
                    } else {
                        offset / 256
                    },
                ),
            )
        } else {
            None
        }
    }

    /// The value of the pixel in column `x` of row `y` of sprite `i`: from
    /// its pattern, with the first plane on top.
    pub open spec fn sprite_value(self, i: int, x: int, y: int) -> u8 {
        let start = self.pattern_start(0x08, self.oam_data[4 * i + 1]);
        plane_value(self.chr_rom[start + y], self.chr_rom[start + y + 8], x)
    }

    /// The color that sprite `i` gives to the pixel in column `x` of row `y`
    /// of its pattern.
    pub open spec fn sprite_pixel_color(self, i: int, x: int, y: int) -> u8 {
        self.sprite_colors(self.oam_data[4 * i + 2] & 3)[self.sprite_value(i, x, y) as int]
    }

    /// The color that sprite `i` shows at pixel number `p` of the picture,
    /// if it covers that pixel and is not transparent there.
    pub open spec fn sprite_color(self, i: int, p: int) -> Option<u8> {
        match self.sprite_hit(i, p) {
            Some((x, y)) => if self.sprite_value(i, x, y) == 0 {
                None
            } else {
                Some(self.sprite_pixel_color(i, x, y))
            },
            None => None,
        }
    }

    /// The color of the first sprite from number `from` on that shows at
    /// pixel number `p`.
    pub open spec fn sprite_on_top(self, p: int, from: int) -> Option<u8>
        decreases SPRITES - from,
    {
        if from >= SPRITES {
            None
        } else {
            match self.sprite_color(from, p) {
                Some(color) => Some(color),
                None => self.sprite_on_top(p, from + 1),
            }
        }
    }

    /// The color of pixel number `p` of the picture: that of the sprite with
    /// the lowest number that shows there, else the background's.
    pub open spec fn pixel_color(self, p: int) -> u8 {
        match self.sprite_on_top(p, 0) {
            Some(color) => color,
            None => self.background_color(p % 256, p / 256),
        }
    }

    /// The picture that the unit stands for.
    pub open spec fn rendered(self) -> Seq<u8> {
        Seq::new(
            FRAME_BYTES as nat,
            |k: int| channel(SYSTEM_PALETTE[self.pixel_color(k / 3) as int], k % 3),
        )
    }
}

impl Ppu {
    /// Tells whether the unit can be rendered.
    pub fn renderable(&self) -> (r: bool)
        ensures
            r == self@.renderable(),
    {
        if !self.well_formed() {
            return false;
        }
        let mut i: usize = 0;
        while i < 32
            invariant
                i <= 32,
                self.wf(),
                forall|k: int| 0 <= k < i ==> #[trigger] self@.palette_table[k] < 64,
            decreases 32 - i,
        {
            if self.palette_table[i] >= 64 {
                return false;
            }
            i += 1;
        }
        true
    }
}

/// The four colors of the background tile in `tile_column` and `tile_row`.
pub fn bg_pallette(ppu: &Ppu, tile_column: usize, tile_row: usize) -> (palette: [u8; 4])
    requires
        ppu.wf(),
        tile_column < TILE_COLUMNS,
        tile_row < TILE_ROWS,
    ensures
        palette@ == ppu@.background_palette(tile_column as int, tile_row as int),
        ppu@.renderable() ==> forall|j: int| 0 <= j < 4 ==> #[trigger] palette@[j] < 64,
{
    let attr_table_idx = tile_row / 4 * 8 + tile_column / 4;
    let attr_byte = ppu.vram[ATTRIBUTE_TABLE + attr_table_idx];
    let right = tile_column % 4 / 2 == 1;
    let lower = tile_row % 4 / 2 == 1;
    let pallet_idx: u8 = if !right && !lower {
        attr_byte & 3
    } else if right && !lower {
        (attr_byte >> 2) & 3
    } else if !right && lower {
        (attr_byte >> 4) & 3
    } else {
        (attr_byte >> 6) & 3
    };
    proof {
        lemma_two_bits(attr_byte);
        lemma_two_bits(attr_byte >> 2);
        lemma_two_bits(attr_byte >> 4);
        lemma_two_bits(attr_byte >> 6);
    }
    let pallete_start: usize = 1 + (pallet_idx as usize) * 4;
    let palette = [
        ppu.palette_table[0],
        ppu.palette_table[pallete_start],
        ppu.palette_table[pallete_start + 1],
        ppu.palette_table[pallete_start + 2],
    ];
    assert(palette@ =~= ppu@.background_palette(tile_column as int, tile_row as int));
    palette
}

/// The four colors of sprite palette `pallete_idx`.
pub fn sprite_palette(ppu: &Ppu, pallete_idx: u8) -> (palette: [u8; 4])
    requires
        ppu.wf(),
        pallete_idx <= 3,
    ensures
        palette@ == ppu@.sprite_colors(pallete_idx),
        ppu@.renderable() ==> forall|j: int| 0 <= j < 4 ==> #[trigger] palette@[j] < 64,
{
    let start: usize = 0x11 + (pallete_idx * 4) as usize;
    let palette = [
        0,
        ppu.palette_table[start],
        ppu.palette_table[start + 1],
        ppu.palette_table[start + 2],
    ];
    assert(palette@ =~= ppu@.sprite_colors(pallete_idx));
    palette
}

/// The color of the background at pixel number `p`.
spec fn background_rgb(ppu: PpuView, p: int) -> (u8, u8, u8) {
    SYSTEM_PALETTE[ppu.background_color(p % 256, p / 256) as int]
}

/// The number of the tile that covers pixel number `p`.
spec fn tile_number(p: int) -> int {
    p / 256 / 8 * 32 + p % 256 / 8
}

/// Pixel number `p` lies in row `y` of tile `i`, in a column from `from` on.
spec fn in_tile_row(p: int, i: int, y: int, from: int) -> bool {
    tile_number(p) == i && p / 256 % 8 == y && p % 256 % 8 >= from
}

/// The number of the pixel in column `x` of row `y` of tile `i`.
spec fn tile_pixel(i: int, x: int, y: int) -> int {
    (i / 32 * 8 + y) * 256 + i % 32 * 8 + x
}

/// The background as far as row `y` of tile `i` is drawn from column
/// `from` on: those pixels of `data` show the background, the others are
/// those of `canvas`.
spec fn tile_row_drawn(
    ppu: PpuView,
    canvas: Seq<u8>,
    data: Seq<u8>,
    i: int,
    y: int,
    from: int,
) -> bool {
    &&& data.len() == FRAME_BYTES
    &&& forall|p: int|
        0 <= p < PIXELS ==> #[trigger] pixel_of(data, p) == (if in_tile_row(p, i, y, from) {
            background_rgb(ppu, p)
        } else {
            pixel_of(canvas, p)
        })
}

/// A pixel of a tile is the only pixel of the picture with its tile, row and column.
proof fn lemma_tile_pixel(i: int, x: int, y: int)
    requires
        0 <= i < TILE_COLUMNS * TILE_ROWS,
        0 <= x < 8,
        0 <= y < 8,
    ensures
        0 <= tile_pixel(i, x, y) < PIXELS,
        tile_pixel(i, x, y) % 256 == i % 32 * 8 + x,
        tile_pixel(i, x, y) / 256 == i / 32 * 8 + y,
        (i % 32 * 8 + x) / 8 == i % 32,
        (i % 32 * 8 + x) % 8 == x,
        (i / 32 * 8 + y) / 8 == i / 32,
        (i / 32 * 8 + y) % 8 == y,
        forall|p: int|
            0 <= p < PIXELS ==> (in_tile_row(p, i, y, x) && p % 256 % 8 == x) == (p == tile_pixel(
                i,
                x,
                y,
            )),
{
    let spot = tile_pixel(i, x, y);
    assert(spot % 256 == i % 32 * 8 + x);
    assert(spot / 256 == i / 32 * 8 + y);
    assert forall|p: int| 0 <= p < PIXELS implies (in_tile_row(p, i, y, x) && p % 256 % 8 == x)
        == (p == spot) by {
        if in_tile_row(p, i, y, x) && p % 256 % 8 == x {
            let row = p / 256;
            let column = p % 256;
            assert(row / 8 * 32 + column / 8 == i);
            assert(column / 8 < 32);
            assert(row / 8 == i / 32);
            assert(column / 8 == i % 32);
            assert(row == row / 8 * 8 + row % 8);
            assert(column == column / 8 * 8 + column % 8);
            assert(p == row * 256 + column);
        }
    }
}

/// Drawing the next pixel of a tile row moves the drawn part one column on.
proof fn lemma_draw_tile_pixel(
    ppu: PpuView,
    canvas: Seq<u8>,
    before: Seq<u8>,
    after: Seq<u8>,
    i: int,
    y: int,
    x: int,
    rgb: (u8, u8, u8),
)
    requires
        0 <= i < TILE_COLUMNS * TILE_ROWS,
        0 <= x < 8,
        0 <= y < 8,
        tile_row_drawn(ppu, canvas, before, i, y, x + 1),
        after == frame::plot(before, i % 32 * 8 + x, i / 32 * 8 + y, rgb),
        rgb == background_rgb(ppu, tile_pixel(i, x, y)),
    ensures
        tile_row_drawn(ppu, canvas, after, i, y, x),
{
    lemma_tile_pixel(i, x, y);
    lemma_plot_pixels(before, i % 32 * 8 + x, i / 32 * 8 + y, rgb);
    let spot = tile_pixel(i, x, y);
    assert forall|p: int| 0 <= p < PIXELS implies #[trigger] pixel_of(after, p) == (
    if in_tile_row(p, i, y, x) {
        background_rgb(ppu, p)
    } else {
        pixel_of(canvas, p)
    }) by {
        assert(pixel_of(before, p) == (if in_tile_row(p, i, y, x + 1) {
            background_rgb(ppu, p)
        } else {
            pixel_of(canvas, p)
        }));
        assert((in_tile_row(p, i, y, x) && p % 256 % 8 == x) == (p == spot));
    }
}

/// The color of the background in column `x` of row `y` of tile `i`, by
/// the tile's pattern and palette.
proof fn lemma_background_color(ppu: PpuView, i: int, x: int, y: int)
    requires
        0 <= i < TILE_COLUMNS * TILE_ROWS,
        0 <= x < 8,
        0 <= y < 8,
    ensures
        ppu.background_color(i % 32 * 8 + x, i / 32 * 8 + y) == ppu.background_palette(
            i % 32,
            i / 32,
        )[plane_value(
            ppu.chr_rom[ppu.pattern_start(0x10, ppu.vram[i]) + y + 8],
            ppu.chr_rom[ppu.pattern_start(0x10, ppu.vram[i]) + y],
            x,
        ) as int],
{
    lemma_tile_pixel(i, x, y);
    assert(i / 32 * 32 + i % 32 == i);
}

/// Draws row `y` of background tile `i`, whose pattern starts at `start`
/// and whose colors are `palette`.
fn draw_tile_row(
    ppu: &Ppu,
    frame: &mut Frame,
    i: usize,
    y: usize,
    start: usize,
    palette: &[u8; 4],
)
    requires
        ppu@.renderable(),
        old(frame).wf(),
        i < TILE_COLUMNS * TILE_ROWS,
        y < 8,
        start == ppu@.pattern_start(0x10, ppu@.vram[i as int]),
        palette@ == ppu@.background_palette(i as int % 32, i as int / 32),
        forall|j: int| 0 <= j < 4 ==> #[trigger] palette@[j] < 64,
    ensures
        tile_row_drawn(ppu@, old(frame)@, final(frame)@, i as int, y as int, 0),
{
    let tile_x = i % 32;
    let tile_y = i / 32;
    let upper = ppu.chr_rom[start + y];
    let lower = ppu.chr_rom[start + y + 8];
    let mut k: usize = 0;
    while k < 8
        invariant
            k <= 8,
            i < TILE_COLUMNS * TILE_ROWS,
            y < 8,
            tile_x == i % 32,
            tile_y == i / 32,
            upper == ppu@.chr_rom[ppu@.pattern_start(0x10, ppu@.vram[i as int]) + y],
            lower == ppu@.chr_rom[ppu@.pattern_start(0x10, ppu@.vram[i as int]) + y + 8],
            palette@ == ppu@.background_palette(i as int % 32, i as int / 32),
            forall|j: int| 0 <= j < 4 ==> #[trigger] palette@[j] < 64,
            tile_row_drawn(ppu@, old(frame)@, frame@, i as int, y as int, 8 - k),
        decreases 8 - k,
    {
        let x = 7 - k;
        let shift: u8 = k as u8;
        let value: u8 = (((lower >> shift) & 1) << 1) | ((upper >> shift) & 1);
        proof {
            lemma_plane_value(lower, upper, shift);
        }
        let color = palette[value as usize];
        let rgb = SYSTEM_PALETTE[color as usize];
        let ghost before = frame@;
        frame.set_pixel(tile_x * 8 + x, tile_y * 8 + y, rgb);
        proof {
            lemma_background_color(ppu@, i as int, x as int, y as int);
            lemma_tile_pixel(i as int, x as int, y as int);
            lemma_draw_tile_pixel(
                ppu@,
                old(frame)@,
                before,
                frame@,
                i as int,
                y as int,
                x as int,
                rgb,
            );
        }
        k += 1;
    }
}

/// Draws background tile `i`.
fn draw_tile(ppu: &Ppu, frame: &mut Frame, i: usize)
    requires
        ppu@.renderable(),
        old(frame).wf(),
        i < TILE_COLUMNS * TILE_ROWS,
    ensures
        final(frame).wf(),
        forall|p: int|
            0 <= p < PIXELS ==> #[trigger] pixel_of(final(frame)@, p) == (if tile_number(p) == i {
                background_rgb(ppu@, p)
            } else {
                pixel_of(old(frame)@, p)
            }),
{
    let bank = ppu.ctrl.background_pattern_addr();
    let tile = ppu.vram[i];
    let start = bank as usize + tile as usize * 16;
    let palette = bg_pallette(ppu, i % 32, i / 32);
    let mut y: usize = 0;
    while y < 8
        invariant
            y <= 8,
            ppu@.renderable(),
            frame.wf(),
            i < TILE_COLUMNS * TILE_ROWS,
            start == ppu@.pattern_start(0x10, ppu@.vram[i as int]),
            palette@ == ppu@.background_palette(i as int % 32, i as int / 32),
            forall|j: int| 0 <= j < 4 ==> #[trigger] palette@[j] < 64,
            forall|p: int|
                0 <= p < PIXELS ==> #[trigger] pixel_of(frame@, p) == (if tile_number(p) == i && p
                    / 256 % 8 < y {
                    background_rgb(ppu@, p)
                } else {
                    pixel_of(old(frame)@, p)
                }),
        decreases 8 - y,
    {
        let ghost before = frame@;
        draw_tile_row(ppu, frame, i, y, start, &palette);
        proof {
            assert forall|p: int| 0 <= p < PIXELS implies #[trigger] pixel_of(frame@, p) == (
            if tile_number(p) == i && p / 256 % 8 < y + 1 {
                background_rgb(ppu@, p)
            } else {
                pixel_of(old(frame)@, p)
            }) by {
                assert(pixel_of(frame@, p) == (if in_tile_row(p, i as int, y as int, 0) {
                    background_rgb(ppu@, p)
                } else {
                    pixel_of(before, p)
                }));
                assert(pixel_of(before, p) == (if tile_number(p) == i && p / 256 % 8 < y {
                    background_rgb(ppu@, p)
                } else {
                    pixel_of(old(frame)@, p)
                }));
            }
        }
        y += 1;
    }
}

/// Draws the background: the 960 tiles of the first nametable.
fn draw_background(ppu: &Ppu, frame: &mut Frame)
    requires
        ppu@.renderable(),
        old(frame).wf(),
    ensures
        final(frame).wf(),
        forall|p: int|
            0 <= p < PIXELS ==> #[trigger] pixel_of(final(frame)@, p) == background_rgb(ppu@, p),
{
    let mut i: usize = 0;
    while i < TILE_COLUMNS * TILE_ROWS
        invariant
            i <= TILE_COLUMNS * TILE_ROWS,
            ppu@.renderable(),
            frame.wf(),
            forall|p: int|
                0 <= p < PIXELS ==> #[trigger] pixel_of(frame@, p) == (if tile_number(p) < i {
                    background_rgb(ppu@, p)
                } else {
                    pixel_of(old(frame)@, p)
                }),
        decreases TILE_COLUMNS * TILE_ROWS - i,
    {
        let ghost before = frame@;
        draw_tile(ppu, frame, i);
        proof {
            assert forall|p: int| 0 <= p < PIXELS implies #[trigger] pixel_of(frame@, p) == (
            if tile_number(p) < i + 1 {
                background_rgb(ppu@, p)
            } else {
                pixel_of(old(frame)@, p)
            }) by {
                assert(pixel_of(frame@, p) == (if tile_number(p) == i {
                    background_rgb(ppu@, p)
                } else {
                    pixel_of(before, p)
                }));
                assert(pixel_of(before, p) == (if tile_number(p) < i {
                    background_rgb(ppu@, p)
                } else {
                    pixel_of(old(frame)@, p)
                }));
            }
        }
        i += 1;
    }
    proof {
        assert forall|p: int| 0 <= p < PIXELS implies #[trigger] pixel_of(frame@, p)
            == background_rgb(ppu@, p) by {
            assert(pixel_of(frame@, p) == (if tile_number(p) < i {
                background_rgb(ppu@, p)
            } else {
                pixel_of(old(frame)@, p)
            }));
            assert(p / 256 / 8 < 30);
            assert(p % 256 / 8 < 32);
        }
    }
}

/// Sprite `i` shows at pixel number `p` with a pixel of its pattern that
/// lies in a row before `y`, or in row `y` in a column from `from` on.
spec fn sprite_drawn(ppu: PpuView, i: int, p: int, y: int, from: int) -> bool {
    match ppu.sprite_hit(i, p) {
        Some((hx, hy)) => (hy < y || (hy == y && hx >= from)) && ppu.sprite_value(i, hx, hy) != 0,
        None => false,
    }
}

/// The color that sprite `i` shows at pixel number `p`, which it covers.
spec fn sprite_rgb(ppu: PpuView, i: int, p: int) -> (u8, u8, u8) {
    let hit = ppu.sprite_hit(i, p)->0;
    SYSTEM_PALETTE[ppu.sprite_pixel_color(i, hit.0, hit.1) as int]
}

/// Sprite `i` as far as it is drawn up to row `y` from column `from` on:
/// where it shows, `data` has its color, elsewhere the pixels of `canvas`.
spec fn sprite_rows_drawn(
    ppu: PpuView,
    canvas: Seq<u8>,
    data: Seq<u8>,
    i: int,
    y: int,
    from: int,
) -> bool {
    &&& data.len() == FRAME_BYTES
    &&& forall|p: int|
        0 <= p < PIXELS ==> #[trigger] pixel_of(data, p) == (if sprite_drawn(ppu, i, p, y, from) {
            sprite_rgb(ppu, i, p)
        } else {
            pixel_of(canvas, p)
        })
}

/// Column in the picture of column `x` of the pattern of sprite `i`.
spec fn sprite_column(ppu: PpuView, i: int, x: int) -> int {
    ppu.oam_data[4 * i + 3] + (if (ppu.oam_data[4 * i + 2] >> 6) & 1 == 1 {
        7 - x
    } else {
        x
    })
}

/// Row in the picture of row `y` of the pattern of sprite `i`.
spec fn sprite_row(ppu: PpuView, i: int, y: int) -> int {
    ppu.oam_data[4 * i] + (if (ppu.oam_data[4 * i + 2] >> 7) & 1 == 1 {
        7 - y
    } else {
        y
    })
}

/// A pixel of a sprite's pattern lands on one pixel of the picture, and no
/// other pixel of the pattern lands there.
proof fn lemma_sprite_pixel(ppu: PpuView, i: int, x: int, y: int)
    requires
        0 <= x < 8,
        0 <= y < 8,
    ensures
        forall|p: int|
            0 <= p < PIXELS ==> (ppu.sprite_hit(i, p) == Some((x, y))) == (p == sprite_row(
                ppu,
                i,
                y,
            ) * 256 + sprite_column(ppu, i, x)),
{
    let spot = sprite_row(ppu, i, y) * 256 + sprite_column(ppu, i, x);
    let origin = ppu.oam_data[4 * i] * 256 + ppu.oam_data[4 * i + 3];
    let fx = sprite_column(ppu, i, x) - ppu.oam_data[4 * i + 3];
    let fy = sprite_row(ppu, i, y) - ppu.oam_data[4 * i];
    assert(spot - origin == fy * 256 + fx);
    assert((fy * 256 + fx) % 256 == fx);
    assert((fy * 256 + fx) / 256 == fy);
    assert forall|p: int| 0 <= p < PIXELS implies (ppu.sprite_hit(i, p) == Some((x, y))) == (p
        == spot) by {
        let offset = p - origin;
        if ppu.sprite_hit(i, p) == Some((x, y)) {
            assert(offset % 256 == fx);
            assert(offset / 256 == fy);
            assert(offset == offset / 256 * 256 + offset % 256);
        }
    }
}

/// Drawing the next pixel of a sprite row moves the drawn part one column on.
proof fn lemma_draw_sprite_pixel(
    ppu: PpuView,
    canvas: Seq<u8>,
    before: Seq<u8>,
    after: Seq<u8>,
    i: int,
    y: int,
    x: int,
)
    requires
        0 <= x < 8,
        0 <= y < 8,
        sprite_rows_drawn(ppu, canvas, before, i, y, x + 1),
        after == (if ppu.sprite_value(i, x, y) != 0 {
            frame::plot(
                before,
                sprite_column(ppu, i, x),
                sprite_row(ppu, i, y),
                SYSTEM_PALETTE[ppu.sprite_pixel_color(i, x, y) as int],
            )
        } else {
            before
        }),
    ensures
        sprite_rows_drawn(ppu, canvas, after, i, y, x),
{
    lemma_sprite_pixel(ppu, i, x, y);
    let rgb = SYSTEM_PALETTE[ppu.sprite_pixel_color(i, x, y) as int];
    let spot = sprite_row(ppu, i, y) * 256 + sprite_column(ppu, i, x);
    lemma_plot_pixels(before, sprite_column(ppu, i, x), sprite_row(ppu, i, y), rgb);
    assert forall|p: int| 0 <= p < PIXELS implies #[trigger] pixel_of(after, p) == (
    if sprite_drawn(ppu, i, p, y, x) {
        sprite_rgb(ppu, i, p)
    } else {
        pixel_of(canvas, p)
    }) by {
        assert(pixel_of(before, p) == (if sprite_drawn(ppu, i, p, y, x + 1) {
            sprite_rgb(ppu, i, p)
        } else {
            pixel_of(canvas, p)
        }));
        assert((ppu.sprite_hit(i, p) == Some((x, y))) == (p == spot));
    }
}

/// Draws row `y` of the pattern of sprite `i`.
fn draw_sprite_row(ppu: &Ppu, frame: &mut Frame, i: usize, y: usize, Ghost(canvas): Ghost<Seq<u8>>)
    requires
        ppu@.renderable(),
        i < SPRITES,
        y < 8,
        sprite_rows_drawn(ppu@, canvas, old(frame)@, i as int, y as int, 8),
    ensures
        sprite_rows_drawn(ppu@, canvas, final(frame)@, i as int, y as int, 0),
{
    let tile_y = ppu.oam_data[4 * i] as usize;
    let tile_idx = ppu.oam_data[4 * i + 1];
    let attributes = ppu.oam_data[4 * i + 2];
    let tile_x = ppu.oam_data[4 * i + 3] as usize;
    let flip_vertical = (attributes >> 7) & 1 == 1;
    let flip_horizontal = (attributes >> 6) & 1 == 1;
    proof {
        lemma_two_bits(attributes);
    }
    let palette = sprite_palette(ppu, attributes & 3);
    let bank = ppu.ctrl.sprite_pattern_addr();
    let start = bank as usize + tile_idx as usize * 16;
    let upper = ppu.chr_rom[start + y];
    let lower = ppu.chr_rom[start + y + 8];
    let mut k: usize = 0;
    while k < 8
        invariant
            k <= 8,
            i < SPRITES,
            y < 8,
            tile_y == ppu@.oam_data[4 * i],
            tile_x == ppu@.oam_data[4 * i + 3],
            attributes == ppu@.oam_data[4 * i + 2],
            flip_vertical == ((attributes >> 7) & 1 == 1),
            flip_horizontal == ((attributes >> 6) & 1 == 1),
            palette@ == ppu@.sprite_colors(attributes & 3),
            forall|j: int| 0 <= j < 4 ==> #[trigger] palette@[j] < 64,
            upper == ppu@.chr_rom[ppu@.pattern_start(0x08, ppu@.oam_data[4 * i + 1]) + y],
            lower == ppu@.chr_rom[ppu@.pattern_start(0x08, ppu@.oam_data[4 * i + 1]) + y + 8],
            sprite_rows_drawn(ppu@, canvas, frame@, i as int, y as int, 8 - k),
        decreases 8 - k,
    {
        let x = 7 - k;
        let shift: u8 = k as u8;
        let value: u8 = (((upper >> shift) & 1) << 1) | ((lower >> shift) & 1);
        proof {
            lemma_plane_value(upper, lower, shift);
        }
        let ghost before = frame@;
        if value != 0 {
            let color = palette[value as usize];
            let column = if flip_horizontal {
                tile_x + 7 - x
            } else {
                tile_x + x
            };
            let row = if flip_vertical {
                tile_y + 7 - y
            } else {
                tile_y + y
            };
            frame.set_pixel(column, row, SYSTEM_PALETTE[color as usize]);
        }
        proof {
            lemma_draw_sprite_pixel(ppu@, canvas, before, frame@, i as int, y as int, x as int);
        }
        k += 1;
    }
}

/// Draws sprite `i`.
fn draw_sprite(ppu: &Ppu, frame: &mut Frame, i: usize)
    requires
        ppu@.renderable(),
        old(frame).wf(),
        i < SPRITES,
    ensures
        final(frame).wf(),
        forall|p: int|
            0 <= p < PIXELS ==> #[trigger] pixel_of(final(frame)@, p) == (match ppu@.sprite_color(
                i as int,
                p,
            ) {
                Some(color) => SYSTEM_PALETTE[color as int],
                None => pixel_of(old(frame)@, p),
            }),
{
    let ghost canvas = frame@;
    let mut y: usize = 0;
    while y < 8
        invariant
            y <= 8,
            ppu@.renderable(),
            i < SPRITES,
            sprite_rows_drawn(ppu@, canvas, frame@, i as int, y as int, 8),
        decreases 8 - y,
    {
        draw_sprite_row(ppu, frame, i, y, Ghost(canvas));
        proof {
            assert forall|p: int| 0 <= p < PIXELS implies sprite_drawn(
                ppu@,
                i as int,
                p,
                y as int,
                0,
            ) == sprite_drawn(ppu@, i as int, p, y + 1, 8) by {}
        }
        y += 1;
    }
    proof {
        assert forall|p: int| 0 <= p < PIXELS implies #[trigger] pixel_of(frame@, p) == (
        match ppu@.sprite_color(i as int, p) {
            Some(color) => SYSTEM_PALETTE[color as int],
            None => pixel_of(canvas, p),
        }) by {
            assert(pixel_of(frame@, p) == (if sprite_drawn(ppu@, i as int, p, 8, 8) {
                sprite_rgb(ppu@, i as int, p)
            } else {
                pixel_of(canvas, p)
            }));
        }
    }
}

/// Draws the sprites, the last one first, so that the first one ends on top.
fn draw_sprites(ppu: &Ppu, frame: &mut Frame)
    requires
        ppu@.renderable(),
        old(frame).wf(),
    ensures
        final(frame).wf(),
        forall|p: int|
            0 <= p < PIXELS ==> #[trigger] pixel_of(final(frame)@, p) == (match ppu@.sprite_on_top(
                p,
                0,
            ) {
                Some(color) => SYSTEM_PALETTE[color as int],
                None => pixel_of(old(frame)@, p),
            }),
{
    let mut n: usize = SPRITES;
    while n > 0
        invariant
            n <= SPRITES,
            ppu@.renderable(),
            frame.wf(),
            forall|p: int|
                0 <= p < PIXELS ==> #[trigger] pixel_of(frame@, p) == (match ppu@.sprite_on_top(
                    p,
                    n as int,
                ) {
                    Some(color) => SYSTEM_PALETTE[color as int],
                    None => pixel_of(old(frame)@, p),
                }),
        decreases n,
    {
        let ghost before = frame@;
        n -= 1;
        draw_sprite(ppu, frame, n);
        proof {
            assert forall|p: int| 0 <= p < PIXELS implies #[trigger] pixel_of(frame@, p) == (
            match ppu@.sprite_on_top(p, n as int) {
                Some(color) => SYSTEM_PALETTE[color as int],
                None => pixel_of(old(frame)@, p),
            }) by {
                assert(pixel_of(frame@, p) == (match ppu@.sprite_color(n as int, p) {
                    Some(color) => SYSTEM_PALETTE[color as int],
                    None => pixel_of(before, p),
                }));
                assert(pixel_of(before, p) == (match ppu@.sprite_on_top(p, n + 1) {
                    Some(color) => SYSTEM_PALETTE[color as int],
                    None => pixel_of(old(frame)@, p),
                }));
            }
        }
    }
}

/// Renders the picture that the unit stands for.
pub fn render(ppu: &Ppu) -> (frame: Frame)
    requires
        ppu@.renderable(),
    ensures
        frame@ == ppu@.rendered(),
{
    let mut frame = Frame::default();
    draw_background(ppu, &mut frame);
    let ghost background = frame@;
    draw_sprites(ppu, &mut frame);
    proof {
        assert forall|k: int| 0 <= k < FRAME_BYTES implies frame@[k] == ppu@.rendered()[k] by {
            let p = k / 3;
            assert(pixel_of(frame@, p) == (match ppu@.sprite_on_top(p, 0) {
                Some(color) => SYSTEM_PALETTE[color as int],
                None => pixel_of(background, p),
            }));
            assert(pixel_of(background, p) == background_rgb(ppu@, p));
        }
        assert(frame@ =~= ppu@.rendered());
    }
    frame
}

} // verus!
