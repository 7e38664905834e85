//! The picture: 256 by 240 pixels of three bytes, row by row.
use crate::bytes::zeroed;
use vstd::prelude::*;

verus! {

/// Pixels in a row.
pub const WIDTH: usize = 256;

/// Rows in the picture.
pub const HEIGHT: usize = 240;

/// Pixels in the picture.
pub const PIXELS: usize = 61440;

/// Bytes in the picture.
pub const FRAME_BYTES: usize = 184320;

/// A rendered picture: red, green and blue of every pixel, row-major.
pub struct Frame {
    pub data: Vec<u8>,
}

impl View for Frame {
    type V = Seq<u8>;

    open spec fn view(&self) -> Seq<u8> {
        self.data@
    }
}

/// Where the three bytes of the pixel in column `x` of row `y` start.
pub open spec fn pixel_offset(x: int, y: int) -> int {
    y * 3 * WIDTH + x * 3
}

/// The color of pixel number `p`, counted row by row.
pub open spec fn pixel_of(data: Seq<u8>, p: int) -> (u8, u8, u8) {
    (data[3 * p], data[3 * p + 1], data[3 * p + 2])
}

/// The picture after a pixel was set: its three bytes are replaced if all
/// three lie inside the picture, else nothing changes. A column beyond the
/// end of a row runs on into the next row.
pub open spec fn plot(data: Seq<u8>, x: int, y: int, rgb: (u8, u8, u8)) -> Seq<u8> {
    let base = pixel_offset(x, y);
    if base + 2 < data.len() {
        data.update(base, rgb.0).update(base + 1, rgb.1).update(base + 2, rgb.2)
    } else {
        data
    }
}

/// Setting a pixel of a whole picture changes that pixel, if it lies inside
/// the picture, and no other.
pub proof fn lemma_plot_pixels(data: Seq<u8>, x: int, y: int, rgb: (u8, u8, u8))
    requires
        data.len() == FRAME_BYTES,
        0 <= x,
        0 <= y,
    ensures
        plot(data, x, y, rgb).len() == FRAME_BYTES,
        forall|p: int|
            0 <= p < PIXELS ==> #[trigger] pixel_of(plot(data, x, y, rgb), p) == (if p == y * 256
                + x {
                rgb
            } else {
                pixel_of(data, p)
            }),
{
}

impl Frame {
    /// The picture has its full size.
    pub open spec fn wf(&self) -> bool {
        self.data@.len() == FRAME_BYTES
    }

    /// Sets the pixel in column `x` of row `y`.
    pub fn set_pixel(&mut self, x: usize, y: usize, rgb: (u8, u8, u8))
        ensures
            final(self)@ == plot(old(self)@, x as int, y as int, rgb),
    {
        let length = self.data.len();
        let row = match y.checked_mul(3 * WIDTH) {
            Some(row) => row,
            None => {
                return ;
            },
        };
        let column = match x.checked_mul(3) {
            Some(column) => column,
            None => {
                return ;
            },
        };
        let base = match row.checked_add(column) {
            Some(base) => base,
            None => {
                return ;
            },
        };
        if base < length && length - base > 2 {
            self.data[base] = rgb.0;
            self.data[base + 1] = rgb.1;
            self.data[base + 2] = rgb.2;
        }
    }
}

impl Default for Frame {
    fn default() -> (frame: Self)
        ensures
            frame@ == Seq::new(FRAME_BYTES as nat, |i: int| 0u8),
            frame.wf(),
    {
        Self { data: zeroed(FRAME_BYTES) }
    }
}

} // verus!
