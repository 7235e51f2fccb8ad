//! Copying the frame the user interface draws, four bytes per pixel (red, green, blue,
//! alpha), into the window's buffer of 32-bit pixels, scaled up by a whole factor.
use vstd::prelude::*;

verus! {

/// The window pixel of a color: blue in the lowest byte, then green, then red.
pub open spec fn packed_pixel(r: u8, g: u8, b: u8) -> u32 {
    (b + 256 * g + 65536 * r) as u32
}

/// The window pixel of the `k`-th pixel of the frame.
pub open spec fn frame_pixel(frame: Seq<u8>, k: int) -> u32 {
    packed_pixel(frame[4 * k], frame[4 * k + 1], frame[4 * k + 2])
}

/// The window pixel at index `i` of the buffer when a frame of width `w` is scaled by `s`:
/// the frame pixel it is scaled from.
pub open spec fn scaled_pixel(frame: Seq<u8>, w: int, s: int, i: int) -> u32 {
    let dw = w * s;
    frame_pixel(frame, ((i / dw) / s) * w + (i % dw) / s)
}

fn pack(r: u8, g: u8, b: u8) -> (c: u32)
    ensures
        c == packed_pixel(r, g, b),
{
    let c = (b as u32) | ((g as u32) << 8) | ((r as u32) << 16);
    assert(c == b as int + 256 * g as int + 65536 * r as int) by (bit_vector)
        requires
            c == (b as u32) | ((g as u32) << 8) | ((r as u32) << 16),
    ;
    c
}

/// `i` lies in row `i / a` of rows of `a`, and before row `b` when `i < a * b`.
proof fn lemma_div_below(i: int, a: int, b: int)
    requires
        0 <= i < a * b,
        0 < a,
    ensures
        0 <= i / a < b,
        0 <= i % a < a,
{
    vstd::arithmetic::div_mod::lemma_fundamental_div_mod(i, a);
    vstd::arithmetic::div_mod::lemma_mod_pos_bound(i, a);
    let q = i / a;
    let r = i % a;
    assert(0 <= q < b) by (nonlinear_arith)
        requires
            i == a * q + r,
            0 <= r < a,
            0 <= i < a * b,
            0 < a,
    ;
}

/// Copies `ui_frame` (`width` by `height` pixels of four bytes) into `dest`, each pixel
/// becoming a square of `scale_factor` by `scale_factor` window pixels. At scale 1 the
/// pixels are copied one for one as far as both buffers reach.
pub fn blit_rgba_into_softbuffer(
    ui_frame: &[u8],
    scale_factor: usize,
    width: usize,
    height: usize,
    dest: &mut [u32],
)
    requires
        width * scale_factor <= usize::MAX,
        height * scale_factor <= usize::MAX,
        (width * scale_factor) * (height * scale_factor) <= usize::MAX,
        old(dest)@.len() == (width * scale_factor) * (height * scale_factor),
        scale_factor != 1 ==> ui_frame@.len() >= width * height * 4,
    ensures
        final(dest)@.len() == old(dest)@.len(),
        scale_factor == 1 ==> forall|i: int|
            0 <= i < old(dest)@.len() ==> final(dest)@[i] == if i < ui_frame@.len() / 4 {
                frame_pixel(ui_frame@, i)
            } else {
                old(dest)@[i]
            },
        scale_factor != 1 ==> forall|i: int|
            0 <= i < old(dest)@.len() ==> final(dest)@[i] == scaled_pixel(
                ui_frame@,
                width as int,
                scale_factor as int,
                i,
            ),
{
    let dest_width = width * scale_factor;
    let dest_height = height * scale_factor;
    let n = dest.len();
    let frame_len = ui_frame.len();
    if scale_factor == 1 {
        let chunks = frame_len / 4;
        let m = if n < chunks { n } else { chunks };
        let mut i: usize = 0;
        while i < m
            invariant
                i <= m,
                m <= n,
                m <= ui_frame@.len() / 4,
                frame_len == ui_frame@.len(),
                n == dest@.len(),
                n == old(dest)@.len(),
                forall|j: int| 0 <= j < i ==> dest@[j] == frame_pixel(ui_frame@, j),
                forall|j: int| i <= j < n ==> dest@[j] == old(dest)@[j],
            decreases m - i,
        {
            proof {
                let len = ui_frame@.len() as int;
                vstd::arithmetic::div_mod::lemma_fundamental_div_mod(len, 4);
                assert(4 * i + 3 < len);
            }
            let o = 4 * i;
            dest[i] = pack(ui_frame[o], ui_frame[o + 1], ui_frame[o + 2]);
            i = i + 1;
        }
    } else {
        let mut i: usize = 0;
        while i < n
            invariant
                i <= n,
                n == dest@.len(),
                n == old(dest)@.len(),
                n == dest_width * dest_height,
                dest_width == width * scale_factor,
                dest_height == height * scale_factor,
                ui_frame@.len() >= width * height * 4,
                frame_len == ui_frame@.len(),
                forall|j: int|
                    0 <= j < i ==> dest@[j] == scaled_pixel(
                        ui_frame@,
                        width as int,
                        scale_factor as int,
                        j,
                    ),
            decreases n - i,
        {
            proof {
                assert(dest_width > 0) by (nonlinear_arith)
                    requires
                        i < n,
                        n == dest_width * dest_height,
                ;
                assert(scale_factor > 0) by (nonlinear_arith)
                    requires
                        dest_width == width * scale_factor,
                        dest_width > 0,
                ;
                lemma_div_below(i as int, dest_width as int, dest_height as int);
            }
            let row = i / dest_width;
            let col = i % dest_width;
            proof {
                assert(dest_height == scale_factor * height && dest_width == scale_factor * width)
                    by (nonlinear_arith)
                    requires
                        dest_width == width * scale_factor,
                        dest_height == height * scale_factor,
                ;
                lemma_div_below(row as int, scale_factor as int, height as int);
                lemma_div_below(col as int, scale_factor as int, width as int);
            }
            let y = row / scale_factor;
            let x = col / scale_factor;
            proof {
                assert(y * width + x < height * width) by (nonlinear_arith)
                    requires
                        y < height,
                        x < width,
                ;
                assert((y * width + x) * 4 + 2 < width * height * 4 && y * width <= y * width + x)
                    by (nonlinear_arith)
                    requires
                        y * width + x < height * width,
                        x >= 0,
                ;
                assert(width * height * 4 <= ui_frame@.len());

            }
            let k = y * width + x;
            let o = 4 * k;
            dest[i] = pack(ui_frame[o], ui_frame[o + 1], ui_frame[o + 2]);
            i = i + 1;
        }
    }
}

} // verus!
