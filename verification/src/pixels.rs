//! Pixel-buffer arithmetic: masking a capture to its inscribed circle, and the
//! sizes of the BGRA and clipboard DIB copies of a bitmap.

use vstd::prelude::*;
use vstd::arithmetic::div_mod::lemma_fundamental_div_mod_converse;

verus! {

/// The pixel at column `x`, row `y` of a `w` x `h` image lies outside the
/// largest circle inscribed in it. Measured from pixel centers: the pixel is
/// outside when `(x + 1/2 - w/2)^2 + (y + 1/2 - h/2)^2 > (min(w, h)/2)^2`,
/// here scaled by four to stay in whole numbers.
pub open spec fn outside_circle(x: int, y: int, w: int, h: int) -> bool {
    let d = if w <= h { w } else { h };
    (2 * x + 1 - w) * (2 * x + 1 - w) + (2 * y + 1 - h) * (2 * y + 1 - h) > d * d
}

/// Channel `c` (blue, green, red, alpha) of the pixel at `(x, y)` after
/// masking: outside the circle it becomes transparent black, or opaque white
/// (keeping alpha) when transparency is not wanted; inside it becomes opaque.
pub open spec fn masked_byte(old: u8, x: int, y: int, c: int, w: int, h: int, transparent: bool) -> u8 {
    if outside_circle(x, y, w, h) {
        if transparent {
            0
        } else if c < 3 {
            255
        } else {
            old
        }
    } else if c == 3 {
        255
    } else {
        old
    }
}

/// The BGRA rows `old` of a `w` x `h` image masked to its inscribed circle;
/// bytes past the image are unchanged.
pub open spec fn spec_circle_mask(old: Seq<u8>, w: int, h: int, transparent: bool) -> Seq<u8> {
    Seq::new(
        old.len(),
        |i: int|
            if 0 < w && 0 < h && i < w * h * 4 {
                masked_byte(old[i], (i / 4) % w, (i / 4) / w, i % 4, w, h, transparent)
            } else {
                old[i]
            },
    )
}

/// Masks the top-down BGRA `pixels` of a `width` x `height` image to the
/// largest circle inscribed in it. Outside pixels become transparent when
/// `transparent` is set and white otherwise; inside pixels become opaque.
pub fn apply_circle_mask(pixels: &mut [u8], width: i32, height: i32, transparent: bool)
    requires
        width > 0 && height > 0 ==> width * height * 4 <= old(pixels)@.len()
            && (width * height - 1) * 4 <= i32::MAX,
    ensures
        final(pixels)@ == spec_circle_mask(old(pixels)@, width as int, height as int, transparent),
{
    let ghost initial = pixels@;
    if width <= 0 || height <= 0 {
        assert(pixels@ =~= spec_circle_mask(initial, width as int, height as int, transparent));
        return;
    }
    let w = width as i64;
    let h = height as i64;
    assert(0 < w * h <= 0x2000_0000) by (nonlinear_arith)
        requires
            w > 0,
            h > 0,
            (w * h - 1) * 4 <= 0x7fff_ffff,
    ;
    assert(w <= w * h && h <= w * h) by (nonlinear_arith)
        requires
            w > 0,
            h > 0,
    ;
    let n = (w * h) as usize;
    let d = if w <= h { w } else { h };
    let mut p: usize = 0;
    let mut x: i64 = 0;
    let mut y: i64 = 0;
    while p < n
        invariant
            0 < w <= 0x2000_0000,
            0 < h <= 0x2000_0000,
            w == width,
            h == height,
            n == w * h,
            n <= 0x2000_0000,
            n * 4 <= initial.len(),
            d == if w <= h { w } else { h },
            p <= n,
            p == y * w + x,
            0 <= x < w,
            0 <= y,
            pixels@.len() == initial.len(),
            forall|i: int| 0 <= i < p * 4 ==> pixels@[i] == spec_circle_mask(initial, w as int, h as int, transparent)[i],
            forall|i: int| p * 4 <= i < pixels@.len() ==> pixels@[i] == initial[i],
        decreases n - p,
    {
        assert(y < h) by (nonlinear_arith)
            requires
                p == y * w + x,
                p < w * h,
                0 <= x,
                0 <= y,
                w > 0,
        ;
        let dx = 2 * x + 1 - w;
        let dy = 2 * y + 1 - h;
        assert(0 <= dx * dx <= 0x1000_0000_0000_0000 && 0 <= dy * dy <= 0x1000_0000_0000_0000
            && 0 <= d * d <= 0x1000_0000_0000_0000) by (nonlinear_arith)
            requires
                -0x4000_0000 <= dx <= 0x4000_0000,
                -0x4000_0000 <= dy <= 0x4000_0000,
                0 < d <= 0x2000_0000,
        ;
        let outside = dx * dx + dy * dy > d * d;
        let base = p * 4;
        if outside {
            if transparent {
                pixels[base] = 0;
                pixels[base + 1] = 0;
                pixels[base + 2] = 0;
                pixels[base + 3] = 0;
            } else {
                pixels[base] = 255;
                pixels[base + 1] = 255;
                pixels[base + 2] = 255;
            }
        } else {
            pixels[base + 3] = 255;
        }
        proof {
            let spec = spec_circle_mask(initial, w as int, h as int, transparent);
            lemma_fundamental_div_mod_converse(p as int, w as int, y as int, x as int);
            assert forall|i: int| 0 <= i < (p + 1) * 4 implies #[trigger] pixels@[i] == spec[i] by {
                if i >= p * 4 {
                    lemma_fundamental_div_mod_converse(i, 4, p as int, i - p * 4);
                    assert(i < w * h * 4);
                }
            }
        }
        p = p + 1;
        x = x + 1;
        if x == w {
            assert((y + 1) * w == y * w + w) by (nonlinear_arith);
            x = 0;
            y = y + 1;
        }
    }
    assert(pixels@ =~= spec_circle_mask(initial, w as int, h as int, transparent));
}

/// Masking keeps exactly the pixels whose centers lie within the largest
/// circle inscribed in the image: channel `c` of the pixel at column `x`, row
/// `y` is judged by the squared distance of the pixel center `(x + 1/2,
/// y + 1/2)` from the image center `(w/2, h/2)` against the squared radius
/// `(min(w, h)/2)^2`, all scaled by four. Inside, the colour is kept and the
/// pixel made opaque; outside, it becomes transparent black, or white with
/// its alpha kept when transparency is not wanted.
pub proof fn law_mask_keeps_the_inscribed_circle(
    old: Seq<u8>,
    w: int,
    h: int,
    transparent: bool,
    x: int,
    y: int,
    c: int,
)
    requires
        0 < w && 0 < h,
        0 <= x < w && 0 <= y < h && 0 <= c < 4,
        w * h * 4 <= old.len(),
    ensures
        ({
            let i = (y * w + x) * 4 + c;
            let radius2 = if w <= h { w * w } else { h * h };
            let dist2 = (2 * x + 1 - w) * (2 * x + 1 - w) + (2 * y + 1 - h) * (2 * y + 1 - h);
            let out = spec_circle_mask(old, w, h, transparent);
            &&& 0 <= i < old.len()
            &&& dist2 <= radius2 ==> out[i] == (if c == 3 { 255u8 } else { old[i] })
            &&& dist2 > radius2 && transparent ==> out[i] == 0
            &&& dist2 > radius2 && !transparent ==> out[i] == (if c < 3 { 255u8 } else { old[i] })
        }),
{
    let p = y * w + x;
    let i = p * 4 + c;
    assert(0 <= p < w * h) by (nonlinear_arith)
        requires
            0 <= x < w,
            0 <= y < h,
            p == y * w + x,
    ;
    lemma_fundamental_div_mod_converse(i, 4, p, c);
    lemma_fundamental_div_mod_converse(p, w, y, x);
}

/// Masking changes no byte past the image, nor any byte of an empty image,
/// and keeps the buffer's length.
pub proof fn law_mask_stays_within_the_image(old: Seq<u8>, w: int, h: int, transparent: bool, i: int)
    requires
        0 <= i < old.len(),
        w <= 0 || h <= 0 || w * h * 4 <= i,
    ensures
        spec_circle_mask(old, w, h, transparent).len() == old.len(),
        spec_circle_mask(old, w, h, transparent)[i] == old[i],
{
}

/// The number of bytes in `height` rows of `width` 32-bit pixels, or `None`
/// when a dimension is not positive or the size does not fit in `usize`.
pub fn bgra_byte_count(width: i32, height: i32) -> (r: Option<usize>)
    ensures
        match r {
            Some(n) => width > 0 && height > 0 && n == width * height * 4,
            None => width <= 0 || height <= 0 || width * height * 4 > usize::MAX,
        },
{
    if width <= 0 || height <= 0 {
        return None;
    }
    match (width as usize).checked_mul(height as usize) {
        Some(pixels) => match pixels.checked_mul(4) {
            Some(n) => Some(n),
            None => None,
        },
        None => {
            assert(width * height * 4 > usize::MAX) by (nonlinear_arith)
                requires
                    width * height > usize::MAX,
            ;
            None
        },
    }
}

/// Size in bytes of the header in front of DIB pixel data.
pub const DIB_HEADER_SIZE: usize = 40;

/// Row stride, image size and allocation size of a packed 24-bit DIB.
#[derive(Clone, Copy, Debug, PartialEq, Eq, Structural)]
pub struct DibLayout {
    pub stride: usize,
    pub image_size: u32,
    pub allocation_size: usize,
}

/// Rows of 24-bit pixels padded to whole 32-bit words.
pub open spec fn dib_stride(width: int) -> int {
    ((width * 24 + 31) / 32) * 4
}

/// A DIB row holds the row's three bytes per pixel, padded with fewer than
/// four bytes to a whole number of 32-bit words.
pub proof fn law_dib_rows_are_padded_words(width: int)
    requires
        width > 0,
    ensures
        dib_stride(width) % 4 == 0,
        3 * width <= dib_stride(width) < 3 * width + 4,
{
    let q = (width * 24 + 31) / 32;
    let r = (width * 24 + 31) % 32;
    assert(width * 24 + 31 == 32 * q + r && 0 <= r < 32) by (nonlinear_arith)
        requires
            width > 0,
            q == (width * 24 + 31) / 32,
            r == (width * 24 + 31) % 32,
    ;
    assert((q * 4) % 4 == 0) by (nonlinear_arith);
}

/// The DIB layout for a `width` x `height` bitmap is representable: positive
/// dimensions, every intermediate size within `usize`, the image size within
/// `u32`, and the header plus image within `usize`.
pub open spec fn dib_layout_fits(width: int, height: int) -> bool {
    &&& width > 0 && height > 0
    &&& width * 24 <= usize::MAX
    &&& width * 24 + 31 <= usize::MAX
    &&& dib_stride(width) <= usize::MAX
    &&& dib_stride(width) * height <= usize::MAX
    &&& dib_stride(width) * height <= u32::MAX
    &&& DIB_HEADER_SIZE + dib_stride(width) * height <= usize::MAX
}

/// The layout of the packed 24-bit DIB that carries a `width` x `height`
/// bitmap to the clipboard, or `None` when the dimensions are not positive or
/// a size does not fit.
pub fn dib_layout(width: i32, height: i32) -> (r: Option<DibLayout>)
    ensures
        match r {
            Some(l) => dib_layout_fits(width as int, height as int)
                && l.stride == dib_stride(width as int)
                && l.image_size == dib_stride(width as int) * height
                && l.allocation_size == DIB_HEADER_SIZE + dib_stride(width as int) * height,
            None => !dib_layout_fits(width as int, height as int),
        },
{
    if width <= 0 || height <= 0 {
        return None;
    }
    let bits = match (width as usize).checked_mul(24) {
        Some(b) => b,
        None => return None,
    };
    let padded = match bits.checked_add(31) {
        Some(b) => b,
        None => return None,
    };
    let stride = match (padded / 32).checked_mul(4) {
        Some(s) => s,
        None => return None,
    };
    let image_size = match stride.checked_mul(height as usize) {
        Some(s) => s,
        None => return None,
    };
    if image_size > 0xFFFF_FFFF {
        return None;
    }
    let allocation_size = match DIB_HEADER_SIZE.checked_add(image_size) {
        Some(s) => s,
        None => return None,
    };
    Some(DibLayout { stride, image_size: image_size as u32, allocation_size })
}

} // verus!
