//! Pixel detectors over captured frames: the template match that slides a sampled template
//! over the image, and the color match that finds the largest connected cluster of pixels
//! near a target color.
use vstd::prelude::*;

use vstd::set::*;
use crate::types::{ProfileDetector, WinrResult};
use crate::profile::{
    color_within_tolerance, neighbors, next_clamped, offset_low, offset_span, prev_clamped,
    random_click_offset, within_tolerance,
};

verus! {

/// An RGBA image: rows of pixels, four bytes each (red, green, blue, alpha).
#[derive(Debug, PartialEq, Eq)]
pub struct RgbaPixels {
    pub width: u32,
    pub height: u32,
    pub data: Vec<u8>,
}

/// The buffer holds exactly the image's pixels.
pub open spec fn pixels_wf(img: RgbaPixels) -> bool {
    img.data@.len() == 4 * (img.width as int) * (img.height as int)
}

/// Index of the first byte of a pixel.
pub open spec fn pixel_base(img: RgbaPixels, x: int, y: int) -> int {
    4 * (y * img.width + x)
}

/// Whether the pixel at (x, y) of the image is within the tolerance of the color.
pub open spec fn pixel_near(img: RgbaPixels, x: int, y: int, color: (u8, u8, u8), tolerance: u8) -> bool {
    let i = pixel_base(img, x, y);
    within_tolerance(img.data@[i], img.data@[i + 1], img.data@[i + 2], color, tolerance)
}

/// The color of the pixel at (x, y).
pub open spec fn pixel_color(img: RgbaPixels, x: int, y: int) -> (u8, u8, u8) {
    let i = pixel_base(img, x, y);
    (img.data@[i], img.data@[i + 1], img.data@[i + 2])
}

proof fn lemma_pixel_in_bounds(img: RgbaPixels, x: int, y: int)
    requires
        pixels_wf(img),
        0 <= x < img.width,
        0 <= y < img.height,
    ensures
        0 <= pixel_base(img, x, y),
        pixel_base(img, x, y) + 3 < img.data@.len(),
{
    let w = img.width as int;
    let h = img.height as int;
    assert(4 * (y * w + x) + 3 < 4 * w * h) by (nonlinear_arith)
        requires
            0 <= x < w,
            0 <= y < h,
    ;
    assert(0 <= y * w) by (nonlinear_arith)
        requires
            0 <= y,
            0 <= w,
    ;
}

/// The color of a pixel.
fn pixel_rgb(img: &RgbaPixels, x: u32, y: u32) -> (r: (u8, u8, u8))
    requires
        pixels_wf(*img),
        x < img.width,
        y < img.height,
    ensures
        r == pixel_color(*img, x as int, y as int),
{
    let n = img.data.len();
    proof {
        lemma_pixel_in_bounds(*img, x as int, y as int);
    }
    let i = 4 * ((y as usize) * (img.width as usize) + (x as usize));
    (img.data[i], img.data[i + 1], img.data[i + 2])
}

/// Whether a pixel is within the tolerance of the color.
fn pixel_is_near(img: &RgbaPixels, x: u32, y: u32, color: (u8, u8, u8), tolerance: u8) -> (r: bool)
    requires
        pixels_wf(*img),
        x < img.width,
        y < img.height,
    ensures
        r == pixel_near(*img, x as int, y as int, color, tolerance),
{
    let (red, green, blue) = pixel_rgb(img, x, y);
    color_within_tolerance(red, green, blue, color, tolerance)
}

/// A buffer with the first and third byte of every whole four-byte pixel swapped: blue,
/// green, red, alpha becomes red, green, blue, alpha (and back).
pub open spec fn red_blue_swapped(before: Seq<u8>, after: Seq<u8>) -> bool {
    &&& after.len() == before.len()
    &&& forall|i: int|
        0 <= i < before.len() ==> #[trigger] after[i] == if i < before.len() - before.len() % 4 {
            if i % 4 == 0 {
                before[i + 2]
            } else if i % 4 == 2 {
                before[i - 2]
            } else {
                before[i]
            }
        } else {
            before[i]
        }
}

/// Swaps the red and blue bytes of every whole pixel of a captured buffer in place; a partial
/// pixel at the end is left as it is.
pub fn swap_red_blue(buffer: &mut Vec<u8>)
    ensures
        red_blue_swapped(old(buffer)@, final(buffer)@),
{
    let ghost before = buffer@;
    let n = buffer.len();
    let whole = n - n % 4;
    let mut i: usize = 0;
    while i < whole
        invariant
            whole == before.len() - before.len() % 4,
            n == before.len(),
            i <= whole,
            i % 4 == 0,
            buffer@.len() == n,
            forall|j: int| 0 <= j < i ==> #[trigger] buffer@[j] == if j % 4 == 0 {
                before[j + 2]
            } else if j % 4 == 2 {
                before[j - 2]
            } else {
                before[j]
            },
            forall|j: int| i <= j < n ==> #[trigger] buffer@[j] == before[j],
        decreases whole - i,
    {
        let red = buffer[i + 2];
        let blue = buffer[i];
        buffer.set(i, red);
        buffer.set(i + 2, blue);
        proof {
            assert forall|j: int| 0 <= j < i + 4 implies #[trigger] buffer@[j] == if j % 4 == 0 {
                before[j + 2]
            } else if j % 4 == 2 {
                before[j - 2]
            } else {
                before[j]
            } by {
                if j >= i {
                    assert(j == i || j == i + 1 || j == i + 2 || j == i + 3);
                }
            }
        }
        i = i + 4;
    }
}

/// An image of the given size over a buffer, when the buffer holds exactly its pixels.
pub fn pixels_from_buffer(width: u32, height: u32, data: Vec<u8>) -> (r: Option<RgbaPixels>)
    ensures
        (4 * (width as int) * (height as int) == data@.len()) ==> (r matches Some(img) && img.width == width
            && img.height == height && img.data@ == data@),
        (4 * (width as int) * (height as int) != data@.len()) ==> r is None,
{
    let len = data.len();
    let w = width as u64;
    let h = height as u64;
    assert(w * h <= 0xFFFF_FFFF * 0xFFFF_FFFF) by (nonlinear_arith)
        requires
            w <= 0xFFFF_FFFF,
            h <= 0xFFFF_FFFF,
    ;
    let pixels = w * h;
    assert(4 * (width as int) * (height as int) == 4 * (pixels as int)) by (nonlinear_arith)
        requires
            pixels == w * h,
            w == width,
            h == height,
    ;
    if pixels > (usize::MAX / 4) as u64 {
        proof {
            assert(data@.len() == len);
            assert(4 * (usize::MAX / 4) + 4 > usize::MAX);
        }
        return None;
    }
    if len as u64 == 4 * pixels {
        Some(RgbaPixels { width, height, data })
    } else {
        None
    }
}

/// Where a detector matched, in capture coordinates, and how many pixels support it.
#[derive(Debug, Clone, Copy, PartialEq, Eq, Structural)]
pub struct DetectorMatch {
    pub x: i32,
    pub y: i32,
    pub pixel_count: u32,
}

// ----------------------------------------------------------------------------------------------
// Template match.
/// Whether the template's sample at (tx, ty) matches the image with the template at (ox, oy).
pub open spec fn sample_matches(
    img: RgbaPixels,
    tpl: RgbaPixels,
    tolerance: u8,
    ox: int,
    oy: int,
    tx: int,
    ty: int,
) -> bool {
    pixel_near(img, ox + tx, oy + ty, pixel_color(tpl, tx, ty), tolerance)
}

/// Samples of one template row from column `tx` on, every `stride` columns: how many match,
/// and how many there are.
pub open spec fn row_counts(
    img: RgbaPixels,
    tpl: RgbaPixels,
    tolerance: u8,
    stride: int,
    ox: int,
    oy: int,
    ty: int,
    tx: int,
) -> (nat, nat)
    decreases (if tx < tpl.width { tpl.width - tx } else { 0int }),
{
    if stride <= 0 || tx >= tpl.width || tx < 0 {
        (0, 0)
    } else {
        let rest = row_counts(img, tpl, tolerance, stride, ox, oy, ty, tx + stride);
        (rest.0 + if sample_matches(img, tpl, tolerance, ox, oy, tx, ty) { 1nat } else { 0nat }, rest.1 + 1)
    }
}

/// Samples of the template rows from `ty` on, every `stride` rows.
pub open spec fn grid_counts(
    img: RgbaPixels,
    tpl: RgbaPixels,
    tolerance: u8,
    stride: int,
    ox: int,
    oy: int,
    ty: int,
) -> (nat, nat)
    decreases (if ty < tpl.height { tpl.height - ty } else { 0int }),
{
    if stride <= 0 || ty >= tpl.height || ty < 0 {
        (0, 0)
    } else {
        let row = row_counts(img, tpl, tolerance, stride, ox, oy, ty, 0);
        let rest = grid_counts(img, tpl, tolerance, stride, ox, oy, ty + stride);
        (row.0 + rest.0, row.1 + rest.1)
    }
}

proof fn lemma_row_bounds(img: RgbaPixels, tpl: RgbaPixels, tolerance: u8, stride: int, ox: int, oy: int, ty: int, tx: int)
    requires
        0 <= tx,
        stride >= 1,
    ensures
        row_counts(img, tpl, tolerance, stride, ox, oy, ty, tx).0 <= row_counts(img, tpl, tolerance, stride, ox, oy, ty, tx).1,
        row_counts(img, tpl, tolerance, stride, ox, oy, ty, tx).1 <= if tx < tpl.width { tpl.width - tx } else { 0 },
        tx < tpl.width ==> row_counts(img, tpl, tolerance, stride, ox, oy, ty, tx).1 >= 1,
    decreases (if tx < tpl.width { tpl.width - tx } else { 0int }),
{
    if tx < tpl.width {
        lemma_row_bounds(img, tpl, tolerance, stride, ox, oy, ty, tx + stride);
    }
}

proof fn lemma_grid_bounds(img: RgbaPixels, tpl: RgbaPixels, tolerance: u8, stride: int, ox: int, oy: int, ty: int)
    requires
        0 <= ty,
        stride >= 1,
    ensures
        grid_counts(img, tpl, tolerance, stride, ox, oy, ty).0 <= grid_counts(img, tpl, tolerance, stride, ox, oy, ty).1,
        grid_counts(img, tpl, tolerance, stride, ox, oy, ty).1 <= (if ty < tpl.height { tpl.height - ty } else { 0 }) * (tpl.width as int),
        ty < tpl.height && tpl.width > 0 ==> grid_counts(img, tpl, tolerance, stride, ox, oy, ty).1 >= 1,
    decreases (if ty < tpl.height { tpl.height - ty } else { 0int }),
{
    if ty < tpl.height {
        lemma_grid_bounds(img, tpl, tolerance, stride, ox, oy, ty + stride);
        lemma_row_bounds(img, tpl, tolerance, stride, ox, oy, ty, 0);
        let h = tpl.height as int;
        let w = tpl.width as int;
        let rest = if ty + stride < h { h - (ty + stride) } else { 0 };
        assert(w + rest * w <= (h - ty) * w) by (nonlinear_arith)
            requires
                rest <= h - ty - 1,
                0 <= rest,
                0 <= w,
        ;
    }
}

/// Counts the matching samples of one template row, and the samples.
fn row_sample_counts(
    img: &RgbaPixels,
    tpl: &RgbaPixels,
    tolerance: u8,
    stride: u32,
    ox: u32,
    oy: u32,
    ty: u32,
) -> (r: (u64, u64))
    requires
        pixels_wf(*img),
        pixels_wf(*tpl),
        stride >= 1,
        ty < tpl.height,
        ox as int + tpl.width <= img.width,
        oy as int + tpl.height <= img.height,
    ensures
        r.0 as nat == row_counts(*img, *tpl, tolerance, stride as int, ox as int, oy as int, ty as int, 0).0,
        r.1 as nat == row_counts(*img, *tpl, tolerance, stride as int, ox as int, oy as int, ty as int, 0).1,
{
    let ghost total_spec = row_counts(*img, *tpl, tolerance, stride as int, ox as int, oy as int, ty as int, 0);
    let mut matched: u64 = 0;
    let mut total: u64 = 0;
    let mut tx: u64 = 0;
    proof {
        lemma_row_bounds(*img, *tpl, tolerance, stride as int, ox as int, oy as int, ty as int, 0);
    }
    while tx < tpl.width as u64
        invariant
            pixels_wf(*img),
            pixels_wf(*tpl),
            stride >= 1,
            ty < tpl.height,
            ox as int + tpl.width <= img.width,
            oy as int + tpl.height <= img.height,
            tx <= tpl.width as u64 + stride as u64,
            total_spec == row_counts(*img, *tpl, tolerance, stride as int, ox as int, oy as int, ty as int, 0),
            matched as nat + row_counts(*img, *tpl, tolerance, stride as int, ox as int, oy as int, ty as int, tx as int).0
                == total_spec.0,
            total as nat + row_counts(*img, *tpl, tolerance, stride as int, ox as int, oy as int, ty as int, tx as int).1
                == total_spec.1,
            total_spec.0 <= total_spec.1,
            total_spec.1 <= tpl.width,
        decreases tpl.width as u64 + stride as u64 - tx,
    {
        proof {
            lemma_row_bounds(*img, *tpl, tolerance, stride as int, ox as int, oy as int, ty as int, tx as int);
            lemma_row_bounds(*img, *tpl, tolerance, stride as int, ox as int, oy as int, ty as int, tx + stride);
        }
        let x = tx as u32;
        if pixel_is_near(img, ox + x, oy + ty, pixel_rgb(tpl, x, ty), tolerance) {
            matched = matched + 1;
        }
        total = total + 1;
        tx = tx + stride as u64;
    }
    (matched, total)
}

/// Counts the matching samples of the template placed at (ox, oy), and the samples.
fn sample_counts(
    img: &RgbaPixels,
    tpl: &RgbaPixels,
    tolerance: u8,
    stride: u32,
    ox: u32,
    oy: u32,
) -> (r: (u64, u64))
    requires
        pixels_wf(*img),
        pixels_wf(*tpl),
        stride >= 1,
        ox as int + tpl.width <= img.width,
        oy as int + tpl.height <= img.height,
    ensures
        r.0 as nat == grid_counts(*img, *tpl, tolerance, stride as int, ox as int, oy as int, 0).0,
        r.1 as nat == grid_counts(*img, *tpl, tolerance, stride as int, ox as int, oy as int, 0).1,
{
    let ghost total_spec = grid_counts(*img, *tpl, tolerance, stride as int, ox as int, oy as int, 0);
    let mut matched: u64 = 0;
    let mut total: u64 = 0;
    let mut ty: u64 = 0;
    proof {
        lemma_grid_bounds(*img, *tpl, tolerance, stride as int, ox as int, oy as int, 0);
        assert((tpl.height as int) * (tpl.width as int) < 0x1_0000_0000_0000_0000) by (nonlinear_arith)
            requires
                tpl.height < 0x1_0000_0000,
                tpl.width < 0x1_0000_0000,
        ;
    }
    while ty < tpl.height as u64
        invariant
            pixels_wf(*img),
            pixels_wf(*tpl),
            stride >= 1,
            ox as int + tpl.width <= img.width,
            oy as int + tpl.height <= img.height,
            ty <= tpl.height as u64 + stride as u64,
            total_spec == grid_counts(*img, *tpl, tolerance, stride as int, ox as int, oy as int, 0),
            matched as nat + grid_counts(*img, *tpl, tolerance, stride as int, ox as int, oy as int, ty as int).0
                == total_spec.0,
            total as nat + grid_counts(*img, *tpl, tolerance, stride as int, ox as int, oy as int, ty as int).1
                == total_spec.1,
            total_spec.0 <= total_spec.1,
            total_spec.1 < 0x1_0000_0000_0000_0000,
        decreases tpl.height as u64 + stride as u64 - ty,
    {
        proof {
            lemma_grid_bounds(*img, *tpl, tolerance, stride as int, ox as int, oy as int, ty as int);
            lemma_grid_bounds(*img, *tpl, tolerance, stride as int, ox as int, oy as int, ty + stride);
            lemma_row_bounds(*img, *tpl, tolerance, stride as int, ox as int, oy as int, ty as int, 0);
        }
        let (m, t) = row_sample_counts(img, tpl, tolerance, stride, ox, oy, ty as u32);
        matched = matched + m;
        total = total + t;
        ty = ty + stride as u64;
    }
    (matched, total)
}

/// The template fits in the image, neither empty.
pub open spec fn template_fits(img: RgbaPixels, tpl: RgbaPixels) -> bool {
    tpl.width > 0 && tpl.height > 0 && tpl.width <= img.width && tpl.height <= img.height
}

/// The sampling stride: at least 1.
pub open spec fn effective_stride(sample_stride: u32) -> int {
    if sample_stride == 0 { 1 } else { sample_stride as int }
}

/// Matched samples of the template at (ox, oy).
pub open spec fn matched_at(img: RgbaPixels, tpl: RgbaPixels, tolerance: u8, stride: int, ox: int, oy: int) -> nat {
    grid_counts(img, tpl, tolerance, stride, ox, oy, 0).0
}

/// Samples of the template.
pub open spec fn samples_at(img: RgbaPixels, tpl: RgbaPixels, tolerance: u8, stride: int, ox: int, oy: int) -> nat {
    grid_counts(img, tpl, tolerance, stride, ox, oy, 0).1
}

/// A placement is tried: both offsets are multiples of the stride within the image.
pub open spec fn tried_offset(img: RgbaPixels, tpl: RgbaPixels, stride: int, ox: int, oy: int) -> bool {
    &&& 0 <= ox <= img.width - tpl.width
    &&& 0 <= oy <= img.height - tpl.height
    &&& ox % stride == 0
    &&& oy % stride == 0
}

/// A placement qualifies: its share of matching samples, in whole percent, reaches the
/// minimum.
pub open spec fn qualifies(img: RgbaPixels, tpl: RgbaPixels, tolerance: u8, stride: int, min_percent: u8, ox: int, oy: int) -> bool {
    samples_at(img, tpl, tolerance, stride, ox, oy) > 0 && matched_at(img, tpl, tolerance, stride, ox, oy)
        * 100 / samples_at(img, tpl, tolerance, stride, ox, oy) >= min_percent
}

/// Placement `(ox2, oy2)` is tried before `(ox, oy)`: rows first, then columns.
pub open spec fn tried_before(ox2: int, oy2: int, ox: int, oy: int) -> bool {
    oy2 < oy || (oy2 == oy && ox2 < ox)
}

/// The placement a template match picks: tried and qualifying, with the most matching
/// samples, the first tried among equals.
pub open spec fn best_placement(
    img: RgbaPixels,
    tpl: RgbaPixels,
    tolerance: u8,
    stride: int,
    min_percent: u8,
    ox: int,
    oy: int,
) -> bool {
    &&& tried_offset(img, tpl, stride, ox, oy)
    &&& qualifies(img, tpl, tolerance, stride, min_percent, ox, oy)
    &&& forall|ox2: int, oy2: int|
        #![trigger qualifies(img, tpl, tolerance, stride, min_percent, ox2, oy2)]
        tried_offset(img, tpl, stride, ox2, oy2) && qualifies(img, tpl, tolerance, stride, min_percent, ox2, oy2)
            ==> matched_at(img, tpl, tolerance, stride, ox2, oy2) <= matched_at(img, tpl, tolerance, stride, ox, oy)
                && (tried_before(ox2, oy2, ox, oy) ==> matched_at(img, tpl, tolerance, stride, ox2, oy2)
                    < matched_at(img, tpl, tolerance, stride, ox, oy))
}

proof fn lemma_next_multiple(a: int, b: int, s: int)
    requires
        s >= 1,
        a >= 0,
        b >= 0,
        a % s == 0,
        b % s == 0,
        a <= b < a + s,
    ensures
        a == b,
{
    assert(a == b) by (nonlinear_arith)
        requires
            s >= 1,
            a >= 0,
            b >= 0,
            a % s == 0,
            b % s == 0,
            a <= b < a + s,
    ;
}

proof fn lemma_add_multiple(a: int, s: int)
    requires
        s >= 1,
        a >= 0,
        a % s == 0,
    ensures
        (a + s) % s == 0,
{
    assert((a + s) % s == 0) by (nonlinear_arith)
        requires
            s >= 1,
            a >= 0,
            a % s == 0,
    ;
}

/// Slides the template over the image in steps of the stride, sampling every stride-th
/// template pixel, and picks the placement with the most matching samples among those whose
/// share of matches reaches the minimum (the first tried among equals). Returns the placement
/// and its matching samples.
pub fn best_template_placement(
    img: &RgbaPixels,
    tpl: &RgbaPixels,
    pixel_tolerance: u8,
    min_match_percent: u8,
    sample_stride: u32,
) -> (r: Option<(u32, u32, u64)>)
    requires
        pixels_wf(*img),
        pixels_wf(*tpl),
    ensures
        !template_fits(*img, *tpl) ==> r is None,
        template_fits(*img, *tpl) ==> match r {
            Some((ox, oy, m)) => best_placement(
                *img,
                *tpl,
                pixel_tolerance,
                effective_stride(sample_stride),
                min_match_percent,
                ox as int,
                oy as int,
            ) && m as nat == matched_at(*img, *tpl, pixel_tolerance, effective_stride(sample_stride), ox as int, oy as int),
            None => forall|ox2: int, oy2: int|
                #![trigger qualifies(*img, *tpl, pixel_tolerance, effective_stride(sample_stride), min_match_percent, ox2, oy2)]
                tried_offset(*img, *tpl, effective_stride(sample_stride), ox2, oy2) ==> !qualifies(
                    *img,
                    *tpl,
                    pixel_tolerance,
                    effective_stride(sample_stride),
                    min_match_percent,
                    ox2,
                    oy2,
                ),
        },
{
    if tpl.width == 0 || tpl.height == 0 || tpl.width > img.width || tpl.height > img.height {
        return None;
    }
    let stride: u32 = if sample_stride == 0 { 1 } else { sample_stride };
    let ghost s = stride as int;
    let max_y = img.height - tpl.height;
    let max_x = img.width - tpl.width;
    let mut best: Option<(u32, u32, u64)> = None;
    let mut oy: u64 = 0;
    while oy <= max_y as u64
        invariant
            pixels_wf(*img),
            pixels_wf(*tpl),
            template_fits(*img, *tpl),
            s == effective_stride(sample_stride),
            stride as int == s,
            s >= 1,
            max_y == img.height - tpl.height,
            max_x == img.width - tpl.width,
            oy % stride as u64 == 0,
            oy <= max_y as u64 + stride as u64,
            match best {
                None => forall|ox2: int, oy2: int|
                    #![trigger qualifies(*img, *tpl, pixel_tolerance, s, min_match_percent, ox2, oy2)]
                    tried_offset(*img, *tpl, s, ox2, oy2) && oy2 < oy ==> !qualifies(*img, *tpl, pixel_tolerance, s, min_match_percent, ox2, oy2),
                Some((bx, by, bm)) => {
                    &&& (by as int) < oy
                    &&& tried_offset(*img, *tpl, s, bx as int, by as int)
                    &&& qualifies(*img, *tpl, pixel_tolerance, s, min_match_percent, bx as int, by as int)
                    &&& bm as nat == matched_at(*img, *tpl, pixel_tolerance, s, bx as int, by as int)
                    &&& forall|ox2: int, oy2: int|
                        #![trigger qualifies(*img, *tpl, pixel_tolerance, s, min_match_percent, ox2, oy2)]
                        tried_offset(*img, *tpl, s, ox2, oy2) && oy2 < oy && qualifies(*img, *tpl, pixel_tolerance, s, min_match_percent, ox2, oy2)
                            ==> matched_at(*img, *tpl, pixel_tolerance, s, ox2, oy2) <= bm
                                && (tried_before(ox2, oy2, bx as int, by as int) ==> matched_at(*img, *tpl, pixel_tolerance, s, ox2, oy2) < bm)
                },
            },
        decreases max_y as u64 + stride as u64 - oy,
    {
        let mut ox: u64 = 0;
        while ox <= max_x as u64
            invariant
                pixels_wf(*img),
                pixels_wf(*tpl),
                template_fits(*img, *tpl),
                s == effective_stride(sample_stride),
                stride as int == s,
                s >= 1,
                max_y == img.height - tpl.height,
                max_x == img.width - tpl.width,
                oy % stride as u64 == 0,
                oy <= max_y as u64,
                ox % stride as u64 == 0,
                ox <= max_x as u64 + stride as u64,
                match best {
                    None => forall|ox2: int, oy2: int|
                        #![trigger qualifies(*img, *tpl, pixel_tolerance, s, min_match_percent, ox2, oy2)]
                        tried_offset(*img, *tpl, s, ox2, oy2) && tried_before(ox2, oy2, ox as int, oy as int)
                            ==> !qualifies(*img, *tpl, pixel_tolerance, s, min_match_percent, ox2, oy2),
                    Some((bx, by, bm)) => {
                        &&& tried_before(bx as int, by as int, ox as int, oy as int)
                        &&& tried_offset(*img, *tpl, s, bx as int, by as int)
                        &&& qualifies(*img, *tpl, pixel_tolerance, s, min_match_percent, bx as int, by as int)
                        &&& bm as nat == matched_at(*img, *tpl, pixel_tolerance, s, bx as int, by as int)
                        &&& forall|ox2: int, oy2: int|
                            #![trigger qualifies(*img, *tpl, pixel_tolerance, s, min_match_percent, ox2, oy2)]
                            tried_offset(*img, *tpl, s, ox2, oy2) && tried_before(ox2, oy2, ox as int, oy as int)
                                && qualifies(*img, *tpl, pixel_tolerance, s, min_match_percent, ox2, oy2)
                                ==> matched_at(*img, *tpl, pixel_tolerance, s, ox2, oy2) <= bm
                                    && (tried_before(ox2, oy2, bx as int, by as int) ==> matched_at(*img, *tpl, pixel_tolerance, s, ox2, oy2) < bm)
                    },
                },
            decreases max_x as u64 + stride as u64 - ox,
        {
            let (matched, total) = sample_counts(img, tpl, pixel_tolerance, stride, ox as u32, oy as u32);
            proof {
                lemma_grid_bounds(*img, *tpl, pixel_tolerance, s, ox as int, oy as int, 0);
            }
            let ok = total > 0 && (matched as u128) * 100 / (total as u128) >= min_match_percent as u128;
            let better = match best {
                None => true,
                Some((_, _, bm)) => matched > bm,
            };
            if ok && better {
                best = Some((ox as u32, oy as u32, matched));
            }
            proof {
                lemma_add_multiple(ox as int, s);
                assert forall|ox2: int, oy2: int|
                    tried_offset(*img, *tpl, s, ox2, oy2) && tried_before(ox2, oy2, ox + s, oy as int)
                        implies tried_before(ox2, oy2, ox as int, oy as int) || (ox2 == ox && oy2 == oy) by {
                    if oy2 == oy && ox2 >= ox {
                        lemma_next_multiple(ox as int, ox2, s);
                    }
                }
            }
            ox = ox + stride as u64;
        }
        proof {
            lemma_add_multiple(oy as int, s);
            assert forall|ox2: int, oy2: int|
                tried_offset(*img, *tpl, s, ox2, oy2) && oy2 < oy + s implies tried_before(ox2, oy2, ox as int, oy as int) by {
                if oy2 >= oy {
                    lemma_next_multiple(oy as int, oy2, s);
                }
            }
        }
        oy = oy + stride as u64;
    }
    proof {
        assert forall|ox2: int, oy2: int| tried_offset(*img, *tpl, s, ox2, oy2) implies oy2 < oy by {}
    }
    best
}

/// Finds the template in the image (see `best_template_placement`) and aims a click inside
/// the matched area: the placement plus a random offset in the middle band of the template's
/// width and height.
pub fn detect_template_match(
    img: &RgbaPixels,
    tpl: &RgbaPixels,
    pixel_tolerance: u8,
    min_match_percent: u8,
    sample_stride: u32,
) -> (r: Option<DetectorMatch>)
    requires
        pixels_wf(*img),
        pixels_wf(*tpl),
        img.width < i32::MAX,
        img.height < i32::MAX,
        tpl.width <= i32::MAX / 3,
        tpl.height <= i32::MAX / 3,
        (tpl.width as int) * (tpl.height as int) <= u32::MAX,
    ensures
        !template_fits(*img, *tpl) ==> r is None,
        template_fits(*img, *tpl) ==> match r {
            Some(d) => exists|ox: int, oy: int| #![trigger matched_at(*img, *tpl, pixel_tolerance, effective_stride(sample_stride), ox, oy)]
                best_placement(*img, *tpl, pixel_tolerance, effective_stride(sample_stride), min_match_percent, ox, oy)
                && d.pixel_count as nat == matched_at(*img, *tpl, pixel_tolerance, effective_stride(sample_stride), ox, oy)
                && ox + offset_low(tpl.width as i32) <= d.x < ox + offset_low(tpl.width as i32) + offset_span(tpl.width as i32)
                && oy + offset_low(tpl.height as i32) <= d.y < oy + offset_low(tpl.height as i32) + offset_span(tpl.height as i32),
            None => forall|ox2: int, oy2: int|
                #![trigger qualifies(*img, *tpl, pixel_tolerance, effective_stride(sample_stride), min_match_percent, ox2, oy2)]
                tried_offset(*img, *tpl, effective_stride(sample_stride), ox2, oy2) ==> !qualifies(
                    *img,
                    *tpl,
                    pixel_tolerance,
                    effective_stride(sample_stride),
                    min_match_percent,
                    ox2,
                    oy2,
                ),
        },
{
    match best_template_placement(img, tpl, pixel_tolerance, min_match_percent, sample_stride) {
        None => None,
        Some((ox, oy, matched)) => {
            proof {
                lemma_grid_bounds(*img, *tpl, pixel_tolerance, effective_stride(sample_stride), ox as int, oy as int, 0);
                assert((tpl.height as int) * (tpl.width as int) == (tpl.width as int) * (tpl.height as int)) by (nonlinear_arith);
            }
            let dx = random_click_offset(tpl.width as i32);
            let dy = random_click_offset(tpl.height as i32);
            proof {
                lemma_offset_band(tpl.width as i32);
                lemma_offset_band(tpl.height as i32);
            }
            Some(DetectorMatch { x: ox as i32 + dx, y: oy as i32 + dy, pixel_count: matched as u32 })
        },
    }
}

proof fn lemma_offset_band(size: i32)
    requires
        0 < size,
    ensures
        1 <= offset_low(size),
        offset_low(size) + offset_span(size) <= size + 2,
{
}

// ----------------------------------------------------------------------------------------------
// Color match.
/// A cell of the image grid, as (x, y).
pub type Cell = (int, int);

/// The cell lies in the image.
pub open spec fn in_image(img: RgbaPixels, c: Cell) -> bool {
    0 <= c.0 < img.width && 0 <= c.1 < img.height
}

/// The cell lies in the image and its pixel is near the color.
pub open spec fn near_cell(img: RgbaPixels, color: (u8, u8, u8), tolerance: u8, c: Cell) -> bool {
    in_image(img, c) && pixel_near(img, c.0, c.1, color, tolerance)
}

/// The neighbor of a cell in direction `k` (left, right, up, down), clamped to the image.
pub open spec fn neighbor(img: RgbaPixels, c: Cell, k: int) -> Cell {
    if k == 0 {
        (prev_clamped(c.0 as usize), c.1)
    } else if k == 1 {
        (next_clamped(c.0 as usize, img.width as usize), c.1)
    } else if k == 2 {
        (c.0, prev_clamped(c.1 as usize))
    } else {
        (c.0, next_clamped(c.1 as usize, img.height as usize))
    }
}

/// `b` is one of the four clamped neighbors of `a`.
pub open spec fn adjacent(img: RgbaPixels, a: Cell, b: Cell) -> bool {
    b == neighbor(img, a, 0) || b == neighbor(img, a, 1) || b == neighbor(img, a, 2) || b == neighbor(img, a, 3)
}

/// A path of near cells, each a neighbor of the one before.
pub open spec fn near_path(img: RgbaPixels, color: (u8, u8, u8), tolerance: u8, p: Seq<Cell>) -> bool {
    &&& p.len() >= 1
    &&& forall|i: int| 0 <= i < p.len() ==> #[trigger] near_cell(img, color, tolerance, p[i])
    &&& forall|i: int| 0 <= i < p.len() - 1 ==> #[trigger] adjacent(img, p[i], p[i + 1])
}

/// A path of near cells leads from `a` to `b`.
pub open spec fn reaches(img: RgbaPixels, color: (u8, u8, u8), tolerance: u8, a: Cell, b: Cell) -> bool {
    exists|p: Seq<Cell>| #[trigger] near_path(img, color, tolerance, p) && p[0] == a && p.last() == b
}

/// `d` comes before `c` in a row-by-row scan.
pub open spec fn scanned_before(d: Cell, c: Cell) -> bool {
    d.1 < c.1 || (d.1 == c.1 && d.0 < c.0)
}

/// `c` is the first cell of its cluster in scan order.
pub open spec fn cluster_root(img: RgbaPixels, color: (u8, u8, u8), tolerance: u8, c: Cell) -> bool {
    near_cell(img, color, tolerance, c) && forall|d: Cell| #[trigger] reaches(img, color, tolerance, c, d)
        ==> !scanned_before(d, c)
}

/// The sum of `f` over the cells of the first `n` columns of row `y` that satisfy `pred`.
pub open spec fn row_total(pred: spec_fn(Cell) -> bool, f: spec_fn(Cell) -> int, y: int, n: nat) -> int
    decreases n,
{
    if n == 0 {
        0
    } else {
        row_total(pred, f, y, (n - 1) as nat) + if pred((n - 1, y)) { f((n - 1, y)) } else { 0 }
    }
}

/// The sum of `f` over the cells of the first `rows` rows (of `w` columns) that satisfy `pred`.
pub open spec fn grid_total(pred: spec_fn(Cell) -> bool, f: spec_fn(Cell) -> int, w: nat, rows: nat) -> int
    decreases rows,
{
    if rows == 0 {
        0
    } else {
        grid_total(pred, f, w, (rows - 1) as nat) + row_total(pred, f, rows - 1, w)
    }
}

/// The cells of the cluster of `c`.
pub open spec fn cluster_of(img: RgbaPixels, color: (u8, u8, u8), tolerance: u8, c: Cell) -> spec_fn(Cell) -> bool {
    |d: Cell| reaches(img, color, tolerance, c, d)
}

/// One per cell.
pub open spec fn unit() -> spec_fn(Cell) -> int {
    |d: Cell| 1int
}

/// A cell's column.
pub open spec fn column() -> spec_fn(Cell) -> int {
    |d: Cell| d.0
}

/// A cell's row.
pub open spec fn row() -> spec_fn(Cell) -> int {
    |d: Cell| d.1
}

/// How many cells the cluster of `c` has.
pub open spec fn cluster_size(img: RgbaPixels, color: (u8, u8, u8), tolerance: u8, c: Cell) -> int {
    grid_total(cluster_of(img, color, tolerance, c), unit(), img.width as nat, img.height as nat)
}

/// The sum of the columns of the cluster of `c`.
pub open spec fn cluster_sum_x(img: RgbaPixels, color: (u8, u8, u8), tolerance: u8, c: Cell) -> int {
    grid_total(cluster_of(img, color, tolerance, c), column(), img.width as nat, img.height as nat)
}

/// The sum of the rows of the cluster of `c`.
pub open spec fn cluster_sum_y(img: RgbaPixels, color: (u8, u8, u8), tolerance: u8, c: Cell) -> int {
    grid_total(cluster_of(img, color, tolerance, c), row(), img.width as nat, img.height as nat)
}

proof fn lemma_row_total_insert(pred: spec_fn(Cell) -> bool, pred2: spec_fn(Cell) -> bool, f: spec_fn(Cell) -> int, y: int, n: nat, c: Cell)
    requires
        !pred(c),
        forall|d: Cell| #[trigger] pred2(d) == (pred(d) || d == c),
    ensures
        row_total(pred2, f, y, n) == row_total(pred, f, y, n) + if c.1 == y && 0 <= c.0 < n { f(c) } else { 0 },
    decreases n,
{
    if n > 0 {
        lemma_row_total_insert(pred, pred2, f, y, (n - 1) as nat, c);
    }
}

proof fn lemma_grid_total_insert(pred: spec_fn(Cell) -> bool, pred2: spec_fn(Cell) -> bool, f: spec_fn(Cell) -> int, w: nat, rows: nat, c: Cell)
    requires
        !pred(c),
        forall|d: Cell| #[trigger] pred2(d) == (pred(d) || d == c),
    ensures
        grid_total(pred2, f, w, rows) == grid_total(pred, f, w, rows) + if 0 <= c.1 < rows && 0 <= c.0 < w { f(c) } else { 0 },
    decreases rows,
{
    if rows > 0 {
        lemma_grid_total_insert(pred, pred2, f, w, (rows - 1) as nat, c);
        lemma_row_total_insert(pred, pred2, f, rows - 1, w, c);
    }
}

proof fn lemma_row_total_ext(pred: spec_fn(Cell) -> bool, pred2: spec_fn(Cell) -> bool, f: spec_fn(Cell) -> int, y: int, n: nat)
    requires
        forall|x: int| 0 <= x < n ==> #[trigger] pred((x, y)) == pred2((x, y)),
    ensures
        row_total(pred, f, y, n) == row_total(pred2, f, y, n),
    decreases n,
{
    if n > 0 {
        assert(pred((n - 1, y)) == pred2((n - 1, y)));
        lemma_row_total_ext(pred, pred2, f, y, (n - 1) as nat);
    }
}

proof fn lemma_grid_total_ext(pred: spec_fn(Cell) -> bool, pred2: spec_fn(Cell) -> bool, f: spec_fn(Cell) -> int, w: nat, rows: nat)
    requires
        forall|d: Cell| 0 <= d.0 < w && 0 <= d.1 < rows ==> #[trigger] pred(d) == pred2(d),
    ensures
        grid_total(pred, f, w, rows) == grid_total(pred2, f, w, rows),
    decreases rows,
{
    if rows > 0 {
        lemma_grid_total_ext(pred, pred2, f, w, (rows - 1) as nat);
        assert forall|x: int| 0 <= x < w implies #[trigger] pred((x, rows - 1)) == pred2((x, rows - 1)) by {
            assert(pred((x, rows - 1)) == pred2((x, rows - 1)));
        }
        lemma_row_total_ext(pred, pred2, f, rows - 1, w);
    }
}

proof fn lemma_row_total_bounds(pred: spec_fn(Cell) -> bool, f: spec_fn(Cell) -> int, y: int, n: nat, b: int)
    requires
        b >= 0,
        forall|x: int| 0 <= x < n ==> 0 <= #[trigger] f((x, y)) <= b,
    ensures
        0 <= row_total(pred, f, y, n) <= b * n,
    decreases n,
{
    if n > 0 {
        lemma_row_total_bounds(pred, f, y, (n - 1) as nat, b);
        assert(0 <= f((n - 1, y)) <= b);
        assert(b * (n - 1) + b == b * n) by (nonlinear_arith);
    }
}

proof fn lemma_grid_total_bounds(pred: spec_fn(Cell) -> bool, f: spec_fn(Cell) -> int, w: nat, rows: nat, b: int)
    requires
        b >= 0,
        forall|d: Cell| 0 <= d.0 < w && 0 <= d.1 < rows ==> 0 <= #[trigger] f(d) <= b,
    ensures
        0 <= grid_total(pred, f, w, rows) <= b * w * rows,
    decreases rows,
{
    if rows > 0 {
        lemma_grid_total_bounds(pred, f, w, (rows - 1) as nat, b);
        assert forall|x: int| 0 <= x < w implies 0 <= #[trigger] f((x, rows - 1)) <= b by {
            assert(0 <= f((x, rows - 1)) <= b);
        }
        lemma_row_total_bounds(pred, f, rows - 1, w, b);
        assert(b * w * (rows - 1) + b * w == b * w * rows) by (nonlinear_arith);
    }
}

proof fn lemma_empty_totals(f: spec_fn(Cell) -> int, w: nat, rows: nat)
    ensures
        grid_total(|d: Cell| false, f, w, rows) == 0,
    decreases rows,
{
    if rows > 0 {
        lemma_empty_totals(f, w, (rows - 1) as nat);
        lemma_empty_row(f, rows - 1, w);
    }
}

proof fn lemma_empty_row(f: spec_fn(Cell) -> int, y: int, n: nat)
    ensures
        row_total(|d: Cell| false, f, y, n) == 0,
    decreases n,
{
    if n > 0 {
        lemma_empty_row(f, y, (n - 1) as nat);
    }
}

proof fn lemma_adjacent_symmetric(img: RgbaPixels, a: Cell, b: Cell)
    requires
        in_image(img, a),
        adjacent(img, a, b),
    ensures
        in_image(img, b),
        adjacent(img, b, a),
{
}

proof fn lemma_reach_self(img: RgbaPixels, color: (u8, u8, u8), tolerance: u8, a: Cell)
    requires
        near_cell(img, color, tolerance, a),
    ensures
        reaches(img, color, tolerance, a, a),
{
    let p = seq![a];
    assert(near_path(img, color, tolerance, p));
}

proof fn lemma_reach_step(img: RgbaPixels, color: (u8, u8, u8), tolerance: u8, a: Cell, b: Cell, c: Cell)
    requires
        reaches(img, color, tolerance, a, b),
        adjacent(img, b, c),
        near_cell(img, color, tolerance, c),
    ensures
        reaches(img, color, tolerance, a, c),
{
    let p = choose|p: Seq<Cell>| #[trigger] near_path(img, color, tolerance, p) && p[0] == a && p.last() == b;
    let q = p.push(c);
    assert forall|i: int| 0 <= i < q.len() implies #[trigger] near_cell(img, color, tolerance, q[i]) by {
        if i < p.len() {
            assert(q[i] == p[i]);
        }
    }
    assert forall|i: int| 0 <= i < q.len() - 1 implies #[trigger] adjacent(img, q[i], q[i + 1]) by {
        if i < p.len() - 1 {
            assert(q[i] == p[i] && q[i + 1] == p[i + 1]);
        }
    }
    assert(near_path(img, color, tolerance, q));
}

proof fn lemma_reach_symmetric(img: RgbaPixels, color: (u8, u8, u8), tolerance: u8, a: Cell, b: Cell)
    requires
        reaches(img, color, tolerance, a, b),
    ensures
        reaches(img, color, tolerance, b, a),
{
    let p = choose|p: Seq<Cell>| #[trigger] near_path(img, color, tolerance, p) && p[0] == a && p.last() == b;
    let q = p.reverse();
    assert forall|i: int| 0 <= i < q.len() implies #[trigger] near_cell(img, color, tolerance, q[i]) by {
        assert(q[i] == p[p.len() - 1 - i]);
    }
    assert forall|i: int| 0 <= i < q.len() - 1 implies #[trigger] adjacent(img, q[i], q[i + 1]) by {
        let j = p.len() - 2 - i;
        assert(q[i] == p[j + 1] && q[i + 1] == p[j]);
        assert(adjacent(img, p[j], p[j + 1]));
        assert(near_cell(img, color, tolerance, p[j]));
        lemma_adjacent_symmetric(img, p[j], p[j + 1]);
    }
    assert(near_path(img, color, tolerance, q));
}

proof fn lemma_reach_transitive(img: RgbaPixels, color: (u8, u8, u8), tolerance: u8, a: Cell, b: Cell, c: Cell)
    requires
        reaches(img, color, tolerance, a, b),
        reaches(img, color, tolerance, b, c),
    ensures
        reaches(img, color, tolerance, a, c),
{
    let p = choose|p: Seq<Cell>| #[trigger] near_path(img, color, tolerance, p) && p[0] == a && p.last() == b;
    let q = choose|q: Seq<Cell>| #[trigger] near_path(img, color, tolerance, q) && q[0] == b && q.last() == c;
    let r = p + q.drop_first();
    assert forall|i: int| 0 <= i < r.len() implies #[trigger] near_cell(img, color, tolerance, r[i]) by {
        if i < p.len() {
            assert(r[i] == p[i]);
        } else {
            assert(r[i] == q[i - p.len() + 1]);
        }
    }
    assert forall|i: int| 0 <= i < r.len() - 1 implies #[trigger] adjacent(img, r[i], r[i + 1]) by {
        if i < p.len() - 1 {
            assert(r[i] == p[i] && r[i + 1] == p[i + 1]);
        } else if i == p.len() - 1 {
            assert(r[i] == b);
            assert(r[i + 1] == q[1]);
            assert(adjacent(img, q[0], q[1]));
        } else {
            let j = i - p.len() + 1;
            assert(r[i] == q[j] && r[i + 1] == q[j + 1]);
        }
    }
    if q.len() == 1 {
        assert(r =~= p);
    } else {
        assert(r.last() == q.last());
    }
    assert(near_path(img, color, tolerance, r));
}

proof fn lemma_reach_ends_near(img: RgbaPixels, color: (u8, u8, u8), tolerance: u8, a: Cell, b: Cell)
    requires
        reaches(img, color, tolerance, a, b),
    ensures
        near_cell(img, color, tolerance, a),
        near_cell(img, color, tolerance, b),
{
    let p = choose|p: Seq<Cell>| #[trigger] near_path(img, color, tolerance, p) && p[0] == a && p.last() == b;
    assert(near_cell(img, color, tolerance, p[0]));
    assert(near_cell(img, color, tolerance, p[p.len() - 1]));
}

/// A set of cells that holds `a` and every near neighbor of its cells holds all that `a`
/// reaches.
proof fn lemma_closed_holds_reach(
    img: RgbaPixels,
    color: (u8, u8, u8),
    tolerance: u8,
    set: Set<Cell>,
    a: Cell,
    b: Cell,
)
    requires
        set.contains(a),
        forall|c: Cell, k: int| #![trigger set.contains(c), neighbor(img, c, k)]
            set.contains(c) && 0 <= k < 4 && near_cell(img, color, tolerance, neighbor(img, c, k))
                ==> set.contains(neighbor(img, c, k)),
        reaches(img, color, tolerance, a, b),
    ensures
        set.contains(b),
{
    let p = choose|p: Seq<Cell>| #[trigger] near_path(img, color, tolerance, p) && p[0] == a && p.last() == b;
    lemma_closed_path(img, color, tolerance, set, p, p.len() - 1);
}

proof fn lemma_closed_path(
    img: RgbaPixels,
    color: (u8, u8, u8),
    tolerance: u8,
    set: Set<Cell>,
    p: Seq<Cell>,
    i: int,
)
    requires
        near_path(img, color, tolerance, p),
        set.contains(p[0]),
        0 <= i < p.len(),
        forall|c: Cell, k: int| #![trigger set.contains(c), neighbor(img, c, k)]
            set.contains(c) && 0 <= k < 4 && near_cell(img, color, tolerance, neighbor(img, c, k))
                ==> set.contains(neighbor(img, c, k)),
    ensures
        set.contains(p[i]),
    decreases i,
{
    if i > 0 {
        lemma_closed_path(img, color, tolerance, set, p, i - 1);
        let j = i - 1;
        assert(adjacent(img, p[j], p[j + 1]));
        assert(j + 1 == i);
        assert(near_cell(img, color, tolerance, p[i]));
        if p[i] == neighbor(img, p[i - 1], 0) {
            assert(set.contains(neighbor(img, p[i - 1], 0)));
        } else if p[i] == neighbor(img, p[i - 1], 1) {
            assert(set.contains(neighbor(img, p[i - 1], 1)));
        } else if p[i] == neighbor(img, p[i - 1], 2) {
            assert(set.contains(neighbor(img, p[i - 1], 2)));
        } else {
            assert(set.contains(neighbor(img, p[i - 1], 3)));
        }
    }
}

proof fn lemma_row_total_relative(pred: spec_fn(Cell) -> bool, f: spec_fn(Cell) -> int, y: int, n: nat, b: int)
    requires
        b >= 0,
        forall|x: int| 0 <= x < n ==> 0 <= #[trigger] f((x, y)) <= b,
    ensures
        0 <= row_total(pred, f, y, n) <= b * row_total(pred, unit(), y, n),
    decreases n,
{
    if n > 0 {
        lemma_row_total_relative(pred, f, y, (n - 1) as nat, b);
        assert(0 <= f((n - 1, y)) <= b);
        let a = row_total(pred, unit(), y, (n - 1) as nat);
        assert(b * a + b == b * (a + 1)) by (nonlinear_arith);
    }
}

proof fn lemma_grid_total_relative(pred: spec_fn(Cell) -> bool, f: spec_fn(Cell) -> int, w: nat, rows: nat, b: int)
    requires
        b >= 0,
        forall|d: Cell| 0 <= d.0 < w && 0 <= d.1 < rows ==> 0 <= #[trigger] f(d) <= b,
    ensures
        0 <= grid_total(pred, f, w, rows) <= b * grid_total(pred, unit(), w, rows),
    decreases rows,
{
    if rows > 0 {
        lemma_grid_total_relative(pred, f, w, (rows - 1) as nat, b);
        assert forall|x: int| 0 <= x < w implies 0 <= #[trigger] f((x, rows - 1)) <= b by {
            assert(0 <= f((x, rows - 1)) <= b);
        }
        lemma_row_total_relative(pred, f, rows - 1, w, b);
        let g = grid_total(pred, unit(), w, (rows - 1) as nat);
        let r = row_total(pred, unit(), rows - 1, w);
        assert(b * g + b * r == b * (g + r)) by (nonlinear_arith);
    }
}

/// Index of a cell in a row-major buffer of cells.
pub open spec fn cell_index(img: RgbaPixels, c: Cell) -> int {
    c.1 * img.width + c.0
}

proof fn lemma_cell_index(img: RgbaPixels, c: Cell, d: Cell)
    requires
        in_image(img, c),
        in_image(img, d),
    ensures
        0 <= cell_index(img, c) < (img.width as int) * (img.height as int),
        cell_index(img, c) == cell_index(img, d) ==> c == d,
{
    let w = img.width as int;
    let h = img.height as int;
    assert(0 <= c.1 * w + c.0 < w * h) by (nonlinear_arith)
        requires
            0 <= c.0 < w,
            0 <= c.1 < h,
    ;
    if cell_index(img, c) == cell_index(img, d) {
        assert(c.1 == d.1 && c.0 == d.0) by (nonlinear_arith)
            requires
                0 <= c.0 < w,
                0 <= d.0 < w,
                c.1 * w + c.0 == d.1 * w + d.0,
                0 <= c.1,
                0 <= d.1,
        ;
    }
}

/// Marks a neighbor seen and stacks it when it is near and not yet seen.
fn stack_if_new(
    img: &RgbaPixels,
    color: (u8, u8, u8),
    tolerance: u8,
    visited: &mut Vec<bool>,
    stack: &mut Vec<(usize, usize)>,
    nx: usize,
    ny: usize,
    Ghost(seen): Ghost<Set<Cell>>,
) -> (r: Ghost<Set<Cell>>)
    requires
        pixels_wf(*img),
        (img.width as int) * (img.height as int) <= u32::MAX,
        nx < img.width,
        ny < img.height,
        old(visited)@.len() == (img.width as int) * (img.height as int),
        forall|c: Cell| in_image(*img, c) ==> (#[trigger] old(visited)@[cell_index(*img, c)] <==> seen.contains(c)),
    ensures
        final(visited)@.len() == old(visited)@.len(),
        forall|c: Cell| in_image(*img, c) ==> (#[trigger] final(visited)@[cell_index(*img, c)] <==> r@.contains(c)),
        near_cell(*img, color, tolerance, (nx as int, ny as int)) && !seen.contains((nx as int, ny as int)) ==> {
            &&& r@ == seen.insert((nx as int, ny as int))
            &&& final(stack)@ == old(stack)@.push((nx, ny))
        },
        !(near_cell(*img, color, tolerance, (nx as int, ny as int)) && !seen.contains((nx as int, ny as int))) ==> {
            &&& r@ == seen
            &&& final(stack)@ == old(stack)@
        },
{
    let ghost n = (nx as int, ny as int);
    proof {
        lemma_cell_index(*img, n, n);
    }
    let i = ny * (img.width as usize) + nx;
    if !visited[i] && pixel_is_near(img, nx as u32, ny as u32, color, tolerance) {
        visited.set(i, true);
        stack.push((nx, ny));
        proof {
            assert forall|c: Cell| in_image(*img, c) implies (#[trigger] visited@[cell_index(*img, c)]
                <==> seen.insert(n).contains(c)) by {
                lemma_cell_index(*img, c, n);
            }
        }
        Ghost(seen.insert(n))
    } else {
        Ghost(seen)
    }
}

/// The cells seen while filling a cluster from a start cell.
pub open spec fn fill_state_ok(
    img: RgbaPixels,
    color: (u8, u8, u8),
    tolerance: u8,
    start: Cell,
    prev: Set<Cell>,
    cur: Set<Cell>,
    done: Set<Cell>,
    stack: Seq<(usize, usize)>,
) -> bool {
    &&& forall|c: Cell| #[trigger] cur.contains(c) ==> in_image(img, c) && near_cell(img, color, tolerance, c)
        && reaches(img, color, tolerance, start, c) && !prev.contains(c)
    &&& cur.contains(start)
    &&& forall|c: Cell| #[trigger] done.contains(c) ==> cur.contains(c)
    &&& forall|i: int| 0 <= i < stack.len() ==> (#[trigger] stack[i]).0 < img.width && stack[i].1 < img.height
        && cur.contains((stack[i].0 as int, stack[i].1 as int)) && !done.contains((stack[i].0 as int, stack[i].1 as int))
    &&& forall|c: Cell| #[trigger] cur.contains(c) && !done.contains(c) ==> exists|i: int| 0 <= i < stack.len()
        && (#[trigger] stack[i]).0 as int == c.0 && stack[i].1 as int == c.1
    &&& forall|i: int, j: int| 0 <= i < j < stack.len() ==> #[trigger] stack[i] != #[trigger] stack[j]
}

/// The cells a fill leaves seen are closed: every near neighbor of a seen cell is seen.
pub open spec fn closed_under_near(img: RgbaPixels, color: (u8, u8, u8), tolerance: u8, set: Set<Cell>) -> bool {
    forall|c: Cell, k: int| #![trigger set.contains(c), neighbor(img, c, k)]
        set.contains(c) && 0 <= k < 4 && near_cell(img, color, tolerance, neighbor(img, c, k))
            ==> set.contains(neighbor(img, c, k))
}

/// The visited flags mirror a set of cells.
pub open spec fn flags_mirror(img: RgbaPixels, visited: Seq<bool>, set: Set<Cell>) -> bool {
    &&& visited.len() == (img.width as int) * (img.height as int)
    &&& forall|c: Cell| in_image(img, c) ==> (#[trigger] visited[cell_index(img, c)] <==> set.contains(c))
}

proof fn lemma_neighbor_in_image(img: RgbaPixels, c: Cell, k: int)
    requires
        in_image(img, c),
        0 <= k < 4,
    ensures
        in_image(img, neighbor(img, c, k)),
        adjacent(img, c, neighbor(img, c, k)),
{
}

proof fn lemma_pop_keeps_state(
    img: RgbaPixels,
    color: (u8, u8, u8),
    tolerance: u8,
    start: Cell,
    prev: Set<Cell>,
    cur: Set<Cell>,
    done: Set<Cell>,
    stack: Seq<(usize, usize)>,
)
    requires
        fill_state_ok(img, color, tolerance, start, prev, cur, done, stack),
        stack.len() > 0,
    ensures
        ({
            let c = (stack.last().0 as int, stack.last().1 as int);
            &&& cur.contains(c)
            &&& !done.contains(c)
            &&& in_image(img, c)
            &&& fill_state_ok(img, color, tolerance, start, prev, cur, done.insert(c), stack.drop_last())
        }),
{
    let c = (stack.last().0 as int, stack.last().1 as int);
    let t = stack.drop_last();
    let d2 = done.insert(c);
    assert(stack[stack.len() - 1] == stack.last());
    assert forall|i: int| 0 <= i < t.len() implies (#[trigger] t[i]).0 < img.width && t[i].1 < img.height
        && cur.contains((t[i].0 as int, t[i].1 as int)) && !d2.contains((t[i].0 as int, t[i].1 as int)) by {
        assert(t[i] == stack[i]);
        assert(stack[i] != stack[stack.len() - 1]);
    }
    assert forall|e: Cell| #[trigger] cur.contains(e) && !d2.contains(e) implies exists|i: int| 0 <= i < t.len()
        && (#[trigger] t[i]).0 as int == e.0 && t[i].1 as int == e.1 by {
        let i = choose|i: int| 0 <= i < stack.len() && (#[trigger] stack[i]).0 as int == e.0 && stack[i].1 as int == e.1;
        assert(i != stack.len() - 1);
        assert(t[i] == stack[i]);
    }
    assert forall|i: int, j: int| 0 <= i < j < t.len() implies #[trigger] t[i] != #[trigger] t[j] by {
        assert(t[i] == stack[i] && t[j] == stack[j]);
    }
}

proof fn lemma_push_keeps_state(
    img: RgbaPixels,
    color: (u8, u8, u8),
    tolerance: u8,
    start: Cell,
    prev: Set<Cell>,
    cur: Set<Cell>,
    done: Set<Cell>,
    stack: Seq<(usize, usize)>,
    seen: Set<Cell>,
    c: Cell,
    k: int,
    nx: usize,
    ny: usize,
)
    requires
        fill_state_ok(img, color, tolerance, start, prev, cur, done, stack),
        forall|d: Cell| #[trigger] seen.contains(d) <==> (prev.contains(d) || cur.contains(d)),
        cur.contains(c),
        0 <= k < 4,
        neighbor(img, c, k) == (nx as int, ny as int),
        nx < img.width,
        ny < img.height,
        near_cell(img, color, tolerance, (nx as int, ny as int)),
        !seen.contains((nx as int, ny as int)),
    ensures
        fill_state_ok(img, color, tolerance, start, prev, cur.insert((nx as int, ny as int)), done, stack.push((nx, ny))),
        forall|d: Cell| #[trigger] seen.insert((nx as int, ny as int)).contains(d) <==> (prev.contains(d)
            || cur.insert((nx as int, ny as int)).contains(d)),
{
    let n = (nx as int, ny as int);
    let cur2 = cur.insert(n);
    let t = stack.push((nx, ny));
    assert(in_image(img, c));
    lemma_neighbor_in_image(img, c, k);
    lemma_reach_step(img, color, tolerance, start, c, n);
    assert forall|e: Cell| #[trigger] cur2.contains(e) implies in_image(img, e) && near_cell(img, color, tolerance, e)
        && reaches(img, color, tolerance, start, e) && !prev.contains(e) by {
        if e != n {
            assert(cur.contains(e));
        }
    }
    assert forall|i: int| 0 <= i < t.len() implies (#[trigger] t[i]).0 < img.width && t[i].1 < img.height
        && cur2.contains((t[i].0 as int, t[i].1 as int)) && !done.contains((t[i].0 as int, t[i].1 as int)) by {
        if i < stack.len() {
            assert(t[i] == stack[i]);
        } else {
            assert(t[i] == (nx, ny));
            assert(!cur.contains(n));
        }
    }
    assert forall|e: Cell| #[trigger] cur2.contains(e) && !done.contains(e) implies exists|i: int| 0 <= i < t.len()
        && (#[trigger] t[i]).0 as int == e.0 && t[i].1 as int == e.1 by {
        if e == n {
            assert(t[stack.len() as int] == (nx, ny));
        } else {
            let i = choose|i: int| 0 <= i < stack.len() && (#[trigger] stack[i]).0 as int == e.0 && stack[i].1 as int == e.1;
            assert(t[i] == stack[i]);
        }
    }
    assert forall|i: int, j: int| 0 <= i < j < t.len() implies #[trigger] t[i] != #[trigger] t[j] by {
        if j == stack.len() {
            assert(t[j] == (nx, ny));
            assert(t[i] == stack[i]);
            assert(cur.contains((stack[i].0 as int, stack[i].1 as int)));
        } else {
            assert(t[i] == stack[i] && t[j] == stack[j]);
        }
    }
}

/// Fills the cluster of the start cell: marks it visited and sums its cells, their columns and
/// their rows. The cells visited before form whole clusters not holding the start.
fn fill_cluster(
    img: &RgbaPixels,
    color: (u8, u8, u8),
    tolerance: u8,
    visited: &mut Vec<bool>,
    sx: usize,
    sy: usize,
    Ghost(prev): Ghost<Set<Cell>>,
) -> (r: (u64, u64, u64))
    requires
        pixels_wf(*img),
        (img.width as int) * (img.height as int) <= u32::MAX,
        flags_mirror(*img, old(visited)@, prev),
        forall|c: Cell| #[trigger] prev.contains(c) ==> near_cell(*img, color, tolerance, c),
        closed_under_near(*img, color, tolerance, prev),
        near_cell(*img, color, tolerance, (sx as int, sy as int)),
        !prev.contains((sx as int, sy as int)),
    ensures
        flags_mirror(
            *img,
            final(visited)@,
            prev.union(Set::new(|c: Cell| reaches(*img, color, tolerance, (sx as int, sy as int), c))),
        ),
        r.0 as int == cluster_size(*img, color, tolerance, (sx as int, sy as int)),
        r.1 as int == cluster_sum_x(*img, color, tolerance, (sx as int, sy as int)),
        r.2 as int == cluster_sum_y(*img, color, tolerance, (sx as int, sy as int)),
{
    let ghost start: Cell = (sx as int, sy as int);
    let ghost w = img.width as nat;
    let ghost h = img.height as nat;
    let ghost mut cur: Set<Cell> = Set::empty().insert(start);
    let ghost mut done: Set<Cell> = Set::empty();
    let ghost mut seen: Set<Cell> = prev.insert(start);
    let width = img.width as usize;
    let height = img.height as usize;
    proof {
        lemma_cell_index(*img, start, start);
        lemma_reach_self(*img, color, tolerance, start);
    }
    let first = sy * width + sx;
    visited.set(first, true);
    proof {
        assert forall|c: Cell| in_image(*img, c) implies (#[trigger] visited@[cell_index(*img, c)]
            <==> seen.contains(c)) by {
            lemma_cell_index(*img, c, start);
        }
    }
    let mut stack: Vec<(usize, usize)> = Vec::new();
    stack.push((sx, sy));
    let mut count: u64 = 0;
    let mut sum_x: u64 = 0;
    let mut sum_y: u64 = 0;
    proof {
        lemma_empty_totals(unit(), w, h);
        lemma_empty_totals(column(), w, h);
        lemma_empty_totals(row(), w, h);
        lemma_grid_total_ext(|d: Cell| done.contains(d), |d: Cell| false, unit(), w, h);
        lemma_grid_total_ext(|d: Cell| done.contains(d), |d: Cell| false, column(), w, h);
        lemma_grid_total_ext(|d: Cell| done.contains(d), |d: Cell| false, row(), w, h);
        lemma_grid_total_insert(|d: Cell| false, |d: Cell| cur.contains(d), unit(), w, h, start);
        assert(fill_state_ok(*img, color, tolerance, start, prev, cur, done, stack@)) by {
            assert forall|c: Cell| #[trigger] cur.contains(c) && !done.contains(c) implies exists|i: int|
                0 <= i < stack@.len() && (#[trigger] stack@[i]).0 as int == c.0 && stack@[i].1 as int == c.1 by {
                assert(stack@[0].0 as int == c.0 && stack@[0].1 as int == c.1);
            }
        }
    }
    while stack.len() > 0
        invariant
            pixels_wf(*img),
            (img.width as int) * (img.height as int) <= u32::MAX,
            width == img.width as usize,
            height == img.height as usize,
            w == img.width as nat,
            h == img.height as nat,
            flags_mirror(*img, visited@, seen),
            forall|c: Cell| #[trigger] seen.contains(c) <==> (prev.contains(c) || cur.contains(c)),
            forall|c: Cell| #[trigger] prev.contains(c) ==> near_cell(*img, color, tolerance, c),
            closed_under_near(*img, color, tolerance, prev),
            fill_state_ok(*img, color, tolerance, start, prev, cur, done, stack@),
            forall|c: Cell, k: int| #![trigger done.contains(c), neighbor(*img, c, k)]
                done.contains(c) && 0 <= k < 4 && near_cell(*img, color, tolerance, neighbor(*img, c, k))
                    ==> seen.contains(neighbor(*img, c, k)),
            count as int == grid_total(|d: Cell| done.contains(d), unit(), w, h),
            sum_x as int == grid_total(|d: Cell| done.contains(d), column(), w, h),
            sum_y as int == grid_total(|d: Cell| done.contains(d), row(), w, h),
            grid_total(|d: Cell| cur.contains(d), unit(), w, h) <= (w as int) * (h as int),
            grid_total(|d: Cell| cur.contains(d), unit(), w, h) >= grid_total(|d: Cell| done.contains(d), unit(), w, h) + stack@.len(),
        decreases 2 * ((w as int) * (h as int) - grid_total(|d: Cell| cur.contains(d), unit(), w, h)) + stack@.len(),
    {
        let ghost before_stack = stack@;
        let ghost old_done = done;
        let ghost g0 = grid_total(|d: Cell| cur.contains(d), unit(), w, h);
        proof {
            lemma_pop_keeps_state(*img, color, tolerance, start, prev, cur, done, stack@);
        }
        let (x, y) = stack.pop().unwrap();
        let ghost c: Cell = (x as int, y as int);
        proof {
            assert(before_stack.last() == (x, y));
            assert(stack@ == before_stack.drop_last());
            done = done.insert(c);
            lemma_grid_total_insert(|d: Cell| old_done.contains(d), |d: Cell| done.contains(d), unit(), w, h, c);
            lemma_grid_total_insert(|d: Cell| old_done.contains(d), |d: Cell| done.contains(d), column(), w, h, c);
            lemma_grid_total_insert(|d: Cell| old_done.contains(d), |d: Cell| done.contains(d), row(), w, h, c);
            lemma_grid_total_bounds(|d: Cell| done.contains(d), unit(), w, h, 1);
            lemma_grid_total_relative(|d: Cell| done.contains(d), column(), w, h, w - 1);
            lemma_grid_total_relative(|d: Cell| done.contains(d), row(), w, h, h - 1);
            let n = grid_total(|d: Cell| done.contains(d), unit(), w, h);
            assert((w - 1) * n <= 0xFFFF_FFFF * 0xFFFF_FFFF) by (nonlinear_arith)
                requires
                    0 <= n <= 1 * w * h,
                    w * h <= 0xFFFF_FFFF,
                    1 <= w,
            ;
            assert((h - 1) * n <= 0xFFFF_FFFF * 0xFFFF_FFFF) by (nonlinear_arith)
                requires
                    0 <= n <= 1 * w * h,
                    w * h <= 0xFFFF_FFFF,
                    1 <= h,
            ;
        }
        count = count + 1;
        sum_x = sum_x + x as u64;
        sum_y = sum_y + y as u64;
        let nbs = neighbors(x, y, width, height);
        proof {
            lemma_neighbor_in_image(*img, c, 0);
            lemma_neighbor_in_image(*img, c, 1);
            lemma_neighbor_in_image(*img, c, 2);
            lemma_neighbor_in_image(*img, c, 3);
        }
        let mut k: usize = 0;
        while k < 4
            invariant
                pixels_wf(*img),
                (img.width as int) * (img.height as int) <= u32::MAX,
                width == img.width as usize,
                height == img.height as usize,
                w == img.width as nat,
                h == img.height as nat,
                k <= 4,
                in_image(*img, c),
                done.contains(c),
                forall|j: int| 0 <= j < 4 ==> (#[trigger] nbs@[j]).0 as int == neighbor(*img, c, j).0
                    && nbs@[j].1 as int == neighbor(*img, c, j).1 && nbs@[j].0 < img.width && nbs@[j].1 < img.height,
                flags_mirror(*img, visited@, seen),
                forall|d: Cell| #[trigger] seen.contains(d) <==> (prev.contains(d) || cur.contains(d)),
                fill_state_ok(*img, color, tolerance, start, prev, cur, done, stack@),
                forall|j: int| 0 <= j < k && near_cell(*img, color, tolerance, #[trigger] neighbor(*img, c, j))
                    ==> seen.contains(neighbor(*img, c, j)),
                forall|d: Cell, j: int| #![trigger done.contains(d), neighbor(*img, d, j)]
                    done.contains(d) && d != c && 0 <= j < 4 && near_cell(*img, color, tolerance, neighbor(*img, d, j))
                        ==> seen.contains(neighbor(*img, d, j)),
                grid_total(|d: Cell| cur.contains(d), unit(), w, h) <= (w as int) * (h as int),
                grid_total(|d: Cell| cur.contains(d), unit(), w, h) >= grid_total(|d: Cell| done.contains(d), unit(), w, h) + stack@.len(),
                grid_total(|d: Cell| cur.contains(d), unit(), w, h) - stack@.len() >= grid_total(|d: Cell| old_done.contains(d), unit(), w, h) + 1,
                grid_total(|d: Cell| cur.contains(d), unit(), w, h) - stack@.len() == g0 - (before_stack.len() - 1),
                grid_total(|d: Cell| cur.contains(d), unit(), w, h) >= g0,
            decreases 4 - k,
        {
            let (nx, ny) = nbs[k];
            let ghost n: Cell = (nx as int, ny as int);
            let ghost seen_before = seen;
            let ghost cur_before = cur;
            let ghost stack_before = stack@;
            proof {
                assert(n == neighbor(*img, c, k as int));
            }
            let Ghost(next_seen) = stack_if_new(img, color, tolerance, visited, &mut stack, nx, ny, Ghost(seen));
            proof {
                if near_cell(*img, color, tolerance, n) && !seen_before.contains(n) {
                    lemma_push_keeps_state(*img, color, tolerance, start, prev, cur, done, stack_before, seen_before, c, k as int, nx, ny);
                    cur = cur.insert(n);
                    lemma_grid_total_insert(|d: Cell| cur_before.contains(d), |d: Cell| cur.contains(d), unit(), w, h, n);
                    lemma_grid_total_bounds(|d: Cell| cur.contains(d), unit(), w, h, 1);
                }
                seen = next_seen;
            }
            k = k + 1;
        }
        proof {
            assert forall|d: Cell, j: int| #![trigger done.contains(d), neighbor(*img, d, j)]
                done.contains(d) && 0 <= j < 4 && near_cell(*img, color, tolerance, neighbor(*img, d, j))
                    implies seen.contains(neighbor(*img, d, j)) by {
                if d == c {
                    assert(near_cell(*img, color, tolerance, neighbor(*img, c, j)));
                }
            }
        }
    }
    proof {
        let reach = |d: Cell| reaches(*img, color, tolerance, start, d);
        assert forall|d: Cell| cur.contains(d) implies done.contains(d) by {
            if !done.contains(d) {
                let i = choose|i: int| 0 <= i < stack@.len() && (#[trigger] stack@[i]).0 as int == d.0 && stack@[i].1 as int == d.1;
            }
        }
        assert(closed_under_near(*img, color, tolerance, cur)) by {
            assert forall|d: Cell, j: int| #![trigger cur.contains(d), neighbor(*img, d, j)]
                cur.contains(d) && 0 <= j < 4 && near_cell(*img, color, tolerance, neighbor(*img, d, j))
                    implies cur.contains(neighbor(*img, d, j)) by {
                let nb = neighbor(*img, d, j);
                assert(done.contains(d));
                assert(seen.contains(nb));
                if prev.contains(nb) {
                    lemma_neighbor_in_image(*img, d, j);
                    lemma_adjacent_symmetric(*img, d, nb);
                    if d == neighbor(*img, nb, 0) {
                        assert(prev.contains(neighbor(*img, nb, 0)));
                    } else if d == neighbor(*img, nb, 1) {
                        assert(prev.contains(neighbor(*img, nb, 1)));
                    } else if d == neighbor(*img, nb, 2) {
                        assert(prev.contains(neighbor(*img, nb, 2)));
                    } else {
                        assert(prev.contains(neighbor(*img, nb, 3)));
                    }
                    assert(false);
                }
            }
        }
        assert forall|d: Cell| #[trigger] reach(d) implies cur.contains(d) by {
            lemma_closed_holds_reach(*img, color, tolerance, cur, start, d);
        }
        assert forall|d: Cell| 0 <= d.0 < w && 0 <= d.1 < h implies #[trigger] done.contains(d)
            == reaches(*img, color, tolerance, start, d) by {
            if done.contains(d) {
                assert(cur.contains(d));
            }
            if reach(d) {
                assert(cur.contains(d));
            }
        }
        lemma_grid_total_ext(|e: Cell| done.contains(e), cluster_of(*img, color, tolerance, start), unit(), w, h);
        lemma_grid_total_ext(|e: Cell| done.contains(e), cluster_of(*img, color, tolerance, start), column(), w, h);
        lemma_grid_total_ext(|e: Cell| done.contains(e), cluster_of(*img, color, tolerance, start), row(), w, h);
        let target = prev.union(Set::new(|e: Cell| reaches(*img, color, tolerance, start, e)));
        assert forall|e: Cell| in_image(*img, e) implies (#[trigger] visited@[cell_index(*img, e)]
            <==> target.contains(e)) by {
            assert(visited@[cell_index(*img, e)] <==> seen.contains(e));
            if cur.contains(e) {
                assert(reach(e));
            }
            if reach(e) {
                assert(cur.contains(e));
            }
        }
    }
    (count, sum_x, sum_y)
}

proof fn lemma_total_positive(pred: spec_fn(Cell) -> bool, w: nat, rows: nat, c: Cell)
    requires
        pred(c),
        0 <= c.0 < w,
        0 <= c.1 < rows,
    ensures
        grid_total(pred, unit(), w, rows) >= 1,
{
    let smaller = |d: Cell| pred(d) && d != c;
    assert forall|d: Cell| #[trigger] pred(d) == (smaller(d) || d == c) by {}
    lemma_grid_total_insert(smaller, pred, unit(), w, rows, c);
    lemma_grid_total_bounds(smaller, unit(), w, rows, 1);
}

/// The cluster a color match picks: a cluster with at least the minimum of cells, the largest
/// such, the first in scan order among equals (named by its first cell).
pub open spec fn best_cluster(img: RgbaPixels, color: (u8, u8, u8), tolerance: u8, min_pixels: u32, b: Cell) -> bool {
    &&& cluster_root(img, color, tolerance, b)
    &&& cluster_size(img, color, tolerance, b) >= min_pixels
    &&& forall|c: Cell| #[trigger] cluster_root(img, color, tolerance, c) && cluster_size(img, color, tolerance, c)
        >= min_pixels ==> cluster_size(img, color, tolerance, c) <= cluster_size(img, color, tolerance, b) && (
        scanned_before(c, b) ==> cluster_size(img, color, tolerance, c) < cluster_size(img, color, tolerance, b))
}

/// The visited cells at a scan position: the near cells whose cluster holds a cell scanned
/// before it.
pub open spec fn scan_visited_ok(img: RgbaPixels, color: (u8, u8, u8), tolerance: u8, set: Set<Cell>, pos: Cell) -> bool {
    forall|c: Cell| #[trigger] set.contains(c) <==> (near_cell(img, color, tolerance, c) && exists|d: Cell|
        #[trigger] reaches(img, color, tolerance, c, d) && scanned_before(d, pos))
}

/// What the scan has found before a position.
pub open spec fn scan_best_ok(
    img: RgbaPixels,
    color: (u8, u8, u8),
    tolerance: u8,
    min_pixels: u32,
    best: Option<(usize, usize, u64, u64, u64)>,
    pos: Cell,
) -> bool {
    match best {
        None => forall|c: Cell| #[trigger] cluster_root(img, color, tolerance, c) && scanned_before(c, pos)
            ==> cluster_size(img, color, tolerance, c) < min_pixels,
        Some((bx, by, n, sx, sy)) => {
            let b = (bx as int, by as int);
            &&& cluster_root(img, color, tolerance, b)
            &&& scanned_before(b, pos)
            &&& n as int == cluster_size(img, color, tolerance, b)
            &&& sx as int == cluster_sum_x(img, color, tolerance, b)
            &&& sy as int == cluster_sum_y(img, color, tolerance, b)
            &&& n >= min_pixels
            &&& n >= 1
            &&& forall|c: Cell| #[trigger] cluster_root(img, color, tolerance, c) && scanned_before(c, pos)
                && cluster_size(img, color, tolerance, c) >= min_pixels ==> cluster_size(img, color, tolerance, c) <= n
                && (scanned_before(c, b) ==> cluster_size(img, color, tolerance, c) < n)
        },
    }
}

proof fn lemma_visited_closed(img: RgbaPixels, color: (u8, u8, u8), tolerance: u8, set: Set<Cell>, pos: Cell)
    requires
        scan_visited_ok(img, color, tolerance, set, pos),
    ensures
        closed_under_near(img, color, tolerance, set),
        forall|c: Cell| #[trigger] set.contains(c) ==> near_cell(img, color, tolerance, c),
{
    assert forall|c: Cell, k: int| #![trigger set.contains(c), neighbor(img, c, k)]
        set.contains(c) && 0 <= k < 4 && near_cell(img, color, tolerance, neighbor(img, c, k))
            implies set.contains(neighbor(img, c, k)) by {
        let nb = neighbor(img, c, k);
        let d = choose|d: Cell| #[trigger] reaches(img, color, tolerance, c, d) && scanned_before(d, pos);
        lemma_neighbor_in_image(img, c, k);
        lemma_reach_self(img, color, tolerance, c);
        lemma_reach_step(img, color, tolerance, c, c, nb);
        lemma_reach_symmetric(img, color, tolerance, c, nb);
        lemma_reach_transitive(img, color, tolerance, nb, c, d);
    }
}

/// The cell after `pos` in scan order.
pub open spec fn next_position(img: RgbaPixels, pos: Cell) -> Cell {
    if pos.0 + 1 < img.width { (pos.0 + 1, pos.1) } else { (0, pos.1 + 1) }
}

proof fn lemma_scan_next(img: RgbaPixels, pos: Cell, d: Cell)
    requires
        in_image(img, pos),
        in_image(img, d),
    ensures
        scanned_before(d, next_position(img, pos)) <==> (scanned_before(d, pos) || d == pos),
{
}

/// Finds the largest connected cluster of pixels within the tolerance of the target color
/// (neighbors left, right, up and down), among clusters of at least `min_pixels` pixels, the
/// first in scan order among equals; reports its centroid (rounded down) and its size.
pub fn detect_color_match(img: &RgbaPixels, target: (u8, u8, u8), tolerance: u8, min_pixels: u32) -> (r: Option<
    DetectorMatch,
>)
    requires
        pixels_wf(*img),
        (img.width as int) * (img.height as int) <= u32::MAX,
        img.width <= i32::MAX,
        img.height <= i32::MAX,
    ensures
        match r {
            None => forall|c: Cell| #[trigger] cluster_root(*img, target, tolerance, c) ==> cluster_size(
                *img,
                target,
                tolerance,
                c,
            ) < min_pixels,
            Some(d) => exists|b: Cell| #[trigger] best_cluster(*img, target, tolerance, min_pixels, b)
                && d.pixel_count as int == cluster_size(*img, target, tolerance, b)
                && d.x as int == cluster_sum_x(*img, target, tolerance, b) / cluster_size(*img, target, tolerance, b)
                && d.y as int == cluster_sum_y(*img, target, tolerance, b) / cluster_size(*img, target, tolerance, b),
        },
{
    let width = img.width as usize;
    let height = img.height as usize;
    proof {
        assert((width as int) * (height as int) <= u32::MAX);
    }
    let total = width * height;
    let mut visited: Vec<bool> = Vec::new();
    let mut i: usize = 0;
    while i < total
        invariant
            i <= total,
            visited@.len() == i,
            forall|j: int| 0 <= j < i ==> !(#[trigger] visited@[j]),
        decreases total - i,
    {
        visited.push(false);
        i = i + 1;
    }
    let ghost mut vset: Set<Cell> = Set::empty();
    proof {
        assert forall|c: Cell| in_image(*img, c) implies (#[trigger] visited@[cell_index(*img, c)] <==> vset.contains(c)) by {
            lemma_cell_index(*img, c, c);
        }
    }
    let mut best: Option<(usize, usize, u64, u64, u64)> = None;
    let mut x: usize = 0;
    let mut y: usize = 0;
    if width == 0 {
        y = height;
    }
    proof {
        assert forall|c: Cell| #[trigger] vset.contains(c) <==> (near_cell(*img, target, tolerance, c) && exists|d: Cell|
            #[trigger] reaches(*img, target, tolerance, c, d) && scanned_before(d, (x as int, y as int))) by {
            if near_cell(*img, target, tolerance, c) && exists|d: Cell|
                #[trigger] reaches(*img, target, tolerance, c, d) && scanned_before(d, (x as int, y as int)) {
                let d = choose|d: Cell| #[trigger] reaches(*img, target, tolerance, c, d) && scanned_before(d, (x as int, y as int));
                lemma_reach_ends_near(*img, target, tolerance, c, d);
            }
        }
    }
    while y < height
        invariant
            pixels_wf(*img),
            (img.width as int) * (img.height as int) <= u32::MAX,
            img.width <= i32::MAX,
            img.height <= i32::MAX,
            width == img.width as usize,
            height == img.height as usize,
            y <= height,
            y < height ==> x < width,
            y == height ==> x == 0,
            flags_mirror(*img, visited@, vset),
            scan_visited_ok(*img, target, tolerance, vset, (x as int, y as int)),
            scan_best_ok(*img, target, tolerance, min_pixels, best, (x as int, y as int)),
        decreases height - y, width - x,
    {
        let ghost pos: Cell = (x as int, y as int);
        let ghost old_set = vset;
        let ghost old_best = best;
        proof {
            lemma_cell_index(*img, pos, pos);
            lemma_visited_closed(*img, target, tolerance, vset, pos);
        }
        let index = y * width + x;
        let near_here = pixel_is_near(img, x as u32, y as u32, target, tolerance);
        if near_here && !visited[index] {
            proof {
                assert(!vset.contains(pos));
                assert forall|d: Cell| #[trigger] reaches(*img, target, tolerance, pos, d) implies !scanned_before(d, pos) by {
                    if scanned_before(d, pos) {
                        assert(vset.contains(pos));
                    }
                }
                assert(cluster_root(*img, target, tolerance, pos));
            }
            let (count, sum_x, sum_y) = fill_cluster(img, target, tolerance, &mut visited, x, y, Ghost(vset));
            proof {
                vset = old_set.union(Set::new(|c: Cell| reaches(*img, target, tolerance, pos, c)));
                lemma_reach_self(*img, target, tolerance, pos);
                lemma_total_positive(cluster_of(*img, target, tolerance, pos), img.width as nat, img.height as nat, pos);
            }
            let take = count >= min_pixels as u64 && match best {
                None => true,
                Some((_, _, n, _, _)) => count > n,
            };
            if take {
                best = Some((x, y, count, sum_x, sum_y));
            }
            proof {
                let next = next_position(*img, pos);
                assert forall|c: Cell| #[trigger] vset.contains(c) <==> (near_cell(*img, target, tolerance, c) && exists|d: Cell|
                    #[trigger] reaches(*img, target, tolerance, c, d) && scanned_before(d, next)) by {
                    if vset.contains(c) {
                        if old_set.contains(c) {
                            let d = choose|d: Cell| #[trigger] reaches(*img, target, tolerance, c, d) && scanned_before(d, pos);
                            lemma_reach_ends_near(*img, target, tolerance, c, d);
                            lemma_scan_next(*img, pos, d);
                        } else {
                            lemma_reach_ends_near(*img, target, tolerance, pos, c);
                            lemma_reach_symmetric(*img, target, tolerance, pos, c);
                            lemma_scan_next(*img, pos, pos);
                        }
                    }
                    if near_cell(*img, target, tolerance, c) && exists|d: Cell|
                        #[trigger] reaches(*img, target, tolerance, c, d) && scanned_before(d, next) {
                        let d = choose|d: Cell| #[trigger] reaches(*img, target, tolerance, c, d) && scanned_before(d, next);
                        lemma_reach_ends_near(*img, target, tolerance, c, d);
                        lemma_scan_next(*img, pos, d);
                        if d == pos {
                            lemma_reach_symmetric(*img, target, tolerance, c, pos);
                        }
                    }
                }
                assert forall|c: Cell| #[trigger] cluster_root(*img, target, tolerance, c) && scanned_before(c, next)
                    implies scanned_before(c, pos) || c == pos by {
                    lemma_scan_next(*img, pos, c);
                }
            }
        } else {
            proof {
                let next = next_position(*img, pos);
                assert(!cluster_root(*img, target, tolerance, pos)) by {
                    if near_cell(*img, target, tolerance, pos) {
                        assert(vset.contains(pos));
                        let d = choose|d: Cell| #[trigger] reaches(*img, target, tolerance, pos, d) && scanned_before(d, pos);
                    }
                }
                assert forall|c: Cell| #[trigger] vset.contains(c) <==> (near_cell(*img, target, tolerance, c) && exists|d: Cell|
                    #[trigger] reaches(*img, target, tolerance, c, d) && scanned_before(d, next)) by {
                    if vset.contains(c) {
                        let d = choose|d: Cell| #[trigger] reaches(*img, target, tolerance, c, d) && scanned_before(d, pos);
                        lemma_reach_ends_near(*img, target, tolerance, c, d);
                        lemma_scan_next(*img, pos, d);
                    }
                    if near_cell(*img, target, tolerance, c) && exists|d: Cell|
                        #[trigger] reaches(*img, target, tolerance, c, d) && scanned_before(d, next) {
                        let d = choose|d: Cell| #[trigger] reaches(*img, target, tolerance, c, d) && scanned_before(d, next);
                        lemma_reach_ends_near(*img, target, tolerance, c, d);
                        lemma_scan_next(*img, pos, d);
                        if d == pos {
                            assert(vset.contains(pos));
                            let e = choose|e: Cell| #[trigger] reaches(*img, target, tolerance, pos, e) && scanned_before(e, pos);
                            lemma_reach_transitive(*img, target, tolerance, c, pos, e);
                        }
                    }
                }
                assert forall|c: Cell| #[trigger] cluster_root(*img, target, tolerance, c) && scanned_before(c, next)
                    implies scanned_before(c, pos) by {
                    lemma_scan_next(*img, pos, c);
                }
            }
        }
        if x + 1 < width {
            x = x + 1;
        } else {
            x = 0;
            y = y + 1;
        }
    }
    proof {
        assert forall|c: Cell| #[trigger] cluster_root(*img, target, tolerance, c) implies scanned_before(c, (x as int, y as int)) by {}
    }
    match best {
        None => None,
        Some((bx, by, n, sx, sy)) => {
            let ghost b: Cell = (bx as int, by as int);
            proof {
                lemma_grid_total_relative(cluster_of(*img, target, tolerance, b), column(), img.width as nat, img.height as nat, img.width - 1);
                lemma_grid_total_relative(cluster_of(*img, target, tolerance, b), row(), img.width as nat, img.height as nat, img.height - 1);
                lemma_grid_total_bounds(cluster_of(*img, target, tolerance, b), unit(), img.width as nat, img.height as nat, 1);
                assert(sx / n <= img.width - 1) by (nonlinear_arith)
                    requires
                        sx <= (img.width - 1) * n,
                        n >= 1,
                        img.width >= 1,
                ;
                assert(sy / n <= img.height - 1) by (nonlinear_arith)
                    requires
                        sy <= (img.height - 1) * n,
                        n >= 1,
                        img.height >= 1,
                ;
                assert(best_cluster(*img, target, tolerance, min_pixels, b));
            }
            Some(DetectorMatch { x: (sx / n) as i32, y: (sy / n) as i32, pixel_count: n as u32 })
        },
    }
}

/// The cells of the image whose pixel is near the color.
pub open spec fn near_cells(img: RgbaPixels, color: (u8, u8, u8), tolerance: u8) -> spec_fn(Cell) -> bool {
    |d: Cell| near_cell(img, color, tolerance, d)
}

/// Counts the pixels of the image within the tolerance of the color, connected or not.
pub fn detect_all_matching_pixels(img: &RgbaPixels, target: (u8, u8, u8), tolerance: u8) -> (r: u32)
    requires
        pixels_wf(*img),
        (img.width as int) * (img.height as int) <= u32::MAX,
    ensures
        r as int == grid_total(near_cells(*img, target, tolerance), unit(), img.width as nat, img.height as nat),
{
    let ghost pred = near_cells(*img, target, tolerance);
    let ghost w = img.width as nat;
    let mut count: u32 = 0;
    let mut y: u32 = 0;
    while y < img.height
        invariant
            pixels_wf(*img),
            (img.width as int) * (img.height as int) <= u32::MAX,
            pred == near_cells(*img, target, tolerance),
            w == img.width as nat,
            y <= img.height,
            count as int == grid_total(pred, unit(), w, y as nat),
        decreases img.height - y,
    {
        let mut x: u32 = 0;
        while x < img.width
            invariant
                pixels_wf(*img),
                (img.width as int) * (img.height as int) <= u32::MAX,
                pred == near_cells(*img, target, tolerance),
                w == img.width as nat,
                y < img.height,
                x <= img.width,
                count as int == grid_total(pred, unit(), w, y as nat) + row_total(pred, unit(), y as int, x as nat),
            decreases img.width - x,
        {
            proof {
                lemma_grid_total_bounds(pred, unit(), w, y as nat, 1);
                lemma_row_total_bounds(pred, unit(), y as int, x as nat, 1);
                assert(1 * w * (y as int) + x < (img.width as int) * (img.height as int)) by (nonlinear_arith)
                    requires
                        w == img.width,
                        x < img.width,
                        y < img.height,
                ;
            }
            if pixel_is_near(img, x, y, target, tolerance) {
                count = count + 1;
            }
            x = x + 1;
        }
        y = y + 1;
    }
    count
}

// ----------------------------------------------------------------------------------------------
// Detectors of a profile.
/// A profile's detector, ready to run: a color to look for, or a loaded template.
#[derive(Debug, PartialEq, Eq)]
pub enum PreparedDetector {
    ColorMatch { red: u8, green: u8, blue: u8, tolerance: u8, min_pixels: u32 },
    TemplateMatch { template: RgbaPixels, pixel_tolerance: u8, min_match_percent: u8, sample_stride: u32 },
}

/// Prepares a profile's detector; a template detector takes its loaded template image.
pub fn prepare_detector(detector: &Option<ProfileDetector>, template: Option<RgbaPixels>) -> (r: Option<PreparedDetector>)
    requires
        detector matches Some(ProfileDetector::TemplateMatch { .. }) ==> template is Some,
    ensures
        match *detector {
            None => r is None,
            Some(ProfileDetector::ColorMatch { red, green, blue, tolerance, min_pixels }) => r == Some(
                PreparedDetector::ColorMatch { red, green, blue, tolerance, min_pixels },
            ),
            Some(ProfileDetector::TemplateMatch { pixel_tolerance, min_match_percent, sample_stride, .. }) => r
                == Some(PreparedDetector::TemplateMatch {
                template: template.unwrap(),
                pixel_tolerance,
                min_match_percent,
                sample_stride,
            }),
        },
{
    match detector {
        None => None,
        Some(ProfileDetector::ColorMatch { red, green, blue, tolerance, min_pixels }) => Some(
            PreparedDetector::ColorMatch {
                red: *red,
                green: *green,
                blue: *blue,
                tolerance: *tolerance,
                min_pixels: *min_pixels,
            },
        ),
        Some(ProfileDetector::TemplateMatch { pixel_tolerance, min_match_percent, sample_stride, .. }) => {
            let loaded = template.unwrap();
            Some(PreparedDetector::TemplateMatch {
                template: loaded,
                pixel_tolerance: *pixel_tolerance,
                min_match_percent: *min_match_percent,
                sample_stride: *sample_stride,
            })
        },
    }
}

/// Images a detector can run on.
pub open spec fn detector_runs_on(img: RgbaPixels, detector: PreparedDetector) -> bool {
    &&& pixels_wf(img)
    &&& (img.width as int) * (img.height as int) <= u32::MAX
    &&& img.width < i32::MAX
    &&& img.height < i32::MAX
    &&& detector matches PreparedDetector::TemplateMatch { template, .. } ==> {
        &&& pixels_wf(template)
        &&& template.width <= i32::MAX / 3
        &&& template.height <= i32::MAX / 3
        &&& (template.width as int) * (template.height as int) <= u32::MAX
    }
}

/// Runs a prepared detector over a captured image.
pub fn detect_match(img: &RgbaPixels, detector: &PreparedDetector) -> (r: WinrResult<Option<DetectorMatch>>)
    requires
        detector_runs_on(*img, *detector),
    ensures
        r matches Ok(found) && match *detector {
            PreparedDetector::ColorMatch { red, green, blue, tolerance, min_pixels } => match found {
                None => forall|c: Cell| #[trigger] cluster_root(*img, (red, green, blue), tolerance, c) ==> cluster_size(
                    *img,
                    (red, green, blue),
                    tolerance,
                    c,
                ) < min_pixels,
                Some(d) => exists|b: Cell| #[trigger] best_cluster(*img, (red, green, blue), tolerance, min_pixels, b)
                    && d.pixel_count as int == cluster_size(*img, (red, green, blue), tolerance, b)
                    && d.x as int == cluster_sum_x(*img, (red, green, blue), tolerance, b) / cluster_size(*img, (red, green, blue), tolerance, b)
                    && d.y as int == cluster_sum_y(*img, (red, green, blue), tolerance, b) / cluster_size(*img, (red, green, blue), tolerance, b),
            },
            PreparedDetector::TemplateMatch { template, pixel_tolerance, min_match_percent, sample_stride } => {
                &&& !template_fits(*img, template) ==> found is None
                &&& template_fits(*img, template) ==> match found {
                    Some(d) => exists|ox: int, oy: int| #![trigger matched_at(*img, template, pixel_tolerance, effective_stride(sample_stride), ox, oy)]
                        best_placement(*img, template, pixel_tolerance, effective_stride(sample_stride), min_match_percent, ox, oy)
                        && d.pixel_count as nat == matched_at(*img, template, pixel_tolerance, effective_stride(sample_stride), ox, oy)
                        && ox + offset_low(template.width as i32) <= d.x < ox + offset_low(template.width as i32) + offset_span(template.width as i32)
                        && oy + offset_low(template.height as i32) <= d.y < oy + offset_low(template.height as i32) + offset_span(template.height as i32),
                    None => forall|ox2: int, oy2: int|
                        #![trigger qualifies(*img, template, pixel_tolerance, effective_stride(sample_stride), min_match_percent, ox2, oy2)]
                        tried_offset(*img, template, effective_stride(sample_stride), ox2, oy2) ==> !qualifies(
                            *img,
                            template,
                            pixel_tolerance,
                            effective_stride(sample_stride),
                            min_match_percent,
                            ox2,
                            oy2,
                        ),
                }
            },
        },
{
    match detector {
        PreparedDetector::ColorMatch { red, green, blue, tolerance, min_pixels } => Ok(
            detect_color_match(img, (*red, *green, *blue), *tolerance, *min_pixels),
        ),
        PreparedDetector::TemplateMatch { template, pixel_tolerance, min_match_percent, sample_stride } => Ok(
            detect_template_match(img, template, *pixel_tolerance, *min_match_percent, *sample_stride),
        ),
    }
}

} // verus!
