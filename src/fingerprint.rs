use vstd::prelude::*;
use crate::image::{CursorError, CursorImage, Rgba};

verus! {

/// Sum of the four channels of a color, each in `0..=255`.
pub open spec fn channel_sum(c: Rgba) -> nat {
    (c.r + c.g + c.b + c.a) as nat
}

/// What the pixel at column `x`, row `y` adds to a fingerprint sample:
/// its channel sum, or nothing when its color cannot be read.
pub open spec fn sample_value(img: CursorImage, x: int, y: int) -> nat {
    match img.colors@[img.index_of(x, y)] {
        Some(c) => channel_sum(c),
        None => 0,
    }
}

/// `v`, or the last valid coordinate `n - 1` when `v` lies past it.
pub open spec fn clamp_below(v: int, n: int) -> int {
    if v < n {
        v
    } else {
        n - 1
    }
}

/// The hotspot's column in representation pixels (rounded down).
pub open spec fn hot_col(img: CursorImage) -> int {
    (img.rep_width * img.hotspot_x) as int / img.width as int
}

/// The hotspot's row in representation pixels (rounded down).
pub open spec fn hot_row(img: CursorImage) -> int {
    (img.rep_height * img.hotspot_y) as int / img.height as int
}

/// Column of sample `i`: `i` pixels right of the hotspot, kept inside the bitmap.
pub open spec fn sample_col(img: CursorImage, i: int) -> int {
    clamp_below(hot_col(img) + i, img.rep_width as int)
}

/// Row of sample `i`: `i` pixels below the hotspot, kept inside the bitmap.
pub open spec fn sample_row(img: CursorImage, i: int) -> int {
    clamp_below(hot_row(img) + i, img.rep_height as int)
}

/// Channel sum of sample `i` (`i` is 0 for the hotspot pixel, 1 for its
/// diagonal neighbour).
pub open spec fn sample(img: CursorImage, i: int) -> nat {
    sample_value(img, sample_col(img, i), sample_row(img, i))
}

/// Logical size, hotspot and representation size, added up.
pub open spec fn geometry_sum(img: CursorImage) -> int {
    img.width + img.height + img.hotspot_x + img.hotspot_y + img.rep_width + img.rep_height
}

/// The identity of a cursor: its geometry sum plus, rounded down, the sampled
/// channel intensities (`channel / 255`) weighted by `255^i` for sample `i`.
pub open spec fn identity_of(img: CursorImage) -> int {
    geometry_sum(img) + (sample(img, 0) + 255 * sample(img, 1)) / 255
}

proof fn lemma_product_bound(a: int, b: int)
    requires
        0 <= a <= 0xffff_ffff,
        0 <= b <= 0xffff_ffff,
    ensures
        0 <= a * b <= 0xffff_ffff * 0xffff_ffff,
{
    assert(0 <= a * b <= 0xffff_ffff * 0xffff_ffff) by (nonlinear_arith)
        requires 0 <= a <= 0xffff_ffff, 0 <= b <= 0xffff_ffff;
}

proof fn lemma_quotient_bound(a: int, b: int)
    requires
        0 <= a,
        0 < b,
    ensures
        a / b <= a,
{
    assert(a / b <= a) by (nonlinear_arith)
        requires 0 <= a, 0 < b;
}

/// A grid position inside the representation has an index inside `colors`.
pub proof fn lemma_index_in_grid(img: CursorImage, x: int, y: int)
    requires
        img.rep_ok(),
        0 <= x < img.rep_width,
        0 <= y < img.rep_height,
    ensures
        0 <= img.index_of(x, y) < img.colors@.len(),
{
    let (w, h) = (img.rep_width as int, img.rep_height as int);
    assert(0 <= y * w + x < h * w) by (nonlinear_arith)
        requires 0 <= x < w, 0 <= y < h;
    assert(h * w == w * h) by (nonlinear_arith);
}

/// Channel sum of the pixel at column `x`, row `y`, or 0 where unreadable.
fn sample_at(img: &CursorImage, x: u64, y: u64) -> (r: u64)
    requires
        img.rep_ok(),
        x < img.rep_width,
        y < img.rep_height,
    ensures
        r == sample_value(*img, x as int, y as int),
        r <= 1020,
{
    proof {
        lemma_index_in_grid(*img, x as int, y as int);
        lemma_product_bound(y as int, img.rep_width as int);
    }
    let idx: u64 = y * img.rep_width as u64 + x;
    let n: usize = img.colors.len();
    assert(idx < n);
    let px: Option<Rgba> = img.colors[idx as usize];
    match px {
        Some(c) => c.r as u64 + c.g as u64 + c.b as u64 + c.a as u64,
        None => 0,
    }
}

/// Computes `identity_of` for a well-formed snapshot.
pub(crate) fn identity(img: &CursorImage) -> (r: u64)
    requires
        img.wf(),
    ensures
        r == identity_of(*img),
{
    proof {
        lemma_product_bound(img.rep_width as int, img.hotspot_x as int);
        lemma_product_bound(img.rep_height as int, img.hotspot_y as int);
    }
    let col: u64 = img.rep_width as u64 * img.hotspot_x as u64 / img.width as u64;
    let row: u64 = img.rep_height as u64 * img.hotspot_y as u64 / img.height as u64;
    proof {
        lemma_quotient_bound(img.rep_width * img.hotspot_x, img.width as int);
        lemma_quotient_bound(img.rep_height * img.hotspot_y, img.height as int);
    }
    let mut samples: [u64; 2] = [0, 0];
    let mut i: usize = 0;
    while i < 2
        invariant
            img.wf(),
            0 <= i <= 2,
            col == hot_col(*img),
            row == hot_row(*img),
            col <= 0xffff_ffff * 0xffff_ffff,
            row <= 0xffff_ffff * 0xffff_ffff,
            forall|k: int| 0 <= k < i ==> samples[k] == sample(*img, k),
            forall|k: int| 0 <= k < i ==> samples[k] <= 1020,
        decreases 2 - i,
    {
        let x: u64 = if col + (i as u64) < img.rep_width as u64 {
            col + i as u64
        } else {
            img.rep_width as u64 - 1
        };
        let y: u64 = if row + (i as u64) < img.rep_height as u64 {
            row + i as u64
        } else {
            img.rep_height as u64 - 1
        };
        samples[i] = sample_at(img, x, y);
        i = i + 1;
    }
    let base: u64 = img.width as u64 + img.height as u64 + img.hotspot_x as u64
        + img.hotspot_y as u64 + img.rep_width as u64 + img.rep_height as u64;
    base + (samples[0] + 255 * samples[1]) / 255
}

/// The identity of the cursor in `img`.
///
/// Fails with `Unavailable` when the snapshot has no image area or no usable
/// bitmap; otherwise returns `identity_of(img)`, which depends only on the
/// geometry and the two sampled pixels.
pub fn fingerprint(img: &CursorImage) -> (r: Result<u64, CursorError>)
    ensures
        r is Ok <==> img.wf(),
        r is Ok ==> r->Ok_0 == identity_of(*img),
        r is Err ==> r->Err_0 == CursorError::Unavailable(img.defect()),
{
    match img.check() {
        Err(e) => Err(CursorError::Unavailable(e)),
        Ok(()) => Ok(identity(img)),
    }
}

} // verus!
