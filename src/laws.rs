use vstd::prelude::*;
use crate::extract::{channel, extract_error, pixel_bytes};
use crate::fingerprint::{identity_of, lemma_index_in_grid, sample_col, sample_row};
use crate::image::{CursorError, CursorImage, Rgba};
use crate::tracker::poll_step;

verus! {

/// When the generation counter does not change between two consecutive
/// polls, the second poll reports no change and leaves the state as it was.
pub proof fn lemma_unchanged_counter_is_quiet(last: Option<i32>, seed: i32)
    ensures
        poll_step(poll_step(last, seed).1, seed) == (false, poll_step(last, seed).1),
{
}

/// After a reset, the next poll reports a change whatever counter it reads.
pub proof fn lemma_reset_forces_change(seed: i32)
    ensures
        poll_step(None, seed).0,
        poll_step(None, seed).1 == Some(seed),
{
}

/// Two snapshots with the same geometry and the same colors at the two
/// sampled pixels have the same identity, whatever their other pixels hold.
pub proof fn lemma_identity_stable(a: CursorImage, b: CursorImage)
    requires
        a.wf(),
        b.wf(),
        a.width == b.width,
        a.height == b.height,
        a.hotspot_x == b.hotspot_x,
        a.hotspot_y == b.hotspot_y,
        a.rep_width == b.rep_width,
        a.rep_height == b.rep_height,
        forall|i: int|
            0 <= i < 2 ==> a.colors@[a.index_of(sample_col(a, i), sample_row(a, i))]
                == b.colors@[b.index_of(sample_col(b, i), sample_row(b, i))],
    ensures
        identity_of(a) == identity_of(b),
{
    assert(a.colors@[a.index_of(sample_col(a, 0), sample_row(a, 0))]
        == b.colors@[b.index_of(sample_col(b, 0), sample_row(b, 0))]);
    assert(a.colors@[a.index_of(sample_col(a, 1), sample_row(a, 1))]
        == b.colors@[b.index_of(sample_col(b, 1), sample_row(b, 1))]);
}

/// An identity obtained before the cursor changed to one with another
/// identity no longer extracts: the extraction fails with `StaleCursor`.
pub proof fn lemma_changed_cursor_is_stale(expected: u64, before: CursorImage, after: CursorImage)
    requires
        before.wf(),
        after.wf(),
        identity_of(before) == expected,
        identity_of(after) != identity_of(before),
    ensures
        extract_error(expected, after) == Some(CursorError::StaleCursor),
{
}

/// The bytes of a run of readable pixels: four per pixel, pixel `k` at
/// offsets `4k .. 4k + 4` in red, green, blue, alpha order.
pub proof fn lemma_readable_pixel_bytes(s: Seq<Option<Rgba>>)
    requires
        forall|k: int| 0 <= k < s.len() ==> s[k] is Some,
    ensures
        pixel_bytes(s).len() == 4 * s.len(),
        forall|k: int, j: int|
            0 <= k < s.len() && 0 <= j < 4 ==> #[trigger] pixel_bytes(s)[4 * k + j]
                == channel(s[k]->Some_0, j),
    decreases s.len(),
{
    if s.len() > 0 {
        let p = s.drop_last();
        lemma_readable_pixel_bytes(p);
        let n = p.len();
        assert forall|k: int, j: int|
            0 <= k < s.len() && 0 <= j < 4 implies #[trigger] pixel_bytes(s)[4 * k + j]
                == channel(s[k]->Some_0, j) by {
            if k < n {
                assert(s[k] == p[k]);
            }
        }
    }
}

/// When every pixel of a `W x H` bitmap is readable, extraction yields
/// exactly `4 * W * H` bytes, row by row from the top: the pixel at column
/// `x`, row `y` sits at offset `4 * (y * W + x)`.
pub proof fn lemma_full_extraction(img: CursorImage)
    requires
        img.wf(),
        forall|k: int| 0 <= k < img.colors@.len() ==> img.colors@[k] is Some,
    ensures
        pixel_bytes(img.colors@).len() == 4 * img.rep_width * img.rep_height,
        forall|x: int, y: int|
            0 <= x < img.rep_width && 0 <= y < img.rep_height ==> 0 <= #[trigger] img.index_of(x, y)
                < img.colors@.len(),
        forall|x: int, y: int, j: int|
            0 <= x < img.rep_width && 0 <= y < img.rep_height && 0 <= j < 4
                ==> #[trigger] pixel_bytes(img.colors@)[4 * img.index_of(x, y) + j]
                == channel(img.colors@[img.index_of(x, y)]->Some_0, j),
{
    lemma_readable_pixel_bytes(img.colors@);
    let (w, h) = (img.rep_width as int, img.rep_height as int);
    assert(4 * (w * h) == 4 * w * h) by (nonlinear_arith);
    assert forall|x: int, y: int|
        0 <= x < img.rep_width && 0 <= y < img.rep_height implies 0 <= #[trigger] img.index_of(x, y)
            < img.colors@.len() by {
        lemma_index_in_grid(img, x, y);
    }
}

} // verus!
