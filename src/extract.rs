use vstd::prelude::*;
use crate::fingerprint::{identity, identity_of};
use crate::image::{CursorError, CursorImage, Rgba};

verus! {

/// An extracted cursor: its identity, its pixels as RGBA bytes (row by row,
/// top row first), its hotspot and its logical size.
#[derive(Clone, Debug)]
pub struct CursorData {
    pub identity: u64,
    pub pixels: Vec<u8>,
    pub hotspot_x: u32,
    pub hotspot_y: u32,
    pub width: u32,
    pub height: u32,
}

/// The four bytes of a readable pixel; nothing for an unreadable one.
pub open spec fn rgba_bytes(c: Option<Rgba>) -> Seq<u8> {
    match c {
        Some(c) => seq![c.r, c.g, c.b, c.a],
        None => seq![],
    }
}

/// The RGBA bytes of a run of pixels, in order, skipping unreadable pixels.
pub open spec fn pixel_bytes(s: Seq<Option<Rgba>>) -> Seq<u8>
    decreases s.len(),
{
    if s.len() == 0 {
        seq![]
    } else {
        pixel_bytes(s.drop_last()) + rgba_bytes(s.last())
    }
}

/// Channel `j` (0 red, 1 green, 2 blue, 3 alpha) of a color.
pub open spec fn channel(c: Rgba, j: int) -> u8 {
    if j == 0 {
        c.r
    } else if j == 1 {
        c.g
    } else if j == 2 {
        c.b
    } else {
        c.a
    }
}

/// Why `extract(expected, img)` fails, if it does: an unusable snapshot
/// first, then an identity other than the expected one.
pub open spec fn extract_error(expected: u64, img: CursorImage) -> Option<CursorError> {
    if !img.wf() {
        Some(CursorError::Unavailable(img.defect()))
    } else if identity_of(img) != expected {
        Some(CursorError::StaleCursor)
    } else {
        None
    }
}

/// Extracts the bitmap of the current cursor `img`, provided it still has
/// the identity `expected` that the caller obtained earlier.
///
/// A cursor whose identity differs fails with `StaleCursor` and yields no
/// pixel data; an unusable snapshot fails with `Unavailable`. On success the
/// result carries `expected`, the bytes of every readable pixel in row-major
/// order, the hotspot and the logical size.
pub fn extract(expected: u64, img: &CursorImage) -> (r: Result<CursorData, CursorError>)
    ensures
        r is Err <==> extract_error(expected, *img) is Some,
        r is Err ==> r->Err_0 == extract_error(expected, *img)->Some_0,
        r is Ok ==> ({
            let d = r->Ok_0;
            &&& d.identity == expected
            &&& d.pixels@ == pixel_bytes(img.colors@)
            &&& d.hotspot_x == img.hotspot_x
            &&& d.hotspot_y == img.hotspot_y
            &&& d.width == img.width
            &&& d.height == img.height
        }),
{
    if let Err(e) = img.check() {
        return Err(CursorError::Unavailable(e));
    }
    if identity(img) != expected {
        return Err(CursorError::StaleCursor);
    }
    let n: usize = img.colors.len();
    let mut pixels: Vec<u8> = Vec::new();
    let mut i: usize = 0;
    while i < n
        invariant
            n == img.colors@.len(),
            0 <= i <= n,
            pixels@ == pixel_bytes(img.colors@.subrange(0, i as int)),
        decreases n - i,
    {
        if let Some(c) = img.colors[i] {
            pixels.push(c.r);
            pixels.push(c.g);
            pixels.push(c.b);
            pixels.push(c.a);
        }
        proof {
            let s = img.colors@.subrange(0, i + 1);
            assert(s.drop_last() =~= img.colors@.subrange(0, i as int));
        }
        i = i + 1;
    }
    assert(img.colors@.subrange(0, n as int) =~= img.colors@);
    Ok(CursorData {
        identity: expected,
        pixels,
        hotspot_x: img.hotspot_x,
        hotspot_y: img.hotspot_y,
        width: img.width,
        height: img.height,
    })
}

} // verus!
