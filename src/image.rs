use vstd::prelude::*;

verus! {

/// One pixel's color, each channel scaled to `0..=255`
/// (a channel value `c` stands for the intensity `c / 255`).
#[derive(Clone, Copy, PartialEq, Eq, Structural, Debug)]
pub struct Rgba {
    pub r: u8,
    pub g: u8,
    pub b: u8,
    pub a: u8,
}

/// Why the current cursor could not be read.
#[derive(Clone, Copy, PartialEq, Eq, Structural, Debug)]
pub enum Unavailable {
    /// The system reports no current cursor.
    NoCursor,
    /// The cursor has no image, or an image without area.
    NoImage,
    /// The image has no color-sampleable bitmap representation.
    NoRepresentation,
}

/// Errors of the cursor operations. None of them is fatal: the caller tries
/// again on a later poll.
#[derive(Clone, Copy, PartialEq, Eq, Structural, Debug)]
pub enum CursorError {
    /// The cursor, its image or its bitmap could not be read right now.
    Unavailable(Unavailable),
    /// The current cursor no longer has the identity the caller asked for.
    StaleCursor,
}

/// A snapshot of the current cursor as the system reports it.
///
/// `width` / `height` are the logical image size, `hotspot_x` / `hotspot_y`
/// the hotspot in that space. The bitmap representation may have another
/// size (`rep_width` x `rep_height`, e.g. under display scaling); `colors`
/// holds its pixels row by row, top row first, with `None` where a pixel's
/// color cannot be read.
#[derive(Clone, Debug)]
pub struct CursorImage {
    pub width: u32,
    pub height: u32,
    pub hotspot_x: u32,
    pub hotspot_y: u32,
    pub rep_width: u32,
    pub rep_height: u32,
    pub colors: Vec<Option<Rgba>>,
}

impl CursorImage {
    /// The logical image has area.
    pub open spec fn has_area(&self) -> bool {
        self.width > 0 && self.height > 0
    }

    /// The representation has at least one pixel and `colors` holds exactly
    /// its grid.
    pub open spec fn rep_ok(&self) -> bool {
        &&& self.rep_width > 0
        &&& self.rep_height > 0
        &&& self.colors@.len() == self.rep_width * self.rep_height
    }

    /// A snapshot that can be fingerprinted and extracted.
    pub open spec fn wf(&self) -> bool {
        self.has_area() && self.rep_ok()
    }

    /// The reason a snapshot that is not well formed cannot be used.
    pub open spec fn defect(&self) -> Unavailable {
        if !self.has_area() {
            Unavailable::NoImage
        } else {
            Unavailable::NoRepresentation
        }
    }

    /// Index in `colors` of the representation pixel at column `x`, row `y`.
    pub open spec fn index_of(&self, x: int, y: int) -> int {
        y * self.rep_width + x
    }

    /// Checks `wf`, naming what is missing when it does not hold.
    pub fn check(&self) -> (r: Result<(), Unavailable>)
        ensures
            r is Ok <==> self.wf(),
            r is Err ==> r->Err_0 == self.defect(),
    {
        if self.width == 0 || self.height == 0 {
            return Err(Unavailable::NoImage);
        }
        if self.rep_width == 0 || self.rep_height == 0 {
            return Err(Unavailable::NoRepresentation);
        }
        proof {
            let (w, h) = (self.rep_width as int, self.rep_height as int);
            assert(0 <= w * h <= 0xffff_ffff * 0xffff_ffff) by (nonlinear_arith)
                requires 0 <= w <= 0xffff_ffff, 0 <= h <= 0xffff_ffff;
        }
        let cells: u64 = self.rep_width as u64 * self.rep_height as u64;
        if self.colors.len() as u64 != cells {
            return Err(Unavailable::NoRepresentation);
        }
        Ok(())
    }
}

} // verus!
