//! The image subsystem's per-image state as a box sees it: an intrinsic size
//! that may still be unknown, and a shared handle to decoded pixel data that
//! may not be available yet.  Both absences degrade to documented defaults.

use crate::geometry::MAX_PX;
use vstd::prelude::*;

verus! {

/// An intrinsic image size, in pixels.
#[derive(Clone, Copy, PartialEq, Eq, Structural, Debug)]
pub struct PixelSize {
    pub width: i64,
    pub height: i64,
}

/// A box's view of one image: intrinsic size, if reported yet, and a shared
/// handle to decoded pixel data, if decoding has completed.
#[derive(Clone, Copy, Debug)]
pub struct ImageHolder {
    pub intrinsic_size: Option<PixelSize>,
    pub image: Option<u64>,
}

impl ImageHolder {
    /// A holder measurement may work on: pixel dimensions within `MAX_PX`,
    /// so that the conversion to app units stays within `MAX_AU`.
    pub open spec fn wf(self) -> bool {
        self.intrinsic_size matches Some(s) ==> 0 <= s.width <= MAX_PX && 0 <= s.height
            <= MAX_PX
    }

    /// The intrinsic size with the zero-size fallback applied.
    pub open spec fn spec_size(self) -> PixelSize {
        match self.intrinsic_size {
            Some(s) => s,
            None => PixelSize { width: 0, height: 0 },
        }
    }

    /// The intrinsic size, if the image subsystem knows it yet.
    pub fn get_size(&self) -> (r: Option<PixelSize>)
        ensures
            r == self.intrinsic_size,
    {
        self.intrinsic_size
    }

    /// The intrinsic size, falling back to zero size while it is unknown.
    pub fn size(&self) -> (r: PixelSize)
        ensures
            r == self.spec_size(),
    {
        match self.intrinsic_size {
            Some(s) => s,
            None => PixelSize { width: 0, height: 0 },
        }
    }

    /// The decoded pixel data handle, if decoding has completed.
    pub fn get_image(&self) -> (r: Option<u64>)
        ensures
            r == self.image,
    {
        self.image
    }
}

} // verus!
