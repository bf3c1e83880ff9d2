use vstd::prelude::*;

verus! {

/// Resolution of a rendered image, in pixels.
#[derive(Clone, Copy, Debug, PartialEq, Eq, Structural)]
pub struct ImageSize {
    pub width: u32,
    pub height: u32,
}

impl ImageSize {
    /// A resolution is usable when both sides hold at least one pixel.
    pub open spec fn is_valid(self) -> bool {
        self.width > 0 && self.height > 0
    }

    /// Number of pixels of an image of this size.
    pub open spec fn pixel_count(self) -> nat {
        (self.width as nat) * (self.height as nat)
    }
}

} // verus!
