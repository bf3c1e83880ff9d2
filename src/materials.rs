use vstd::prelude::*;

verus! {

/// A diffuse surface that scatters light evenly over the hemisphere around
/// its normal and keeps half of each channel.
#[derive(Clone, Copy, Debug)]
pub struct SimpleDiffuseMaterial {}

impl SimpleDiffuseMaterial {
    pub fn new() -> (r: SimpleDiffuseMaterial) {
        SimpleDiffuseMaterial {  }
    }
}

} // verus!
