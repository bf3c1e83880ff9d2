use vstd::prelude::*;

pub mod color;
pub mod framebuffer;
pub mod glyph;
pub mod image_saver;
pub mod materials;
pub mod render_spec;
pub mod tracer;

verus! {

} // verus!
