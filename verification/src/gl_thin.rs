//! Describing point data to a GL-style renderer.

use vstd::prelude::*;

verus! {

/// Element types that can describe themselves to a GL-style renderer:
/// `my_type` returns the renderer's type code for the element (for
/// example the code for 32-bit floats when a point cloud has been
/// flattened to a float vertex buffer).  The crate's own types carry
/// exact integer numerators rather than buffer elements, so the impls
/// live with whatever front end does the flattening.
pub trait GlType {
    fn my_type() -> u32;
}

} // verus!
