//! Overlay text renderer core: fixed-point coordinate transforms, a bounded
//! command queue, wide-character text decoding, and the per-frame consumer
//! that resolves queued draw commands into screen positions.

pub mod fix;
pub mod queue;
pub mod render;
pub mod text;
pub mod transform;

use vstd::prelude::*;

verus! {

} // verus!
