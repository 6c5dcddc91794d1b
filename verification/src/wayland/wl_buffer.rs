//! A buffer of pixel content that a client can attach to a surface.

use vstd::prelude::*;

verus! {

/// The engine only needs a buffer's dimensions: committing a surface derives
/// the surface size from the attached buffer.
#[derive(Debug, Clone, PartialEq, Eq, Structural)]
pub struct WlBuffer {
    pub width: i32,
    pub height: i32,
}

} // verus!
