//! The desktop-style role object a shell grants to a surface.

use vstd::prelude::*;

verus! {

#[derive(Debug, Clone, PartialEq, Eq, Structural)]
pub struct WlShellSurface {
    /// The surface this role object was created for.
    pub surface_id: u32,
}

} // verus!
