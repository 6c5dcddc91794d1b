//! The shell-surface base object created from a plain surface; itself not a
//! role, but the basis for the toplevel and popup roles.

use vstd::prelude::*;

verus! {

#[derive(Debug, Clone, PartialEq, Eq, Structural)]
pub struct XdgSurface {
    /// The surface this shell surface was created for.
    pub wl_surface_id: u32,
}

} // verus!
