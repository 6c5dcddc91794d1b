//! A positioner object used to place popups relative to a parent surface.

use vstd::prelude::*;

verus! {

#[derive(Debug, Clone, PartialEq, Eq, Structural)]
pub struct XdgPositioner {}

} // verus!
