//! The compositor singleton, through which clients create surfaces and
//! regions.

use vstd::prelude::*;

verus! {

#[derive(Debug, Clone, PartialEq, Eq, Structural)]
pub struct WlCompositor {}

} // verus!
