//! A region of a surface, referenced by the opaque- and input-region state.

use vstd::prelude::*;

verus! {

#[derive(Debug, Clone, PartialEq, Eq, Structural)]
pub struct WlRegion {}

} // verus!
