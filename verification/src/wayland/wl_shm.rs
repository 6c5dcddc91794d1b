//! The shared-memory factory singleton.

use vstd::prelude::*;

verus! {

#[derive(Debug, Clone, PartialEq, Eq, Structural)]
pub struct WlShm {}

} // verus!
