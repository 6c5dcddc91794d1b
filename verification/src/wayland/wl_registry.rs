//! The global registry singleton, which announces global objects to clients.

use vstd::prelude::*;

verus! {

#[derive(Debug, Clone, PartialEq, Eq, Structural)]
pub struct WlRegistry {}

} // verus!
