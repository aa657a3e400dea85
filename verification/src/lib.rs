//! Collects a compact status snapshot of the version-control repository
//! enclosing a filesystem location: the current reference, its divergence
//! from the tracked upstream, and aggregate working-tree/index dirtiness
//! flags, for display in an interactive shell prompt.

pub mod error;
pub mod git2_api;
pub mod git_utils;
pub mod structs;
pub mod util;

use vstd::prelude::*;

verus! {

} // verus!
