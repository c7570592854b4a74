//! Storage of users' files under a base directory, and checks of uploaded file data.

pub mod data_guard;
pub mod local;

use vstd::prelude::*;

verus! {

/// Default data directory path.
pub const DEFAULT_DATA_DIR: &'static str = "/data";

} // verus!
