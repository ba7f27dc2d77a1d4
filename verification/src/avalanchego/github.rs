use vstd::prelude::*;

pub use crate::platform::{Arch, Os};

verus! {

/// The release of the node that is installed where the release API names
/// none.
pub const DEFAULT_TAG_NAME: &'static str = "v1.9.16";

} // verus!
