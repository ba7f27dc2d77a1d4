use vstd::prelude::*;

pub use crate::platform::{Arch, Os};

verus! {

/// The release of the plugin that is installed where the release API names
/// none.
pub const DEFAULT_TAG_NAME: &'static str = "v0.4.8";

} // verus!
