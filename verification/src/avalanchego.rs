use vstd::prelude::*;
use vstd::string::*;
use crate::path::{join, parent_dir, spec_parent_dir, spec_plugins_dir};

pub mod github;
pub mod s3;

pub use crate::platform::{Arch, Os};

verus! {

/// The plugin directory beside the node binary:
///
/// ```text
/// build
///   ├── avalanchego
///   └── plugins
///       └── evm
/// ```
pub fn get_plugin_dir(avalanche_bin: &str) -> (dir: String)
    requires
        spec_parent_dir(avalanche_bin@) is Some,
    ensures
        dir@ == spec_plugins_dir(avalanche_bin@),
{
    match parent_dir(avalanche_bin) {
        Some(parent) => join(parent.as_str(), "plugins"),
        None => vstd::pervasive::unreached(),
    }
}

/// The plugin directory beside the node binary; the same as
/// [`get_plugin_dir`].
pub fn get_plugins_dir(avalanche_bin: &str) -> (dir: String)
    requires
        spec_parent_dir(avalanche_bin@) is Some,
    ensures
        dir@ == spec_plugins_dir(avalanche_bin@),
{
    get_plugin_dir(avalanche_bin)
}

} // verus!
