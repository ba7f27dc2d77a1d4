//! Resolving, naming and staging release artifacts of the node binary and of
//! its plugins.
//!
//! The library holds the decisions: which release tag to install, how the
//! archive of a platform is named and decoded, where the binary lies once the
//! archive is unpacked, and how a binary and its plugins are mirrored from an
//! object store. Network, disk and clock stay with the caller, which performs
//! the actions that the state machines of this library ask for and reports
//! back what happened.

use vstd::prelude::*;

pub mod archive;
pub mod avalanchego;
pub mod error;
pub mod fetch;
pub mod github;
pub mod layout;
pub mod path;
pub mod platform;
pub mod product;
pub mod release;
pub mod retry;
pub mod subnet_evm;
pub mod text;

verus! {

/// One downloadable file of a release.
#[derive(Clone, Debug, PartialEq, Eq)]
pub struct GithubAsset {
    pub name: String,
    pub browser_download_url: String,
}

/// The latest release of a repository, in the shape in which the asset list is
/// always there.
#[derive(Clone, Debug, PartialEq, Eq)]
pub struct GithubResponse {
    /// Absent when the API answers inconsistently.
    pub tag_name: Option<String>,
    pub assets: Vec<GithubAsset>,
    pub prerelease: bool,
}

impl GithubResponse {
    /// The response that says nothing: no tag, no assets, no prerelease.
    pub fn default() -> (empty: Self)
        ensures
            empty.tag_name is None,
            empty.assets@.len() == 0,
            !empty.prerelease,
    {
        Self { tag_name: None, assets: Vec::new(), prerelease: false }
    }
}

impl Default for GithubResponse {
    fn default() -> (empty: Self)
        ensures
            empty.tag_name is None,
            empty.assets@.len() == 0,
            !empty.prerelease,
    {
        Self { tag_name: None, assets: Vec::new(), prerelease: false }
    }
}

} // verus!
