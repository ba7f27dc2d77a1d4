use vstd::prelude::*;
use vstd::string::*;

verus! {

/// One downloadable file of a release, as the release API lists it.
#[derive(Clone, Debug, PartialEq, Eq)]
pub struct Asset {
    pub name: String,
    pub browser_download_url: String,
}

/// What the release API says of the latest release of a repository.
#[derive(Clone, Debug, PartialEq, Eq)]
pub struct ReleaseResponse {
    /// Absent when the API answers inconsistently.
    pub tag_name: Option<String>,
    /// Absent when the API answers inconsistently.
    pub assets: Option<Vec<Asset>>,
    pub prerelease: bool,
}

impl ReleaseResponse {
    /// The response that says nothing: no tag, no assets, no prerelease.
    pub fn default() -> (empty: Self)
        ensures
            empty.tag_name is None,
            empty.assets is None,
            !empty.prerelease,
    {
        Self { tag_name: None, assets: None, prerelease: false }
    }

    /// The tag of the response as a sequence of characters, where it is
    /// there; a tag that is there and empty is kept apart from none.
    pub open spec fn spec_tag(&self) -> Option<Seq<char>> {
        match self.tag_name {
            Some(tag) => Some(tag@),
            None => None,
        }
    }
}

impl Default for ReleaseResponse {
    fn default() -> (empty: Self)
        ensures
            empty.tag_name is None,
            empty.assets is None,
            !empty.prerelease,
    {
        Self { tag_name: None, assets: None, prerelease: false }
    }
}

/// The address of the release API for the latest release of `org/repo`.
pub open spec fn spec_latest_release_endpoint(org: Seq<char>, repo: Seq<char>) -> Seq<char> {
    "https://api.github.com/repos/"@ + org + "/"@ + repo + "/releases/latest"@
}

/// The address to ask for the latest release of `org/repo`.
pub fn latest_release_endpoint(org: &str, repo: &str) -> (endpoint: String)
    ensures
        endpoint@ == spec_latest_release_endpoint(org@, repo@),
{
    let mut endpoint = String::from_str("https://api.github.com/repos/");
    endpoint.append(org);
    endpoint.append("/");
    endpoint.append(repo);
    endpoint.append("/releases/latest");
    endpoint
}

} // verus!
