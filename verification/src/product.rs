use vstd::prelude::*;
use vstd::string::*;
use crate::retry::RetryPolicy;

verus! {

/// The products whose releases can be installed.
#[derive(Clone, Copy, Debug, PartialEq, Eq, Structural)]
pub enum Product {
    /// The node.
    AvalancheGo,
    /// The EVM plugin of the node.
    SubnetEvm,
}

impl Product {
    /// The organization that publishes the product.
    pub open spec fn spec_org(self) -> Seq<char> {
        "ava-labs"@
    }

    /// The repository of the product.
    pub open spec fn spec_repo(self) -> Seq<char> {
        match self {
            Product::AvalancheGo => "avalanchego"@,
            Product::SubnetEvm => "subnet-evm"@,
        }
    }

    /// The name of the binary in the archive.
    pub open spec fn spec_binary_name(self) -> Seq<char> {
        self.spec_repo()
    }

    /// The release that is installed where the release API names none.
    pub open spec fn spec_default_tag(self) -> Seq<char> {
        match self {
            Product::AvalancheGo => crate::avalanchego::github::DEFAULT_TAG_NAME@,
            Product::SubnetEvm => crate::subnet_evm::github::DEFAULT_TAG_NAME@,
        }
    }

    /// How often the release API is asked.
    pub open spec fn spec_release_attempts(self) -> nat {
        match self {
            Product::AvalancheGo => 10,
            Product::SubnetEvm => 20,
        }
    }

    /// The unit of the wait between two requests to the release API, in
    /// seconds.
    pub open spec fn spec_release_base_delay(self) -> nat {
        match self {
            Product::AvalancheGo => 3,
            Product::SubnetEvm => 5,
        }
    }

    pub fn org(&self) -> (org: &'static str)
        ensures
            org@ == self.spec_org(),
    {
        "ava-labs"
    }

    pub fn repo(&self) -> (repo: &'static str)
        ensures
            repo@ == self.spec_repo(),
    {
        match self {
            Product::AvalancheGo => "avalanchego",
            Product::SubnetEvm => "subnet-evm",
        }
    }

    pub fn binary_name(&self) -> (name: &'static str)
        ensures
            name@ == self.spec_binary_name(),
    {
        self.repo()
    }

    pub fn default_tag(&self) -> (tag: &'static str)
        ensures
            tag@ == self.spec_default_tag(),
    {
        match self {
            Product::AvalancheGo => crate::avalanchego::github::DEFAULT_TAG_NAME,
            Product::SubnetEvm => crate::subnet_evm::github::DEFAULT_TAG_NAME,
        }
    }

    /// How the release API is asked again after a failure.
    pub fn release_retry_policy(&self) -> (policy: RetryPolicy)
        ensures
            policy.wf(),
            policy.spec_max_attempts() == self.spec_release_attempts(),
            policy.spec_base_delay() == self.spec_release_base_delay(),
    {
        let made = match self {
            Product::AvalancheGo => RetryPolicy::new(10, 3),
            Product::SubnetEvm => RetryPolicy::new(20, 5),
        };
        match made {
            Some(policy) => policy,
            None => vstd::pervasive::unreached(),
        }
    }
}

} // verus!
