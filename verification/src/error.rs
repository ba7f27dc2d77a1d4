use vstd::prelude::*;
use vstd::string::*;

verus! {

/// Why a platform could not be named.
#[derive(Clone, Debug, PartialEq, Eq)]
pub enum PlatformError {
    /// The label names no supported architecture.
    UnknownArch { given: String },
    /// The label names no supported operating system.
    UnknownOs { given: String },
    /// The product publishes no archive for the platform.
    UnknownPlatform,
}

impl PlatformError {
    /// What the error says, as a sequence of characters.
    pub open spec fn spec_message(self) -> Seq<char> {
        match self {
            PlatformError::UnknownArch { given } => "unknown arch "@ + given@,
            PlatformError::UnknownOs { given } => "unknown os "@ + given@,
            PlatformError::UnknownPlatform => "unknown platform"@,
        }
    }

    /// The text of the error.
    pub fn message(&self) -> (text: String)
        ensures
            text@ == self.spec_message(),
    {
        match self {
            PlatformError::UnknownArch { given } => {
                let mut text = String::from_str("unknown arch ");
                text.append(given.as_str());
                text
            },
            PlatformError::UnknownOs { given } => {
                let mut text = String::from_str("unknown os ");
                text.append(given.as_str());
                text
            },
            PlatformError::UnknownPlatform => String::from_str("unknown platform"),
        }
    }
}

} // verus!
