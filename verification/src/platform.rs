use vstd::prelude::*;
use vstd::string::*;
use crate::error::PlatformError;
use crate::text::str_eq;

verus! {

/// The processor architectures that releases are built for.
#[derive(Clone, Copy, Debug, PartialEq, Eq, Structural)]
pub enum Arch {
    Amd64,
    Arm64,
}

impl Arch {
    /// The label of the architecture in archive names.
    pub open spec fn spec_label(self) -> Seq<char> {
        match self {
            Arch::Amd64 => "amd64"@,
            Arch::Arm64 => "arm64"@,
        }
    }

    /// The architecture that a label names, if any.
    pub open spec fn spec_parse(label: Seq<char>) -> Option<Arch> {
        if label == "amd64"@ {
            Some(Arch::Amd64)
        } else if label == "arm64"@ {
            Some(Arch::Arm64)
        } else {
            None
        }
    }

    /// Reads an architecture from its label, `amd64` or `arm64`.
    pub fn new(arch: &str) -> (parsed: Result<Arch, PlatformError>)
        ensures
            match Self::spec_parse(arch@) {
                Some(known) => parsed == Ok::<Arch, PlatformError>(known),
                None => parsed matches Err(PlatformError::UnknownArch { given }) && given@
                    == arch@,
            },
    {
        if str_eq(arch, "amd64") {
            Ok(Arch::Amd64)
        } else if str_eq(arch, "arm64") {
            Ok(Arch::Arm64)
        } else {
            Err(PlatformError::UnknownArch { given: String::from_str(arch) })
        }
    }

    /// The label of the architecture.
    pub fn to_string(&self) -> (label: String)
        ensures
            label@ == self.spec_label(),
    {
        match self {
            Arch::Amd64 => String::from_str("amd64"),
            Arch::Arm64 => String::from_str("arm64"),
        }
    }
}

/// The operating systems that releases are built for.
#[derive(Clone, Copy, Debug, PartialEq, Eq, Structural)]
pub enum Os {
    MacOs,
    Linux,
    Windows,
}

impl Os {
    /// The label of the operating system.
    pub open spec fn spec_label(self) -> Seq<char> {
        match self {
            Os::MacOs => "macos"@,
            Os::Linux => "linux"@,
            Os::Windows => "win"@,
        }
    }

    /// The operating system that a label names, if any.
    pub open spec fn spec_parse(label: Seq<char>) -> Option<Os> {
        if label == "macos"@ {
            Some(Os::MacOs)
        } else if label == "linux"@ {
            Some(Os::Linux)
        } else if label == "win"@ {
            Some(Os::Windows)
        } else {
            None
        }
    }

    /// Reads an operating system from its label, `macos`, `linux` or `win`.
    pub fn new(os: &str) -> (parsed: Result<Os, PlatformError>)
        ensures
            match Self::spec_parse(os@) {
                Some(known) => parsed == Ok::<Os, PlatformError>(known),
                None => parsed matches Err(PlatformError::UnknownOs { given }) && given@ == os@,
            },
    {
        if str_eq(os, "macos") {
            Ok(Os::MacOs)
        } else if str_eq(os, "linux") {
            Ok(Os::Linux)
        } else if str_eq(os, "win") {
            Ok(Os::Windows)
        } else {
            Err(PlatformError::UnknownOs { given: String::from_str(os) })
        }
    }

    /// The label of the operating system.
    pub fn to_string(&self) -> (label: String)
        ensures
            label@ == self.spec_label(),
    {
        match self {
            Os::MacOs => String::from_str("macos"),
            Os::Linux => String::from_str("linux"),
            Os::Windows => String::from_str("win"),
        }
    }
}

/// Reading the label of an architecture gives the architecture back, and a
/// label that reads as an architecture is the label of that architecture.
pub proof fn lemma_arch_label_round_trip(arch: Arch, label: Seq<char>)
    ensures
        Arch::spec_parse(arch.spec_label()) == Some(arch),
        Arch::spec_parse(label) matches Some(known) ==> known.spec_label() == label,
{
    reveal_strlit("amd64");
    reveal_strlit("arm64");
    assert("amd64"@[1] != "arm64"@[1]);
}

/// Reading the label of an operating system gives the operating system back,
/// and a label that reads as one is the label of that operating system.
pub proof fn lemma_os_label_round_trip(os: Os, label: Seq<char>)
    ensures
        Os::spec_parse(os.spec_label()) == Some(os),
        Os::spec_parse(label) matches Some(known) ==> known.spec_label() == label,
{
    reveal_strlit("macos");
    reveal_strlit("linux");
    reveal_strlit("win");
    assert("macos"@[0] != "linux"@[0]);
    assert("macos"@.len() != "win"@.len());
    assert("linux"@.len() != "win"@.len());
}

/// The kinds of operating system that a host can turn out to run.
#[derive(Clone, Copy, Debug, PartialEq, Eq, Structural)]
pub enum HostOs {
    MacOs,
    /// A Unix other than macOS; it is taken for Linux.
    Unix,
    Windows,
    /// None of the others.
    Other,
}

/// The machine on which the artifacts are installed, as its system describes
/// it.
#[derive(Clone, Debug, PartialEq, Eq)]
pub struct Host {
    /// The system's name of the processor architecture, such as `x86_64`.
    pub arch: String,
    pub os: HostOs,
}

/// An architecture together with an operating system.
#[derive(Clone, Copy, Debug, PartialEq, Eq, Structural)]
pub struct Platform {
    pub arch: Arch,
    pub os: Os,
}

/// The label of the architecture that a system calls `native`; empty where
/// releases are built for no such architecture.
pub open spec fn spec_native_arch_label(native: Seq<char>) -> Seq<char> {
    if native == "x86_64"@ {
        "amd64"@
    } else if native == "aarch64"@ {
        "arm64"@
    } else {
        Seq::<char>::empty()
    }
}

/// The label of the architecture that a system calls `native`.
pub fn native_arch_label(native: &str) -> (label: String)
    ensures
        label@ == spec_native_arch_label(native@),
{
    if str_eq(native, "x86_64") {
        String::from_str("amd64")
    } else if str_eq(native, "aarch64") {
        String::from_str("arm64")
    } else {
        String::new()
    }
}

/// The architecture to install for: the caller's choice, or else that of the
/// host, if releases are built for it.
pub open spec fn spec_resolve_arch(explicit: Option<Arch>, native: Seq<char>) -> Option<Arch> {
    match explicit {
        Some(chosen) => Some(chosen),
        None => Arch::spec_parse(spec_native_arch_label(native)),
    }
}

/// The operating system to install for: the caller's choice, or else that of
/// the host, any Unix but macOS counting as Linux.
pub open spec fn spec_resolve_os(explicit: Option<Os>, host: HostOs) -> Option<Os> {
    match explicit {
        Some(chosen) => Some(chosen),
        None => match host {
            HostOs::MacOs => Some(Os::MacOs),
            HostOs::Unix => Some(Os::Linux),
            HostOs::Windows => Some(Os::Windows),
            HostOs::Other => None,
        },
    }
}

/// The platform to install for, if both of its parts are known.
pub open spec fn spec_resolve_platform(
    arch: Option<Arch>,
    os: Option<Os>,
    native: Seq<char>,
    host: HostOs,
) -> Option<Platform> {
    match (spec_resolve_arch(arch, native), spec_resolve_os(os, host)) {
        (Some(arch), Some(os)) => Some(Platform { arch, os }),
        _ => None,
    }
}

/// The platform to install for: what the caller chose, and the host's own
/// where the caller left the choice open. A host whose architecture or
/// operating system is none of those that releases are built for is an
/// unknown platform.
pub fn resolve_platform(arch: Option<Arch>, os: Option<Os>, host: &Host) -> (resolved: Result<
    Platform,
    PlatformError,
>)
    ensures
        match spec_resolve_platform(arch, os, host.arch@, host.os) {
            Some(platform) => resolved == Ok::<Platform, PlatformError>(platform),
            None => resolved == Err::<Platform, PlatformError>(PlatformError::UnknownPlatform),
        },
{
    let arch = match arch {
        Some(chosen) => chosen,
        None => {
            let label = native_arch_label(host.arch.as_str());
            match Arch::new(label.as_str()) {
                Ok(known) => known,
                Err(_) => {
                    return Err(PlatformError::UnknownPlatform);
                },
            }
        },
    };
    let os = match os {
        Some(chosen) => chosen,
        None => match host.os {
            HostOs::MacOs => Os::MacOs,
            HostOs::Unix => Os::Linux,
            HostOs::Windows => Os::Windows,
            HostOs::Other => {
                return Err(PlatformError::UnknownPlatform);
            },
        },
    };
    Ok(Platform { arch, os })
}

/// A host of an architecture that releases are built for is known by it, and
/// any other architecture leaves the platform unknown unless the caller names
/// one.
pub proof fn lemma_native_arch(native: Seq<char>)
    ensures
        native == "x86_64"@ ==> spec_resolve_arch(None, native) == Some(Arch::Amd64),
        native == "aarch64"@ ==> spec_resolve_arch(None, native) == Some(Arch::Arm64),
        native != "x86_64"@ && native != "aarch64"@ ==> spec_resolve_arch(None, native) is None,
{
    reveal_strlit("x86_64");
    reveal_strlit("aarch64");
    reveal_strlit("amd64");
    reveal_strlit("arm64");
    assert("amd64"@[1] != "arm64"@[1]);
    assert("x86_64"@.len() != "aarch64"@.len());
    assert(Seq::<char>::empty().len() != "amd64"@.len());
    assert(Seq::<char>::empty().len() != "arm64"@.len());
}

} // verus!
