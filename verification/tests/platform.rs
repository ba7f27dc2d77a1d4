use avalanche_installer::error::PlatformError;
use avalanche_installer::platform::{
    native_arch_label, resolve_platform, Arch, Host, HostOs, Os, Platform,
};

fn host(arch: &str, os: HostOs) -> Host {
    Host { arch: String::from(arch), os }
}

#[test]
fn arch_reads_its_labels() {
    assert_eq!(Arch::new("amd64"), Ok(Arch::Amd64));
    assert_eq!(Arch::new("arm64"), Ok(Arch::Arm64));
    assert_eq!(Arch::Amd64.to_string(), "amd64");
    assert_eq!(Arch::Arm64.to_string(), "arm64");
}

#[test]
fn arch_refuses_other_labels() {
    assert_eq!(
        Arch::new("x86_64"),
        Err(PlatformError::UnknownArch { given: String::from("x86_64") })
    );
    assert_eq!(Arch::new(""), Err(PlatformError::UnknownArch { given: String::new() }));
    assert_eq!(
        Arch::new("AMD64"),
        Err(PlatformError::UnknownArch { given: String::from("AMD64") })
    );
}

#[test]
fn arch_labels_round_trip() {
    for arch in [Arch::Amd64, Arch::Arm64] {
        assert_eq!(Arch::new(&arch.to_string()), Ok(arch));
    }
}

#[test]
fn os_reads_its_labels() {
    assert_eq!(Os::new("macos"), Ok(Os::MacOs));
    assert_eq!(Os::new("linux"), Ok(Os::Linux));
    assert_eq!(Os::new("win"), Ok(Os::Windows));
    assert_eq!(Os::MacOs.to_string(), "macos");
    assert_eq!(Os::Linux.to_string(), "linux");
    assert_eq!(Os::Windows.to_string(), "win");
}

#[test]
fn os_refuses_other_labels() {
    assert_eq!(
        Os::new("windows"),
        Err(PlatformError::UnknownOs { given: String::from("windows") })
    );
    assert_eq!(Os::new(""), Err(PlatformError::UnknownOs { given: String::new() }));
}

#[test]
fn os_labels_round_trip() {
    for os in [Os::MacOs, Os::Linux, Os::Windows] {
        assert_eq!(Os::new(&os.to_string()), Ok(os));
    }
}

#[test]
fn errors_say_what_was_given() {
    assert_eq!(
        PlatformError::UnknownArch { given: String::from("mips") }.message(),
        "unknown arch mips"
    );
    assert_eq!(
        PlatformError::UnknownOs { given: String::from("beos") }.message(),
        "unknown os beos"
    );
    assert_eq!(PlatformError::UnknownPlatform.message(), "unknown platform");
}

#[test]
fn native_architectures_map_to_labels() {
    assert_eq!(native_arch_label("x86_64"), "amd64");
    assert_eq!(native_arch_label("aarch64"), "arm64");
    assert_eq!(native_arch_label("riscv64"), "");
    assert_eq!(native_arch_label(""), "");
}

#[test]
fn host_stands_in_for_what_is_left_open() {
    assert_eq!(
        resolve_platform(None, None, &host("x86_64", HostOs::Unix)),
        Ok(Platform { arch: Arch::Amd64, os: Os::Linux })
    );
    assert_eq!(
        resolve_platform(None, None, &host("aarch64", HostOs::MacOs)),
        Ok(Platform { arch: Arch::Arm64, os: Os::MacOs })
    );
    assert_eq!(
        resolve_platform(None, None, &host("x86_64", HostOs::Windows)),
        Ok(Platform { arch: Arch::Amd64, os: Os::Windows })
    );
}

#[test]
fn explicit_choice_wins_over_the_host() {
    assert_eq!(
        resolve_platform(Some(Arch::Arm64), Some(Os::MacOs), &host("x86_64", HostOs::Unix)),
        Ok(Platform { arch: Arch::Arm64, os: Os::MacOs })
    );
    assert_eq!(
        resolve_platform(Some(Arch::Arm64), Some(Os::Linux), &host("sparc", HostOs::Other)),
        Ok(Platform { arch: Arch::Arm64, os: Os::Linux })
    );
}

#[test]
fn unknown_host_is_an_unknown_platform() {
    assert_eq!(
        resolve_platform(None, Some(Os::Linux), &host("riscv64", HostOs::Unix)),
        Err(PlatformError::UnknownPlatform)
    );
    assert_eq!(
        resolve_platform(Some(Arch::Amd64), None, &host("x86_64", HostOs::Other)),
        Err(PlatformError::UnknownPlatform)
    );
}
