use avalanche_installer::archive::{
    archive_for, build_archive_spec, download_url, strip_leading, unknown_platform_text,
    ArchiveSpec, DecoderKind,
};
use avalanche_installer::error::PlatformError;
use avalanche_installer::layout::{has_zip_layout, install_dir, installed_artifact, InstalledArtifact};
use avalanche_installer::platform::{Arch, Host, HostOs, Os, Platform};
use avalanche_installer::product::Product;

fn linux_host() -> Host {
    Host { arch: String::from("x86_64"), os: HostOs::Unix }
}

fn built(product: Product, tag: &str, arch: Arch, os: Os) -> ArchiveSpec {
    build_archive_spec(product, tag, Some(arch), Some(os), &linux_host()).unwrap()
}

#[test]
fn node_archives_are_named_by_platform_and_tag() {
    let mac = built(Product::AvalancheGo, "v1.9.16", Arch::Arm64, Os::MacOs);
    assert_eq!(mac.file_name, "avalanchego-macos-v1.9.16.zip");
    assert_eq!(mac.decoder, DecoderKind::Zip);
    let linux = built(Product::AvalancheGo, "v1.9.16", Arch::Amd64, Os::Linux);
    assert_eq!(linux.file_name, "avalanchego-linux-amd64-v1.9.16.tar.gz");
    assert_eq!(linux.decoder, DecoderKind::TarGzip);
    let arm = built(Product::AvalancheGo, "v1.9.16", Arch::Arm64, Os::Linux);
    assert_eq!(arm.file_name, "avalanchego-linux-arm64-v1.9.16.tar.gz");
    let win = built(Product::AvalancheGo, "v1.9.16", Arch::Amd64, Os::Windows);
    assert_eq!(win.file_name, "avalanchego-win-v1.9.16-experimental.zip");
    assert_eq!(win.decoder, DecoderKind::Zip);
}

#[test]
fn plugin_archives_drop_the_v_of_the_tag() {
    let mac = built(Product::SubnetEvm, "v0.4.8", Arch::Arm64, Os::MacOs);
    assert_eq!(mac.file_name, "subnet-evm_0.4.8_darwin_arm64.tar.gz");
    assert_eq!(mac.decoder, DecoderKind::TarGzip);
    let linux = built(Product::SubnetEvm, "v0.4.8", Arch::Amd64, Os::Linux);
    assert_eq!(linux.file_name, "subnet-evm_0.4.8_linux_amd64.tar.gz");
    assert_eq!(linux.decoder, DecoderKind::TarGzip);
    let plain = built(Product::SubnetEvm, "0.5.0", Arch::Amd64, Os::Linux);
    assert_eq!(plain.file_name, "subnet-evm_0.5.0_linux_amd64.tar.gz");
}

#[test]
fn download_addresses_hold_the_tag_as_it_is() {
    let node = built(Product::AvalancheGo, "v1.9.16", Arch::Amd64, Os::Linux);
    assert_eq!(
        node.download_url,
        "https://github.com/ava-labs/avalanchego/releases/download/v1.9.16/avalanchego-linux-amd64-v1.9.16.tar.gz"
    );
    let plugin = built(Product::SubnetEvm, "v0.4.8", Arch::Amd64, Os::Linux);
    assert_eq!(
        plugin.download_url,
        "https://github.com/ava-labs/subnet-evm/releases/download/v0.4.8/subnet-evm_0.4.8_linux_amd64.tar.gz"
    );
    assert_eq!(
        download_url(Product::AvalancheGo, "t", "f"),
        "https://github.com/ava-labs/avalanchego/releases/download/t/f"
    );
}

#[test]
fn every_supported_name_holds_the_tag_and_fits_its_decoder() {
    let tag = "v7.8.9-fuji";
    for product in [Product::AvalancheGo, Product::SubnetEvm] {
        for arch in [Arch::Amd64, Arch::Arm64] {
            for os in [Os::MacOs, Os::Linux, Os::Windows] {
                if product == Product::SubnetEvm && os == Os::Windows {
                    continue;
                }
                let spec = built(product, tag, arch, os);
                let in_name = if product == Product::SubnetEvm { "7.8.9-fuji" } else { tag };
                assert!(spec.file_name.contains(in_name));
                assert!(spec.download_url.contains(tag));
                assert!(spec.download_url.ends_with(&spec.file_name));
                assert_eq!(spec.file_name.ends_with(".zip"), spec.decoder == DecoderKind::Zip);
                assert_eq!(spec.file_name.ends_with(".tar.gz"), spec.decoder == DecoderKind::TarGzip);
                assert!(spec.file_name.ends_with(spec.decoder.extension()));
            }
        }
    }
}

#[test]
fn plugin_is_not_published_for_windows() {
    for arch in [Arch::Amd64, Arch::Arm64] {
        assert_eq!(
            build_archive_spec(Product::SubnetEvm, "v0.4.8", Some(arch), Some(Os::Windows), &linux_host()),
            Err(PlatformError::UnknownPlatform)
        );
        assert_eq!(
            archive_for(Product::SubnetEvm, "v0.4.8", Platform { arch, os: Os::Windows }),
            Err(PlatformError::UnknownPlatform)
        );
    }
    let windows = Host { arch: String::from("x86_64"), os: HostOs::Windows };
    assert_eq!(
        build_archive_spec(Product::SubnetEvm, "v0.4.8", None, None, &windows),
        Err(PlatformError::UnknownPlatform)
    );
}

#[test]
fn hosts_that_are_not_known_give_no_archive() {
    let odd_arch = Host { arch: String::from("riscv64"), os: HostOs::Unix };
    assert_eq!(
        build_archive_spec(Product::AvalancheGo, "v1.9.16", None, None, &odd_arch),
        Err(PlatformError::UnknownPlatform)
    );
    let odd_os = Host { arch: String::from("x86_64"), os: HostOs::Other };
    assert_eq!(
        build_archive_spec(Product::AvalancheGo, "v1.9.16", None, None, &odd_os),
        Err(PlatformError::UnknownPlatform)
    );
    assert_eq!(
        build_archive_spec(Product::AvalancheGo, "v1.9.16", Some(Arch::Amd64), None, &odd_arch)
            .unwrap()
            .file_name,
        "avalanchego-linux-amd64-v1.9.16.tar.gz"
    );
}

#[test]
fn host_decides_where_nothing_is_chosen() {
    let spec = build_archive_spec(Product::AvalancheGo, "v1.9.16", None, None, &linux_host()).unwrap();
    assert_eq!(spec.file_name, "avalanchego-linux-amd64-v1.9.16.tar.gz");
    let mac = Host { arch: String::from("aarch64"), os: HostOs::MacOs };
    let spec = build_archive_spec(Product::SubnetEvm, "v0.4.8", None, None, &mac).unwrap();
    assert_eq!(spec.file_name, "subnet-evm_0.4.8_darwin_arm64.tar.gz");
}

#[test]
fn strip_leading_takes_the_whole_run() {
    assert_eq!(strip_leading("v0.4.8", 'v'), "0.4.8");
    assert_eq!(strip_leading("vvv1", 'v'), "1");
    assert_eq!(strip_leading("0.4.8", 'v'), "0.4.8");
    assert_eq!(strip_leading("1v", 'v'), "1v");
    assert_eq!(strip_leading("vvv", 'v'), "");
    assert_eq!(strip_leading("", 'v'), "");
    assert_eq!(strip_leading("v0.4.8", 'v'), "v0.4.8".trim_start_matches('v'));
}

#[test]
fn extensions_of_the_decoders() {
    assert_eq!(DecoderKind::Zip.extension(), ".zip");
    assert_eq!(DecoderKind::TarGzip.extension(), ".tar.gz");
    assert!(has_zip_layout(DecoderKind::Zip));
    assert!(!has_zip_layout(DecoderKind::TarGzip));
}

#[test]
fn zip_of_the_node_unpacks_into_build() {
    assert_eq!(install_dir(Product::AvalancheGo, DecoderKind::Zip, "v1.9.16", "/tmp/x"), "/tmp/x/build");
    assert_eq!(
        installed_artifact(Product::AvalancheGo, DecoderKind::Zip, "v1.9.16", "/tmp/x"),
        InstalledArtifact {
            binary_path: String::from("/tmp/x/build/avalanchego"),
            plugins_dir: Some(String::from("/tmp/x/build/plugins")),
        }
    );
}

#[test]
fn tar_of_the_node_unpacks_into_a_directory_named_by_the_tag() {
    assert_eq!(
        installed_artifact(Product::AvalancheGo, DecoderKind::TarGzip, "v1.9.16", "/tmp/x"),
        InstalledArtifact {
            binary_path: String::from("/tmp/x/avalanchego-v1.9.16/avalanchego"),
            plugins_dir: Some(String::from("/tmp/x/avalanchego-v1.9.16/plugins")),
        }
    );
    assert_eq!(
        installed_artifact(Product::AvalancheGo, DecoderKind::TarGzip, "v1.9.16", "/tmp/x/"),
        InstalledArtifact {
            binary_path: String::from("/tmp/x/avalanchego-v1.9.16/avalanchego"),
            plugins_dir: Some(String::from("/tmp/x/avalanchego-v1.9.16/plugins")),
        }
    );
}

#[test]
fn plugin_lies_in_the_unpack_directory_itself() {
    assert_eq!(
        installed_artifact(Product::SubnetEvm, DecoderKind::TarGzip, "v0.4.8", "/tmp/y"),
        InstalledArtifact { binary_path: String::from("/tmp/y/subnet-evm"), plugins_dir: None }
    );
}

#[test]
fn unknown_platforms_are_told_by_product_and_choice() {
    assert_eq!(
        unknown_platform_text(Product::SubnetEvm, Some(Os::Windows), HostOs::Unix, "linux"),
        "windows not supported"
    );
    assert_eq!(
        unknown_platform_text(Product::SubnetEvm, None, HostOs::Other, "freebsd"),
        "unknown OS"
    );
    assert_eq!(
        unknown_platform_text(Product::SubnetEvm, None, HostOs::Windows, "windows"),
        "unknown OS"
    );
    assert_eq!(
        unknown_platform_text(Product::SubnetEvm, None, HostOs::Unix, "linux"),
        "unknown platform 'linux'"
    );
    assert_eq!(
        unknown_platform_text(Product::SubnetEvm, Some(Os::Linux), HostOs::Other, "redox"),
        "unknown platform 'redox'"
    );
    assert_eq!(
        unknown_platform_text(Product::AvalancheGo, None, HostOs::Other, "freebsd"),
        "unknown platform 'freebsd'"
    );
    assert_eq!(
        unknown_platform_text(Product::AvalancheGo, Some(Os::Windows), HostOs::Windows, ""),
        "unknown platform ''"
    );
}
