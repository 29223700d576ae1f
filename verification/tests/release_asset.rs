//! Asset keys of the release manifest.
use herdr::platform::{Arch, Os};
use herdr::release_asset::{asset_key, platform_target};

#[test]
fn platform_target_is_known() {
    for os in [Os::Linux, Os::MacOs, Os::Windows] {
        for arch in [Arch::X86_64, Arch::Aarch64] {
            let (os, arch) = platform_target(os, arch);
            assert!(
                os == "linux" || os == "macos" || os == "windows",
                "os: {os}"
            );
            assert!(arch == "x86_64" || arch == "aarch64", "arch: {arch}");
        }
    }
}

#[test]
fn asset_key_for_windows() {
    let key = asset_key(Os::Windows, Arch::X86_64);
    assert_eq!(key, "windows-x86_64");
    let key = asset_key(Os::Windows, Arch::Aarch64);
    assert_eq!(key, "windows-aarch64");
}

#[test]
fn asset_key_for_linux() {
    let key = asset_key(Os::Linux, Arch::X86_64);
    assert_eq!(key, "linux-x86_64");
    let key = asset_key(Os::Linux, Arch::Aarch64);
    assert_eq!(key, "linux-aarch64");
}

#[test]
fn asset_key_for_macos() {
    let key = asset_key(Os::MacOs, Arch::X86_64);
    assert_eq!(key, "macos-x86_64");
    let key = asset_key(Os::MacOs, Arch::Aarch64);
    assert_eq!(key, "macos-aarch64");
}

#[test]
fn unsupported_hosts_are_unknown_as_a_whole() {
    let unknown = ("unknown", "unknown");
    for os in [Os::Linux, Os::MacOs, Os::Windows, Os::Other] {
        assert_eq!(platform_target(os, Arch::Other), unknown);
    }
    for arch in [Arch::X86_64, Arch::Aarch64, Arch::Other] {
        assert_eq!(platform_target(Os::Other, arch), unknown);
    }
    assert_eq!(asset_key(Os::Other, Arch::Aarch64), "unknown-unknown");
    assert_eq!(asset_key(Os::Linux, Arch::Other), "unknown-unknown");
}

#[test]
fn every_supported_host_has_its_own_key() {
    let mut keys = Vec::new();
    for os in [Os::Linux, Os::MacOs, Os::Windows] {
        for arch in [Arch::X86_64, Arch::Aarch64] {
            keys.push(asset_key(os, arch));
        }
    }
    keys.sort();
    keys.dedup();
    assert_eq!(keys.len(), 6);
}
