//! Keys under which the release manifest lists its binaries.
//!
//! The manifest keys binaries by `"<os>-<arch>"`.
use vstd::prelude::*;

use crate::platform::{Arch, Os};

verus! {

/// The manifest lists binaries for the host: both its operating system and its architecture are
/// known there.
pub open spec fn supported(os: Os, arch: Arch) -> bool {
    os != Os::Other && arch != Arch::Other
}

/// The manifest's name of an operating system.
pub open spec fn os_name(os: Os) -> Seq<char> {
    match os {
        Os::Linux => "linux"@,
        Os::MacOs => "macos"@,
        Os::Windows => "windows"@,
        Os::Other => "unknown"@,
    }
}

/// The manifest's name of an architecture.
pub open spec fn arch_name(arch: Arch) -> Seq<char> {
    match arch {
        Arch::X86_64 => "x86_64"@,
        Arch::Aarch64 => "aarch64"@,
        Arch::Other => "unknown"@,
    }
}

/// The `(os, arch)` tuple under which the manifest knows a host.
pub open spec fn target_names(os: Os, arch: Arch) -> (Seq<char>, Seq<char>) {
    if supported(os, arch) {
        (os_name(os), arch_name(arch))
    } else {
        ("unknown"@, "unknown"@)
    }
}

/// The key under which the manifest knows a host.
pub open spec fn asset_key_spec(os: Os, arch: Arch) -> Seq<char> {
    target_names(os, arch).0 + "-"@ + target_names(os, arch).1
}

/// Resolve a host to the `(os, arch)` tuple that the release manifest understands. Both components
/// are `"unknown"` if the host falls outside the supported matrix; callers treat that as a
/// no-update signal.
pub fn platform_target(os: Os, arch: Arch) -> (target: (&'static str, &'static str))
    ensures
        target.0@ == target_names(os, arch).0,
        target.1@ == target_names(os, arch).1,
{
    let os = match os {
        Os::Linux => "linux",
        Os::MacOs => "macos",
        Os::Windows => "windows",
        Os::Other => {
            return ("unknown", "unknown");
        },
    };
    let arch = match arch {
        Arch::X86_64 => "x86_64",
        Arch::Aarch64 => "aarch64",
        Arch::Other => {
            return ("unknown", "unknown");
        },
    };
    (os, arch)
}

/// Asset key advertised to the release manifest for a host (e.g. `"linux-x86_64"`,
/// `"macos-aarch64"`, `"windows-x86_64"`).
pub fn asset_key(os: Os, arch: Arch) -> (key: String)
    ensures
        key@ == asset_key_spec(os, arch),
{
    let (os, arch) = platform_target(os, arch);
    let mut key = String::new();
    key.append(os);
    key.append("-");
    key.append(arch);
    key
}

/// Different supported hosts have different asset keys.
pub proof fn asset_keys_are_distinct(os: Os, arch: Arch, other_os: Os, other_arch: Arch)
    requires
        supported(os, arch),
        supported(other_os, other_arch),
        asset_key_spec(os, arch) == asset_key_spec(other_os, other_arch),
    ensures
        os == other_os,
        arch == other_arch,
{
    reveal_strlit("linux");
    reveal_strlit("macos");
    reveal_strlit("windows");
    reveal_strlit("x86_64");
    reveal_strlit("aarch64");
    reveal_strlit("-");
    let key = asset_key_spec(os, arch);
    let other = asset_key_spec(other_os, other_arch);
    assert(key[0] == os_name(os)[0]);
    assert(other[0] == os_name(other_os)[0]);
    assert(os == other_os);
    let at = os_name(os).len() as int + 1;
    assert(key[at] == arch_name(arch)[0]);
    assert(other[at] == arch_name(other_arch)[0]);
}

/// A host is known to the manifest as a whole or not at all: one component is unknown exactly when
/// the other is, which is when the host is not supported.
pub proof fn targets_are_known_as_a_whole(os: Os, arch: Arch)
    ensures
        (target_names(os, arch).0 == "unknown"@) == !supported(os, arch),
        (target_names(os, arch).1 == "unknown"@) == !supported(os, arch),
{
    reveal_strlit("linux");
    reveal_strlit("macos");
    reveal_strlit("windows");
    reveal_strlit("unknown");
    reveal_strlit("x86_64");
    reveal_strlit("aarch64");
    assert("unknown"@[0] == 'u');
    assert(os != Os::Other ==> os_name(os)[0] != 'u');
    assert(arch != Arch::Other ==> arch_name(arch)[0] != 'u');
}

/// Which hosts the manifest lists, and how a key is made up: three operating systems on two
/// architectures, each under its own lower-case name, with a dash between the two.
pub proof fn keys_name_the_host(os: Os, arch: Arch)
    ensures
        ({
            let (o, a) = target_names(os, arch);
            let known = arch is X86_64 || arch is Aarch64;
            &&& os is Linux && known <==> o == "linux"@
            &&& os is MacOs && known <==> o == "macos"@
            &&& os is Windows && known <==> o == "windows"@
            &&& arch is X86_64 && !(os is Other) <==> a == "x86_64"@
            &&& arch is Aarch64 && !(os is Other) <==> a == "aarch64"@
            &&& asset_key_spec(os, arch) == o + seq!['-'] + a
        }),
{
    reveal_strlit("linux");
    reveal_strlit("macos");
    reveal_strlit("windows");
    reveal_strlit("unknown");
    reveal_strlit("x86_64");
    reveal_strlit("aarch64");
    reveal_strlit("-");
    assert("-"@ =~= seq!['-']);
    assert("linux"@[0] == 'l' && "macos"@[0] == 'm' && "windows"@[0] == 'w' && "unknown"@[0]
        == 'u');
    assert("x86_64"@[0] == 'x' && "aarch64"@[0] == 'a');
}

} // verus!
