//! The platform identifier: a pure, total map from an (OS, architecture)
//! pair to the canonical tag used to match release assets.

use vstd::prelude::*;
use vstd::string::*;
use crate::strutil::str_eq;

verus! {

/// Canonical platform tag for a recognized (OS, architecture) pair;
/// any other pair falls back to `"{os}-{arch}"`.
pub open spec fn spec_platform_tag(os: Seq<char>, arch: Seq<char>) -> Seq<char> {
    if os == "linux"@ && arch == "x86_64"@ {
        "linux-amd64"@
    } else if os == "linux"@ && arch == "aarch64"@ {
        "linux-arm64"@
    } else if os == "macos"@ && arch == "x86_64"@ {
        "darwin-amd64"@
    } else if os == "macos"@ && arch == "aarch64"@ {
        "darwin-arm64"@
    } else if os == "windows"@ && arch == "x86_64"@ {
        "windows-amd64"@
    } else {
        os + "-"@ + arch
    }
}

/// The canonical platform tag for the given OS and architecture. Never
/// fails: an unrecognized pair yields the literal `"{os}-{arch}"`, and
/// matching downstream simply may find nothing.
pub fn get_platform_string(os: &str, arch: &str) -> (r: String)
    ensures
        r@ == spec_platform_tag(os@, arch@),
{
    let os_linux = str_eq(os, "linux");
    let os_macos = str_eq(os, "macos");
    let os_windows = str_eq(os, "windows");
    let arch_x86 = str_eq(arch, "x86_64");
    let arch_arm = str_eq(arch, "aarch64");
    if os_linux && arch_x86 {
        "linux-amd64".to_owned()
    } else if os_linux && arch_arm {
        "linux-arm64".to_owned()
    } else if os_macos && arch_x86 {
        "darwin-amd64".to_owned()
    } else if os_macos && arch_arm {
        "darwin-arm64".to_owned()
    } else if os_windows && arch_x86 {
        "windows-amd64".to_owned()
    } else {
        let mut r = os.to_owned();
        r.append("-");
        r.append(arch);
        r
    }
}

} // verus!
