use tl::platform::get_platform_string;

#[test]
fn linux_amd64() {
    assert_eq!(get_platform_string("linux", "x86_64"), "linux-amd64");
}

#[test]
fn linux_arm64() {
    assert_eq!(get_platform_string("linux", "aarch64"), "linux-arm64");
}

#[test]
fn darwin_amd64() {
    assert_eq!(get_platform_string("macos", "x86_64"), "darwin-amd64");
}

#[test]
fn darwin_arm64() {
    assert_eq!(get_platform_string("macos", "aarch64"), "darwin-arm64");
}

#[test]
fn windows_amd64() {
    assert_eq!(get_platform_string("windows", "x86_64"), "windows-amd64");
}

#[test]
fn unrecognized_pair_falls_back() {
    assert_eq!(get_platform_string("plan9", "mips"), "plan9-mips");
    assert_eq!(get_platform_string("windows", "aarch64"), "windows-aarch64");
    assert_eq!(get_platform_string("", ""), "-");
}
