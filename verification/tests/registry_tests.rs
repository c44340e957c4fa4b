use tl::errors::InstallError;
use tl::registry::{Registry, Tool};

fn tool(name: &str) -> Tool {
    Tool {
        name: name.to_string(),
        description: format!("{} description", name),
        github_repo: format!("owner/{}", name),
        install_method: "github_release".to_string(),
        binary_name: name.to_string(),
        install_path: "~/bin".to_string(),
    }
}

#[test]
fn lookup_finds_what_was_added() {
    let mut r = Registry::new();
    assert!(r.add(tool("rg")));
    assert!(r.add(tool("fd")));
    let t = r.get("rg").unwrap();
    assert_eq!(t.name, "rg");
    assert_eq!(t.github_repo, "owner/rg");
    assert!(r.get("fd").is_some());
}

#[test]
fn lookup_of_an_absent_tool_finds_nothing() {
    let mut r = Registry::new();
    assert!(r.add(tool("rg")));
    assert!(r.get("ripgrep").is_none());
    // The caller turns this into the tool-not-found error.
    let e = match r.get("ripgrep") {
        Some(_) => None,
        None => Some(InstallError::ToolNotFound),
    };
    assert_eq!(e, Some(InstallError::ToolNotFound));
}

#[test]
fn duplicate_names_are_refused() {
    let mut r = Registry::new();
    assert!(r.add(tool("rg")));
    assert!(!r.add(tool("rg")));
    assert_eq!(r.tools().len(), 1);
}

#[test]
fn listing_keeps_insertion_order() {
    let mut r = Registry::new();
    assert!(r.add(tool("rg")));
    assert!(r.add(tool("fd")));
    assert!(r.add(tool("jq")));
    let names: Vec<&str> = r.tools().iter().map(|t| t.name.as_str()).collect();
    assert_eq!(names, vec!["rg", "fd", "jq"]);
}

#[test]
fn error_descriptions_are_nonempty() {
    let errors = vec![
        InstallError::ToolNotFound,
        InstallError::UnsupportedInstallMethod,
        InstallError::ReleaseFetchFailed(Some(500)),
        InstallError::ReleaseFetchFailed(None),
        InstallError::NoAssetsInRelease,
        InstallError::NoMatchingAsset,
        InstallError::NoDownloadUrl,
        InstallError::HomeDirectoryUnresolvable,
        InstallError::DownloadFailed,
        InstallError::WriteFailed,
        InstallError::DeleteFailed,
    ];
    for e in errors {
        assert!(!e.describe().is_empty());
    }
}
