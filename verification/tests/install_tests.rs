use tl::asset::Asset;
use tl::errors::InstallError;
use tl::install::{FetchResult, InstallEvent, Installer, Phase};
use tl::registry::Tool;

fn tool() -> Tool {
    Tool {
        name: "tool".to_string(),
        description: "a tool".to_string(),
        github_repo: "owner/tool".to_string(),
        install_method: "github_release".to_string(),
        binary_name: "tool".to_string(),
        install_path: "~/bin".to_string(),
    }
}

fn home() -> Option<String> {
    Some("/home/u".to_string())
}

fn machine() -> Installer {
    Installer::new(&tool(), "linux", "x86_64", &home()).unwrap()
}

#[test]
fn new_resolves_locations_up_front() {
    let m = machine();
    assert_eq!(m.install_dir, "/home/u/bin");
    assert_eq!(m.binary_path, "/home/u/bin/tool");
    assert_eq!(m.platform, "linux-amd64");
    assert_eq!(m.phase, Phase::CheckExisting);
    assert!(m.url.is_none());
}

#[test]
fn new_without_home_fails() {
    let r = Installer::new(&tool(), "linux", "x86_64", &None);
    assert_eq!(r.unwrap_err(), InstallError::HomeDirectoryUnresolvable);
}

#[test]
fn successful_install_downloads_the_selected_asset() {
    // One asset whose name embeds the platform tag: its URL is fetched and
    // the machine walks write and search-path check to the installed outcome.
    let mut m = machine();
    m.step(InstallEvent::Exists(false));
    assert_eq!(m.phase, Phase::FetchRelease);
    let assets = vec![Asset {
        name: Some("tool-linux-amd64".to_string()),
        url: Some("U".to_string()),
    }];
    m.step(InstallEvent::Fetched(FetchResult::Document(Some(assets))));
    assert_eq!(m.phase, Phase::Download);
    assert_eq!(m.url.as_deref(), Some("U"));
    m.step(InstallEvent::Downloaded(true));
    assert_eq!(m.phase, Phase::Write);
    assert_eq!(m.binary_path, "/home/u/bin/tool");
    m.step(InstallEvent::Written(true));
    assert_eq!(m.phase, Phase::CheckPath);
    m.step(InstallEvent::PathChecked(true));
    assert_eq!(m.phase, Phase::Installed { on_search_path: true });
}

#[test]
fn install_off_the_search_path_reports_it() {
    let mut m = machine();
    m.step(InstallEvent::Exists(false));
    let assets = vec![Asset {
        name: Some("tool-linux-amd64".to_string()),
        url: Some("U".to_string()),
    }];
    m.step(InstallEvent::Fetched(FetchResult::Document(Some(assets))));
    m.step(InstallEvent::Downloaded(true));
    m.step(InstallEvent::Written(true));
    m.step(InstallEvent::PathChecked(false));
    assert_eq!(m.phase, Phase::Installed { on_search_path: false });
}

#[test]
fn decline_cancels_without_reaching_the_write() {
    // The binary already exists and the user declines: the cancelled
    // outcome, not an error, and no download or write was ever asked for.
    let mut m = machine();
    m.step(InstallEvent::Exists(true));
    assert_eq!(m.phase, Phase::Confirm);
    m.step(InstallEvent::Answer("n".to_string()));
    assert_eq!(m.phase, Phase::Cancelled);
}

#[test]
fn empty_answer_declines() {
    let mut m = machine();
    m.step(InstallEvent::Exists(true));
    m.step(InstallEvent::Answer("".to_string()));
    assert_eq!(m.phase, Phase::Cancelled);
}

#[test]
fn affirmative_answer_proceeds_to_fetch() {
    let mut m = machine();
    m.step(InstallEvent::Exists(true));
    m.step(InstallEvent::Answer("YES".to_string()));
    assert_eq!(m.phase, Phase::FetchRelease);
}

#[test]
fn unsupported_method_fails_fast() {
    let mut t = tool();
    t.install_method = "archive".to_string();
    let mut m = Installer::new(&t, "linux", "x86_64", &home()).unwrap();
    m.step(InstallEvent::Exists(false));
    assert_eq!(m.phase, Phase::Failed(InstallError::UnsupportedInstallMethod));
}

#[test]
fn transport_failure_surfaces_as_fetch_failed() {
    let mut m = machine();
    m.step(InstallEvent::Exists(false));
    m.step(InstallEvent::Fetched(FetchResult::Transport));
    assert_eq!(m.phase, Phase::Failed(InstallError::ReleaseFetchFailed(None)));
}

#[test]
fn http_status_surfaces_as_fetch_failed() {
    let mut m = machine();
    m.step(InstallEvent::Exists(false));
    m.step(InstallEvent::Fetched(FetchResult::Status(404)));
    assert_eq!(m.phase, Phase::Failed(InstallError::ReleaseFetchFailed(Some(404))));
}

#[test]
fn missing_asset_list_fails() {
    let mut m = machine();
    m.step(InstallEvent::Exists(false));
    m.step(InstallEvent::Fetched(FetchResult::Document(None)));
    assert_eq!(m.phase, Phase::Failed(InstallError::NoAssetsInRelease));
}

#[test]
fn empty_asset_list_fails() {
    let mut m = machine();
    m.step(InstallEvent::Exists(false));
    m.step(InstallEvent::Fetched(FetchResult::Document(Some(Vec::new()))));
    assert_eq!(m.phase, Phase::Failed(InstallError::NoMatchingAsset));
}

#[test]
fn selected_asset_without_url_fails() {
    let mut m = machine();
    m.step(InstallEvent::Exists(false));
    let assets = vec![Asset { name: Some("tool-linux-amd64".to_string()), url: None }];
    m.step(InstallEvent::Fetched(FetchResult::Document(Some(assets))));
    assert_eq!(m.phase, Phase::Failed(InstallError::NoDownloadUrl));
}

#[test]
fn failed_download_surfaces() {
    let mut m = machine();
    m.step(InstallEvent::Exists(false));
    let assets = vec![Asset {
        name: Some("tool-linux-amd64".to_string()),
        url: Some("U".to_string()),
    }];
    m.step(InstallEvent::Fetched(FetchResult::Document(Some(assets))));
    m.step(InstallEvent::Downloaded(false));
    assert_eq!(m.phase, Phase::Failed(InstallError::DownloadFailed));
}

#[test]
fn failed_write_surfaces() {
    let mut m = machine();
    m.step(InstallEvent::Exists(false));
    let assets = vec![Asset {
        name: Some("tool-linux-amd64".to_string()),
        url: Some("U".to_string()),
    }];
    m.step(InstallEvent::Fetched(FetchResult::Document(Some(assets))));
    m.step(InstallEvent::Downloaded(true));
    m.step(InstallEvent::Written(false));
    assert_eq!(m.phase, Phase::Failed(InstallError::WriteFailed));
}
