use tl::errors::InstallError;
use tl::registry::Tool;
use tl::uninstall::{UninstallEvent, UninstallPhase, Uninstaller};

fn tool() -> Tool {
    Tool {
        name: "tool".to_string(),
        description: "a tool".to_string(),
        github_repo: "owner/tool".to_string(),
        install_method: "github_release".to_string(),
        binary_name: "tool".to_string(),
        install_path: "~/bin".to_string(),
    }
}

fn home() -> Option<String> {
    Some("/home/u".to_string())
}

#[test]
fn new_resolves_the_binary_path() {
    let m = Uninstaller::new(&tool(), &home()).unwrap();
    assert_eq!(m.binary_path, "/home/u/bin/tool");
    assert_eq!(m.phase, UninstallPhase::CheckExisting);
}

#[test]
fn uninstaller_new_without_home_fails() {
    let r = Uninstaller::new(&tool(), &None);
    assert_eq!(r.unwrap_err(), InstallError::HomeDirectoryUnresolvable);
}

#[test]
fn absent_binary_is_not_installed_and_nothing_is_deleted() {
    // The "not installed" outcome is terminal and success-like: the machine
    // never reaches the delete phase, so the filesystem is untouched.
    let mut m = Uninstaller::new(&tool(), &home()).unwrap();
    m.step(UninstallEvent::Exists(false));
    assert_eq!(m.phase, UninstallPhase::NotInstalled);
}

#[test]
fn present_binary_is_deleted_at_exactly_its_path() {
    let mut m = Uninstaller::new(&tool(), &home()).unwrap();
    m.step(UninstallEvent::Exists(true));
    assert_eq!(m.phase, UninstallPhase::Delete);
    // The path the delete phase asks to remove is the resolved location.
    assert_eq!(m.binary_path, "/home/u/bin/tool");
    m.step(UninstallEvent::Deleted(true));
    assert_eq!(m.phase, UninstallPhase::Removed);
}

#[test]
fn failed_deletion_surfaces() {
    let mut m = Uninstaller::new(&tool(), &home()).unwrap();
    m.step(UninstallEvent::Exists(true));
    m.step(UninstallEvent::Deleted(false));
    assert_eq!(m.phase, UninstallPhase::Failed(InstallError::DeleteFailed));
}
