//! The installer, as a state machine: the caller performs the outside
//! work each phase asks for (an existence check, a prompt, the two
//! fetches, the write, the search-path check) and reports what happened;
//! every decision in between — whether to confirm, which strategy to
//! dispatch, which asset to download, which failure to surface — is made
//! and proved here.

use vstd::prelude::*;
use vstd::string::*;
use crate::asset::{
    Asset,
    find_platform_asset,
    lemma_selected_exists,
    lemma_selected_unique,
    spec_selected,
};
use crate::confirm::{is_affirmative, spec_affirmative};
use crate::errors::InstallError;
use crate::paths::{expand_path, join_path, spec_expand, spec_join};
use crate::platform::{get_platform_string, spec_platform_tag};
use crate::registry::Tool;
use crate::strutil::str_eq;

verus! {

/// Where an installation stands. The first six phases each await one
/// piece of outside work; the last three are terminal outcomes.
#[derive(Clone, Debug, PartialEq, Eq)]
pub enum Phase {
    /// Awaiting: does a file already exist at the install location?
    CheckExisting,
    /// Awaiting: the user's answer to the overwrite prompt.
    Confirm,
    /// Awaiting: the latest-release document for the tool's repository.
    FetchRelease,
    /// Awaiting: the binary's bytes from the chosen asset's URL.
    Download,
    /// Awaiting: the install directory created and the bytes written and
    /// made executable at the install location.
    Write,
    /// Awaiting: whether the install directory lies on the search path.
    CheckPath,
    /// Terminal: the user declined the overwrite; nothing was touched.
    Cancelled,
    /// Terminal: the binary is installed at the resolved location.
    Installed { on_search_path: bool },
    /// Terminal: the installation failed.
    Failed(InstallError),
}

/// What the metadata fetch came back with: a transport failure, a
/// non-success HTTP status, or a document (whose asset list may be
/// missing or malformed).
pub enum FetchResult {
    Transport,
    Status(u16),
    Document(Option<Vec<Asset>>),
}

/// The outside world's report for one phase.
pub enum InstallEvent {
    Exists(bool),
    Answer(String),
    Fetched(FetchResult),
    Downloaded(bool),
    Written(bool),
    PathChecked(bool),
}

/// The phase awaits exactly this kind of event.
pub open spec fn spec_expects(phase: Phase, ev: InstallEvent) -> bool {
    match (phase, ev) {
        (Phase::CheckExisting, InstallEvent::Exists(_)) => true,
        (Phase::Confirm, InstallEvent::Answer(_)) => true,
        (Phase::FetchRelease, InstallEvent::Fetched(_)) => true,
        (Phase::Download, InstallEvent::Downloaded(_)) => true,
        (Phase::Write, InstallEvent::Written(_)) => true,
        (Phase::CheckPath, InstallEvent::PathChecked(_)) => true,
        _ => false,
    }
}

/// The phase is an outcome: it awaits nothing.
pub open spec fn spec_terminal(phase: Phase) -> bool {
    match phase {
        Phase::Cancelled => true,
        Phase::Installed { .. } => true,
        Phase::Failed(_) => true,
        _ => false,
    }
}

/// One installation in progress: the resolved locations, the canonical
/// platform tag, the chosen download URL once one is chosen, and the
/// current phase.
#[derive(Debug)]
pub struct Installer {
    pub install_method: String,
    pub install_dir: String,
    pub binary_path: String,
    pub platform: String,
    pub os: String,
    pub url: Option<String>,
    pub phase: Phase,
}

/// The view of an optional string.
pub open spec fn spec_opt_view(o: Option<String>) -> Option<Seq<char>> {
    match o {
        Some(s) => Some(s@),
        None => None,
    }
}

/// Strategy dispatch: only the GitHub-release method is known; any other
/// value fails fast rather than attempt a default strategy.
pub open spec fn spec_dispatch(m: Installer) -> Phase {
    if m.install_method@ == "github_release"@ {
        Phase::FetchRelease
    } else {
        Phase::Failed(InstallError::UnsupportedInstallMethod)
    }
}

/// What a fetched document leads to: no asset list fails, an empty list
/// fails, a selected asset without a URL fails, and otherwise the
/// download begins.
pub open spec fn spec_release_phase(m: Installer, doc: Option<Vec<Asset>>) -> Phase {
    match doc {
        None => Phase::Failed(InstallError::NoAssetsInRelease),
        Some(assets) => if assets@.len() == 0 {
            Phase::Failed(InstallError::NoMatchingAsset)
        } else {
            let i = choose|i: int| spec_selected(assets@, m.platform@, m.os@, i);
            if assets@[i].url is Some {
                Phase::Download
            } else {
                Phase::Failed(InstallError::NoDownloadUrl)
            }
        },
    }
}

/// The transition relation: the phase after handling `ev` in `m`.
pub open spec fn spec_next(m: Installer, ev: InstallEvent) -> Phase {
    match (m.phase, ev) {
        (Phase::CheckExisting, InstallEvent::Exists(e)) => if e {
            Phase::Confirm
        } else {
            spec_dispatch(m)
        },
        (Phase::Confirm, InstallEvent::Answer(s)) => if spec_affirmative(s@) {
            spec_dispatch(m)
        } else {
            Phase::Cancelled
        },
        (Phase::FetchRelease, InstallEvent::Fetched(f)) => match f {
            FetchResult::Transport => Phase::Failed(InstallError::ReleaseFetchFailed(None)),
            FetchResult::Status(st) => Phase::Failed(InstallError::ReleaseFetchFailed(Some(st))),
            FetchResult::Document(doc) => spec_release_phase(m, doc),
        },
        (Phase::Download, InstallEvent::Downloaded(ok)) => if ok {
            Phase::Write
        } else {
            Phase::Failed(InstallError::DownloadFailed)
        },
        (Phase::Write, InstallEvent::Written(ok)) => if ok {
            Phase::CheckPath
        } else {
            Phase::Failed(InstallError::WriteFailed)
        },
        (Phase::CheckPath, InstallEvent::PathChecked(b)) => Phase::Installed {
            on_search_path: b,
        },
        _ => m.phase,
    }
}

/// The download URL after handling `ev` in `m`: set when a fetched
/// document yields a selected asset with a URL, kept otherwise.
pub open spec fn spec_next_url(m: Installer, ev: InstallEvent) -> Option<Seq<char>> {
    match (m.phase, ev) {
        (Phase::FetchRelease, InstallEvent::Fetched(FetchResult::Document(Some(assets)))) => {
            if assets@.len() > 0 {
                let i = choose|i: int| spec_selected(assets@, m.platform@, m.os@, i);
                match assets@[i].url {
                    Some(u) => Some(u@),
                    None => spec_opt_view(m.url),
                }
            } else {
                spec_opt_view(m.url)
            }
        },
        _ => spec_opt_view(m.url),
    }
}

impl Installer {
    /// Begin installing `tool` on the given OS and architecture, with the
    /// given optional home directory: the install location is resolved up
    /// front, and the machine first asks whether a file already exists
    /// there. Fails exactly when the install path uses the home-directory
    /// shorthand and no home directory is known.
    pub fn new(tool: &Tool, os: &str, arch: &str, home: &Option<String>) -> (r: Result<
        Installer,
        InstallError,
    >)
        ensures
            r matches Ok(m) ==> {
                &&& m.phase == Phase::CheckExisting
                &&& m.os@ == os@
                &&& m.install_method@ == tool.install_method@
                &&& m.platform@ == spec_platform_tag(os@, arch@)
                &&& Some(m.install_dir@) == spec_expand(tool.install_path@, home.deep_view())
                &&& m.binary_path@ == spec_join(m.install_dir@, tool.binary_name@)
                &&& m.url is None
            },
            r is Err <==> spec_expand(tool.install_path@, home.deep_view()) is None,
            r matches Err(e) ==> e == InstallError::HomeDirectoryUnresolvable,
    {
        let install_dir = match expand_path(tool.install_path.as_str(), home) {
            Ok(d) => d,
            Err(e) => {
                return Err(e);
            },
        };
        let binary_path = join_path(install_dir.as_str(), tool.binary_name.as_str());
        let platform = get_platform_string(os, arch);
        Ok(
            Installer {
                install_method: tool.install_method.clone(),
                install_dir,
                binary_path,
                platform,
                os: os.to_owned(),
                url: None,
                phase: Phase::CheckExisting,
            },
        )
    }

    /// Handle the outside world's report for the current phase: the phase
    /// moves as the transition relation says, the download URL is set
    /// when one is chosen, and everything else stays as it is.
    pub fn step(&mut self, event: InstallEvent)
        requires
            spec_expects(old(self).phase, event),
        ensures
            final(self).phase == spec_next(*old(self), event),
            spec_opt_view(final(self).url) == spec_next_url(*old(self), event),
            final(self).install_method == old(self).install_method,
            final(self).install_dir == old(self).install_dir,
            final(self).binary_path == old(self).binary_path,
            final(self).platform == old(self).platform,
            final(self).os == old(self).os,
    {
        match event {
            InstallEvent::Exists(e) => {
                if e {
                    self.phase = Phase::Confirm;
                } else {
                    self.phase = self.dispatch();
                }
            },
            InstallEvent::Answer(s) => {
                if is_affirmative(s.as_str()) {
                    self.phase = self.dispatch();
                } else {
                    self.phase = Phase::Cancelled;
                }
            },
            InstallEvent::Fetched(f) => {
                match f {
                    FetchResult::Transport => {
                        self.phase = Phase::Failed(InstallError::ReleaseFetchFailed(None));
                    },
                    FetchResult::Status(st) => {
                        self.phase = Phase::Failed(InstallError::ReleaseFetchFailed(Some(st)));
                    },
                    FetchResult::Document(None) => {
                        self.phase = Phase::Failed(InstallError::NoAssetsInRelease);
                    },
                    FetchResult::Document(Some(assets)) => {
                        match find_platform_asset(
                            &assets,
                            self.platform.as_str(),
                            self.os.as_str(),
                        ) {
                            Err(_) => {
                                self.phase = Phase::Failed(InstallError::NoMatchingAsset);
                            },
                            Ok(i) => {
                                proof {
                                    lemma_selected_exists(assets@, self.platform@, self.os@);
                                    let k = choose|k: int|
                                        spec_selected(assets@, self.platform@, self.os@, k);
                                    lemma_selected_unique(
                                        assets@,
                                        self.platform@,
                                        self.os@,
                                        k,
                                        i as int,
                                    );
                                }
                                match &assets[i].url {
                                    Some(u) => {
                                        self.url = Some(u.clone());
                                        self.phase = Phase::Download;
                                    },
                                    None => {
                                        self.phase = Phase::Failed(InstallError::NoDownloadUrl);
                                    },
                                }
                            },
                        }
                    },
                }
            },
            InstallEvent::Downloaded(ok) => {
                if ok {
                    self.phase = Phase::Write;
                } else {
                    self.phase = Phase::Failed(InstallError::DownloadFailed);
                }
            },
            InstallEvent::Written(ok) => {
                if ok {
                    self.phase = Phase::CheckPath;
                } else {
                    self.phase = Phase::Failed(InstallError::WriteFailed);
                }
            },
            InstallEvent::PathChecked(b) => {
                self.phase = Phase::Installed { on_search_path: b };
            },
        }
    }

    /// Which strategy the tool's install method names.
    fn dispatch(&self) -> (r: Phase)
        ensures
            r == spec_dispatch(*self),
    {
        if str_eq(self.install_method.as_str(), "github_release") {
            Phase::FetchRelease
        } else {
            Phase::Failed(InstallError::UnsupportedInstallMethod)
        }
    }
}

/// A decline at the overwrite prompt ends the installation with the
/// cancelled outcome — not an error, and with no download or write phase
/// ever reached, so the existing file stays as it is.
pub proof fn lemma_decline_cancels(m: Installer, ans: String)
    requires
        m.phase == Phase::Confirm,
        !spec_affirmative(ans@),
    ensures
        spec_next(m, InstallEvent::Answer(ans)) == Phase::Cancelled,
        spec_terminal(spec_next(m, InstallEvent::Answer(ans))),
{
}

/// A terminal phase awaits nothing: no event is accepted after an
/// installation has been cancelled, has failed, or has finished.
pub proof fn lemma_terminal_accepts_nothing(phase: Phase, ev: InstallEvent)
    requires
        spec_terminal(phase),
    ensures
        !spec_expects(phase, ev),
{
}

} // verus!
