//! The uninstaller, as a state machine: the caller checks for the binary
//! and deletes it when asked; the decisions — that an absent binary is a
//! successful "not installed" outcome and that exactly the resolved
//! location is removed — are made and proved here.

use vstd::prelude::*;
use vstd::string::*;
use crate::errors::InstallError;
use crate::paths::{expand_path, join_path, spec_expand, spec_join};
use crate::registry::Tool;

verus! {

/// Where an uninstallation stands. The first two phases each await one
/// piece of outside work; the last three are terminal outcomes.
#[derive(Clone, Debug, PartialEq, Eq)]
pub enum UninstallPhase {
    /// Awaiting: does a file exist at the install location?
    CheckExisting,
    /// Awaiting: the file at the install location deleted.
    Delete,
    /// Terminal: nothing was installed there; the filesystem was not
    /// touched, and this is not an error.
    NotInstalled,
    /// Terminal: the binary was removed.
    Removed,
    /// Terminal: the deletion failed.
    Failed(InstallError),
}

/// The outside world's report for one phase.
pub enum UninstallEvent {
    Exists(bool),
    Deleted(bool),
}

/// The phase awaits exactly this kind of event.
pub open spec fn spec_un_expects(phase: UninstallPhase, ev: UninstallEvent) -> bool {
    match (phase, ev) {
        (UninstallPhase::CheckExisting, UninstallEvent::Exists(_)) => true,
        (UninstallPhase::Delete, UninstallEvent::Deleted(_)) => true,
        _ => false,
    }
}

/// The phase is an outcome: it awaits nothing.
pub open spec fn spec_un_terminal(phase: UninstallPhase) -> bool {
    match phase {
        UninstallPhase::NotInstalled => true,
        UninstallPhase::Removed => true,
        UninstallPhase::Failed(_) => true,
        _ => false,
    }
}

/// The transition relation: an absent binary ends as `NotInstalled`
/// without any deletion; a present one is deleted, and only the deletion
/// itself can fail.
pub open spec fn spec_un_next(m: Uninstaller, ev: UninstallEvent) -> UninstallPhase {
    match (m.phase, ev) {
        (UninstallPhase::CheckExisting, UninstallEvent::Exists(e)) => if e {
            UninstallPhase::Delete
        } else {
            UninstallPhase::NotInstalled
        },
        (UninstallPhase::Delete, UninstallEvent::Deleted(ok)) => if ok {
            UninstallPhase::Removed
        } else {
            UninstallPhase::Failed(InstallError::DeleteFailed)
        },
        _ => m.phase,
    }
}

/// One uninstallation in progress: the resolved install location and the
/// current phase. The location never changes, so a deletion the machine
/// asks for touches exactly that file.
#[derive(Debug)]
pub struct Uninstaller {
    pub binary_path: String,
    pub phase: UninstallPhase,
}

impl Uninstaller {
    /// Begin uninstalling `tool`, with the given optional home directory:
    /// the install location is resolved up front, and the machine first
    /// asks whether a file exists there. Fails exactly when the install
    /// path uses the home-directory shorthand and no home directory is
    /// known.
    pub fn new(tool: &Tool, home: &Option<String>) -> (r: Result<Uninstaller, InstallError>)
        ensures
            r matches Ok(m) ==> {
                &&& m.phase == UninstallPhase::CheckExisting
                &&& exists|d: Seq<char>|
                    Some(d) == spec_expand(tool.install_path@, home.deep_view())
                        && m.binary_path@ == spec_join(d, tool.binary_name@)
            },
            r is Err <==> spec_expand(tool.install_path@, home.deep_view()) is None,
            r matches Err(e) ==> e == InstallError::HomeDirectoryUnresolvable,
    {
        let install_dir = match expand_path(tool.install_path.as_str(), home) {
            Ok(d) => d,
            Err(e) => {
                return Err(e);
            },
        };
        let binary_path = join_path(install_dir.as_str(), tool.binary_name.as_str());
        proof {
            assert(Some(install_dir@) == spec_expand(tool.install_path@, home.deep_view()));
        }
        Ok(Uninstaller { binary_path, phase: UninstallPhase::CheckExisting })
    }

    /// Handle the outside world's report for the current phase: the
    /// phase moves as the transition relation says, and the install
    /// location stays as it is.
    pub fn step(&mut self, event: UninstallEvent)
        requires
            spec_un_expects(old(self).phase, event),
        ensures
            final(self).phase == spec_un_next(*old(self), event),
            final(self).binary_path == old(self).binary_path,
    {
        match event {
            UninstallEvent::Exists(e) => {
                if e {
                    self.phase = UninstallPhase::Delete;
                } else {
                    self.phase = UninstallPhase::NotInstalled;
                }
            },
            UninstallEvent::Deleted(ok) => {
                if ok {
                    self.phase = UninstallPhase::Removed;
                } else {
                    self.phase = UninstallPhase::Failed(InstallError::DeleteFailed);
                }
            },
        }
    }
}

/// Uninstalling an absent binary ends at once with the `NotInstalled`
/// outcome — not an error — and terminally, so no deletion is ever asked
/// for and the filesystem is not touched.
pub proof fn lemma_absent_means_untouched(m: Uninstaller)
    requires
        m.phase == UninstallPhase::CheckExisting,
    ensures
        spec_un_next(m, UninstallEvent::Exists(false)) == UninstallPhase::NotInstalled,
        spec_un_terminal(spec_un_next(m, UninstallEvent::Exists(false))),
{
}

/// A terminal phase awaits nothing: once an uninstallation has ended, no
/// further action is asked of the outside world.
pub proof fn lemma_un_terminal_accepts_nothing(phase: UninstallPhase, ev: UninstallEvent)
    requires
        spec_un_terminal(phase),
    ensures
        !spec_un_expects(phase, ev),
{
}

} // verus!
