//! Error kinds of the tool manager's core. Every failure of the pipeline is
//! one of these; outcomes that are not failures (a declined overwrite, an
//! uninstall of an absent binary) are modelled as phases, not errors.

use vstd::prelude::*;

verus! {

/// One error kind per way the install / uninstall pipeline can fail.
/// `ReleaseFetchFailed` carries the HTTP status of the metadata fetch,
/// or `None` when the failure was at the transport level.
#[derive(Clone, Debug, PartialEq, Eq)]
pub enum InstallError {
    /// The requested tool is absent from the registry.
    ToolNotFound,
    /// The tool's install method names no known strategy.
    UnsupportedInstallMethod,
    /// The release-metadata fetch returned a non-success status or failed
    /// at the transport level.
    ReleaseFetchFailed(Option<u16>),
    /// The release document carries no asset list.
    NoAssetsInRelease,
    /// The release's asset list is empty.
    NoMatchingAsset,
    /// The chosen asset has no download URL.
    NoDownloadUrl,
    /// The install path uses the home-directory shorthand but no home
    /// directory could be determined.
    HomeDirectoryUnresolvable,
    /// The binary download failed.
    DownloadFailed,
    /// Creating the install directory, writing the binary, or setting its
    /// permissions failed.
    WriteFailed,
    /// Removing the installed binary failed.
    DeleteFailed,
}

impl InstallError {
    /// A short human-readable description of the error kind.
    pub fn describe(&self) -> (r: String)
        ensures
            r@.len() > 0,
    {
        let msg: &str = match self {
            InstallError::ToolNotFound => "tool not found in registry",
            InstallError::UnsupportedInstallMethod => "unsupported install method",
            InstallError::ReleaseFetchFailed(_) => "failed to fetch release info",
            InstallError::NoAssetsInRelease => "no assets found in release",
            InstallError::NoMatchingAsset => "no assets found in release",
            InstallError::NoDownloadUrl => "no download URL found",
            InstallError::HomeDirectoryUnresolvable => "could not determine home directory",
            InstallError::DownloadFailed => "failed to download binary",
            InstallError::WriteFailed => "failed to write binary",
            InstallError::DeleteFailed => "failed to remove binary",
        };
        proof {
            reveal_strlit("tool not found in registry");
            reveal_strlit("unsupported install method");
            reveal_strlit("failed to fetch release info");
            reveal_strlit("no assets found in release");
            reveal_strlit("no download URL found");
            reveal_strlit("could not determine home directory");
            reveal_strlit("failed to download binary");
            reveal_strlit("failed to write binary");
            reveal_strlit("failed to remove binary");
        }
        msg.to_owned()
    }
}

} // verus!
