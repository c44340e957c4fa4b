//! A verified core for a command-line tool manager: given a release's asset
//! list and the running machine's OS and architecture, pick the right
//! artifact, resolve the install location, and drive an idempotent install
//! (and uninstall) with confirmation on overwrite and search-path
//! diagnostics. I/O stays outside; the decisions live here.

pub mod asset;
pub mod confirm;
pub mod errors;
pub mod install;
pub mod paths;
pub mod platform;
pub mod registry;
pub mod strutil;
pub mod uninstall;
