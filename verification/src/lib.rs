//! Verified core of a one-shot desktop installer/uninstaller.
//!
//! The library computes everything the installer decides: the fixed shortcut
//! and directory paths, the automation script that creates a shortcut, which
//! files get their download-zone marker removed, the user PATH value after an
//! install, and the fail-fast action sequences of the install and uninstall
//! flows. The surrounding binary performs the actual filesystem, registry and
//! dialog work and feeds the outcomes back into the flow state machines.

pub mod errors;
pub mod text;
pub mod paths;
pub mod zone;
pub mod shortcut;
pub mod plan;
pub mod install;
pub mod uninstall;
