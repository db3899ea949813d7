use vstd::prelude::*;

verus! {

/// Why an install or uninstall step failed. Each variant carries the message
/// text reported by the failing operation, surfaced verbatim in a dialog.
pub enum InstallError {
    /// A path could not be resolved to its canonical form, or an environment
    /// variable lookup failed.
    PathResolution(String),
    /// The shortcut-creation helper reported error text.
    ShortcutCreation(String),
    /// A registry key could not be opened, read or written.
    Registry(String),
    /// A directory could not be created or enumerated.
    Io(String),
}

/// Mathematical image of an [`InstallError`]: the same variants over
/// character sequences.
pub enum InstallErrorV {
    PathResolution(Seq<char>),
    ShortcutCreation(Seq<char>),
    Registry(Seq<char>),
    Io(Seq<char>),
}

impl View for InstallError {
    type V = InstallErrorV;

    open spec fn view(&self) -> InstallErrorV {
        match self {
            InstallError::PathResolution(m) => InstallErrorV::PathResolution(m@),
            InstallError::ShortcutCreation(m) => InstallErrorV::ShortcutCreation(m@),
            InstallError::Registry(m) => InstallErrorV::Registry(m@),
            InstallError::Io(m) => InstallErrorV::Io(m@),
        }
    }
}

/// The message text carried by an error, whatever its variant.
pub open spec fn spec_message(e: InstallErrorV) -> Seq<char> {
    match e {
        InstallErrorV::PathResolution(m) => m,
        InstallErrorV::ShortcutCreation(m) => m,
        InstallErrorV::Registry(m) => m,
        InstallErrorV::Io(m) => m,
    }
}

impl InstallError {
    /// The message text to show in a dialog.
    pub fn message(&self) -> (r: &str)
        ensures
            r@ == spec_message(self@),
    {
        match self {
            InstallError::PathResolution(m) => m.as_str(),
            InstallError::ShortcutCreation(m) => m.as_str(),
            InstallError::Registry(m) => m.as_str(),
            InstallError::Io(m) => m.as_str(),
        }
    }
}

} // verus!
