use vstd::prelude::*;
use crate::errors::InstallError;
use crate::errors::InstallErrorV;
use crate::paths;

verus! {

/// One outside operation the uninstall flow asks the host to perform.
pub enum UninstallAction {
    /// Ask the user to confirm the uninstall; answer with the choice.
    AskConfirmation,
    /// Look up the roaming application-data and user-profile directories;
    /// answer with both, or fail when a lookup fails.
    ResolveUserDirs,
    /// Best-effort delete this shortcut file; absence is not a failure.
    RemoveDesktopShortcut(String),
    /// Best-effort recursively delete this folder; absence is not a failure.
    RemoveStartMenuDir(String),
    /// Enumerate the running executable's directory and best-effort delete
    /// each entry; fail only when the enumeration itself fails.
    RemoveInstallEntries,
    /// Show the success dialog.
    ShowUninstalled,
    /// Show the failure dialog with the error's message.
    ShowUninstallError(InstallError),
}

/// Mathematical image of an [`UninstallAction`].
pub enum UninstallActionV {
    AskConfirmation,
    ResolveUserDirs,
    RemoveDesktopShortcut(Seq<char>),
    RemoveStartMenuDir(Seq<char>),
    RemoveInstallEntries,
    ShowUninstalled,
    ShowUninstallError(InstallErrorV),
}

impl View for UninstallAction {
    type V = UninstallActionV;

    open spec fn view(&self) -> UninstallActionV {
        match self {
            UninstallAction::AskConfirmation => UninstallActionV::AskConfirmation,
            UninstallAction::ResolveUserDirs => UninstallActionV::ResolveUserDirs,
            UninstallAction::RemoveDesktopShortcut(p) => UninstallActionV::RemoveDesktopShortcut(
                p@,
            ),
            UninstallAction::RemoveStartMenuDir(p) => UninstallActionV::RemoveStartMenuDir(p@),
            UninstallAction::RemoveInstallEntries => UninstallActionV::RemoveInstallEntries,
            UninstallAction::ShowUninstalled => UninstallActionV::ShowUninstalled,
            UninstallAction::ShowUninstallError(e) => UninstallActionV::ShowUninstallError(e@),
        }
    }
}

/// The host's answer to the uninstall action in flight.
pub enum UninstallEvent {
    /// The user's choice in the confirmation dialog.
    ConfirmAnswered(bool),
    /// The roaming application-data and user-profile directories, in that
    /// order.
    UserDirs(String, String),
    /// The operation completed (best-effort deletions always answer this,
    /// whether or not the item existed).
    Completed,
    /// The operation failed; the flow ends with the failure dialog.
    Failed(InstallError),
}

/// Mathematical image of an [`UninstallEvent`].
pub enum UninstallEventV {
    ConfirmAnswered(bool),
    UserDirs(Seq<char>, Seq<char>),
    Completed,
    Failed(InstallErrorV),
}

impl View for UninstallEvent {
    type V = UninstallEventV;

    open spec fn view(&self) -> UninstallEventV {
        match self {
            UninstallEvent::ConfirmAnswered(b) => UninstallEventV::ConfirmAnswered(*b),
            UninstallEvent::UserDirs(a, u) => UninstallEventV::UserDirs(a@, u@),
            UninstallEvent::Completed => UninstallEventV::Completed,
            UninstallEvent::Failed(e) => UninstallEventV::Failed(e@),
        }
    }
}

/// Where the uninstall flow stands: which action is in flight.
pub enum UninstallState {
    /// The confirmation dialog is up.
    Confirming,
    /// The user directories are being looked up.
    ResolvingDirs,
    /// The desktop shortcut is being deleted; the application-data directory
    /// is kept for the next step.
    RemovingDesktop { appdata: String },
    /// The start-menu folder is being deleted.
    RemovingStartDir,
    /// The install directory's entries are being deleted.
    Clearing,
    /// The flow has ended; nothing more is emitted.
    Done,
}

/// Mathematical image of an [`UninstallState`].
pub enum UninstallStateV {
    Confirming,
    ResolvingDirs,
    RemovingDesktop { appdata: Seq<char> },
    RemovingStartDir,
    Clearing,
    Done,
}

impl View for UninstallState {
    type V = UninstallStateV;

    open spec fn view(&self) -> UninstallStateV {
        match self {
            UninstallState::Confirming => UninstallStateV::Confirming,
            UninstallState::ResolvingDirs => UninstallStateV::ResolvingDirs,
            UninstallState::RemovingDesktop { appdata } => UninstallStateV::RemovingDesktop {
                appdata: appdata@,
            },
            UninstallState::RemovingStartDir => UninstallStateV::RemovingStartDir,
            UninstallState::Clearing => UninstallStateV::Clearing,
            UninstallState::Done => UninstallStateV::Done,
        }
    }
}

/// The view of an optional uninstall action.
pub open spec fn uaction_opt_view(r: Option<UninstallAction>) -> Option<UninstallActionV> {
    match r {
        Some(a) => Some(a@),
        None => None,
    }
}

/// The uninstall flow's transition relation. A declined confirmation ends the
/// flow with no action at all; the best-effort deletions always advance; a
/// failure ends the flow with the failure dialog; an answer that does not fit
/// the state changes nothing.
pub open spec fn ustep_view(s: UninstallStateV, ev: UninstallEventV) -> (
    UninstallStateV,
    Option<UninstallActionV>,
) {
    match ev {
        UninstallEventV::Failed(e) => match s {
            UninstallStateV::Done => (UninstallStateV::Done, None),
            _ => (UninstallStateV::Done, Some(UninstallActionV::ShowUninstallError(e))),
        },
        UninstallEventV::ConfirmAnswered(yes) => match s {
            UninstallStateV::Confirming => if yes {
                (UninstallStateV::ResolvingDirs, Some(UninstallActionV::ResolveUserDirs))
            } else {
                (UninstallStateV::Done, None)
            },
            _ => (s, None),
        },
        UninstallEventV::UserDirs(appdata, userprofile) => match s {
            UninstallStateV::ResolvingDirs => (
                UninstallStateV::RemovingDesktop { appdata },
                Some(
                    UninstallActionV::RemoveDesktopShortcut(
                        paths::desktop_link_view(userprofile),
                    ),
                ),
            ),
            _ => (s, None),
        },
        UninstallEventV::Completed => match s {
            UninstallStateV::RemovingDesktop { appdata } => (
                UninstallStateV::RemovingStartDir,
                Some(UninstallActionV::RemoveStartMenuDir(paths::start_menu_dir_view(appdata))),
            ),
            UninstallStateV::RemovingStartDir => (
                UninstallStateV::Clearing,
                Some(UninstallActionV::RemoveInstallEntries),
            ),
            UninstallStateV::Clearing => (
                UninstallStateV::Done,
                Some(UninstallActionV::ShowUninstalled),
            ),
            _ => (s, None),
        },
    }
}

/// The uninstall action sequence, driven as a state machine: the host
/// performs each returned action and feeds the outcome back through
/// [`Self::step`].
pub struct UninstallFlow {
    pub state: UninstallState,
}

impl UninstallFlow {
    /// A fresh flow, about to ask for confirmation.
    pub fn new() -> (r: UninstallFlow)
        ensures
            r.state@ == UninstallStateV::Confirming,
    {
        UninstallFlow { state: UninstallState::Confirming }
    }

    /// The first action of every uninstall: the confirmation dialog.
    pub fn start(&self) -> (r: UninstallAction)
        ensures
            r@ == UninstallActionV::AskConfirmation,
    {
        UninstallAction::AskConfirmation
    }

    /// Feeds the host's answer to the action in flight into the flow and
    /// returns the next action, or nothing when the flow has ended.
    pub fn step(&mut self, ev: UninstallEvent) -> (r: Option<UninstallAction>)
        ensures
            ({
                let (s2, a) = ustep_view(old(self).state@, ev@);
                &&& final(self).state@ == s2
                &&& uaction_opt_view(r) == a
            }),
    {
        let mut st = UninstallState::Done;
        core::mem::swap(&mut st, &mut self.state);
        match ev {
            UninstallEvent::Failed(e) => match st {
                UninstallState::Done => None,
                _ => Some(UninstallAction::ShowUninstallError(e)),
            },
            UninstallEvent::ConfirmAnswered(yes) => match st {
                UninstallState::Confirming => if yes {
                    self.state = UninstallState::ResolvingDirs;
                    Some(UninstallAction::ResolveUserDirs)
                } else {
                    None
                },
                other => {
                    self.state = other;
                    None
                },
            },
            UninstallEvent::UserDirs(appdata, userprofile) => match st {
                UninstallState::ResolvingDirs => {
                    let link = paths::desktop_link(userprofile.as_str());
                    self.state = UninstallState::RemovingDesktop { appdata };
                    Some(UninstallAction::RemoveDesktopShortcut(link))
                },
                other => {
                    self.state = other;
                    None
                },
            },
            UninstallEvent::Completed => match st {
                UninstallState::RemovingDesktop { appdata } => {
                    let dir = paths::start_menu_dir(appdata.as_str());
                    self.state = UninstallState::RemovingStartDir;
                    Some(UninstallAction::RemoveStartMenuDir(dir))
                },
                UninstallState::RemovingStartDir => {
                    self.state = UninstallState::Clearing;
                    Some(UninstallAction::RemoveInstallEntries)
                },
                UninstallState::Clearing => Some(UninstallAction::ShowUninstalled),
                other => {
                    self.state = other;
                    None
                },
            },
        }
    }
}

/// True of the actions that mutate the filesystem; the dialogs and lookups
/// mutate nothing.
pub open spec fn is_mutation(a: UninstallActionV) -> bool {
    match a {
        UninstallActionV::RemoveDesktopShortcut(_) => true,
        UninstallActionV::RemoveStartMenuDir(_) => true,
        UninstallActionV::RemoveInstallEntries => true,
        _ => false,
    }
}

/// Every action the flow emits from state `s` when the host answers with the
/// events `evs`, in order.
pub open spec fn uactions_from(s: UninstallStateV, evs: Seq<UninstallEventV>) -> Seq<
    UninstallActionV,
>
    decreases evs.len(),
{
    if evs.len() == 0 {
        Seq::empty()
    } else {
        let (s2, a) = ustep_view(s, evs.first());
        (match a {
            Some(x) => seq![x],
            None => Seq::<UninstallActionV>::empty(),
        }) + uactions_from(s2, evs.drop_first())
    }
}

/// A finished flow is dead: whatever the host answers, nothing more is
/// emitted.
pub proof fn lemma_uninstall_done_emits_nothing(evs: Seq<UninstallEventV>)
    ensures
        uactions_from(UninstallStateV::Done, evs).len() == 0,
    decreases evs.len(),
{
    if evs.len() > 0 {
        lemma_uninstall_done_emits_nothing(evs.drop_first());
    }
}

/// Law: an uninstall whose confirmation is declined performs zero filesystem
/// mutations — in fact it emits no action at all after the confirmation
/// dialog, whatever the host would answer later.
pub proof fn lemma_declined_confirmation_mutates_nothing(evs: Seq<UninstallEventV>)
    requires
        evs.len() >= 1,
        evs[0] == UninstallEventV::ConfirmAnswered(false),
    ensures
        uactions_from(UninstallStateV::Confirming, evs).len() == 0,
        forall|a: UninstallActionV|
            #[trigger] uactions_from(UninstallStateV::Confirming, evs).contains(a)
                ==> !is_mutation(a),
{
    assert(evs.first() == UninstallEventV::ConfirmAnswered(false));
    lemma_uninstall_done_emits_nothing(evs.drop_first());
}

/// Law: an accepted uninstall removes the desktop shortcut and the start-menu
/// folder and clears the install directory, in that order, and reports
/// success. The deletions are best-effort: the host answers `Completed`
/// whether or not the item existed, so an absent shortcut or folder surfaces
/// no error and skips nothing.
pub proof fn lemma_accepted_confirmation_removes_shortcuts(
    appdata: Seq<char>,
    userprofile: Seq<char>,
    evs: Seq<UninstallEventV>,
)
    requires
        evs =~= seq![
            UninstallEventV::ConfirmAnswered(true),
            UninstallEventV::UserDirs(appdata, userprofile),
            UninstallEventV::Completed,
            UninstallEventV::Completed,
            UninstallEventV::Completed,
        ],
    ensures
        uactions_from(UninstallStateV::Confirming, evs) =~= seq![
            UninstallActionV::ResolveUserDirs,
            UninstallActionV::RemoveDesktopShortcut(paths::desktop_link_view(userprofile)),
            UninstallActionV::RemoveStartMenuDir(paths::start_menu_dir_view(appdata)),
            UninstallActionV::RemoveInstallEntries,
            UninstallActionV::ShowUninstalled,
        ],
{
    let d1 = evs.drop_first();
    let d2 = d1.drop_first();
    let d3 = d2.drop_first();
    let d4 = d3.drop_first();
    let d5 = d4.drop_first();
    assert(evs.first() == UninstallEventV::ConfirmAnswered(true));
    assert(d1.first() == UninstallEventV::UserDirs(appdata, userprofile));
    assert(d2.first() == UninstallEventV::Completed);
    assert(d3.first() == UninstallEventV::Completed);
    assert(d4.first() == UninstallEventV::Completed);
    assert(d5.len() == 0);
    assert(uactions_from(UninstallStateV::Done, d5).len() == 0);
    assert(uactions_from(UninstallStateV::Clearing, d4) =~= seq![
        UninstallActionV::ShowUninstalled,
    ]);
    assert(uactions_from(UninstallStateV::RemovingStartDir, d3) =~= seq![
        UninstallActionV::RemoveInstallEntries,
    ] + uactions_from(UninstallStateV::Clearing, d4));
    assert(uactions_from(UninstallStateV::RemovingDesktop { appdata }, d2) =~= seq![
        UninstallActionV::RemoveStartMenuDir(paths::start_menu_dir_view(appdata)),
    ] + uactions_from(UninstallStateV::RemovingStartDir, d3));
    assert(uactions_from(UninstallStateV::ResolvingDirs, d1) =~= seq![
        UninstallActionV::RemoveDesktopShortcut(paths::desktop_link_view(userprofile)),
    ] + uactions_from(UninstallStateV::RemovingDesktop { appdata }, d2));
    assert(uactions_from(UninstallStateV::Confirming, evs) =~= seq![
        UninstallActionV::ResolveUserDirs,
    ] + uactions_from(UninstallStateV::ResolvingDirs, d1));
}

} // verus!
