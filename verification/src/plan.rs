use vstd::prelude::*;
use vstd::string::StringExecFns;
use crate::paths;
use crate::shortcut::ShortcutRequest;
use crate::shortcut::ShortcutRequestV;

verus! {

/// The five independent install options, read from the checkboxes at the
/// moment the install action runs.
#[derive(Clone, Copy, PartialEq, Eq, Structural)]
pub struct InstallOptions {
    pub start_menu: bool,
    pub desktop: bool,
    pub updater: bool,
    pub uninstaller: bool,
    pub add_to_path: bool,
}

/// The host values an install works from: the working directory at launch
/// (the install root), the two user-profile environment values, and the path
/// of the running executable (the uninstall shortcut's target).
pub struct InstallEnv {
    pub install_root: String,
    pub appdata: String,
    pub userprofile: String,
    pub exe_path: String,
}

/// Mathematical image of an [`InstallEnv`].
pub struct InstallEnvV {
    pub install_root: Seq<char>,
    pub appdata: Seq<char>,
    pub userprofile: Seq<char>,
    pub exe_path: Seq<char>,
}

impl View for InstallEnv {
    type V = InstallEnvV;

    open spec fn view(&self) -> InstallEnvV {
        InstallEnvV {
            install_root: self.install_root@,
            appdata: self.appdata@,
            userprofile: self.userprofile@,
            exe_path: self.exe_path@,
        }
    }
}

/// The start-menu shortcut: launches the interpreter on the application
/// module, from the install root, with the bundled icon.
pub open spec fn start_menu_request_view(env: InstallEnvV, interp: Seq<char>) -> ShortcutRequestV {
    ShortcutRequestV {
        target: interp,
        args: "-m bcml"@,
        title: "BCML"@,
        output: paths::join_view(paths::start_menu_dir_view(env.appdata), "BCML.lnk"@),
        working_dir: Some(env.install_root),
        icon: Some(paths::icon_path_view(env.install_root)),
    }
}

/// The desktop shortcut: as the start-menu one, but written to the user's
/// desktop.
pub open spec fn desktop_request_view(env: InstallEnvV, interp: Seq<char>) -> ShortcutRequestV {
    ShortcutRequestV {
        target: interp,
        args: "-m bcml"@,
        title: "BCML"@,
        output: paths::desktop_link_view(env.userprofile),
        working_dir: Some(env.install_root),
        icon: Some(paths::icon_path_view(env.install_root)),
    }
}

/// The updater shortcut: the interpreter with the upgrade-install argument,
/// in the start-menu folder, with no icon override.
pub open spec fn updater_request_view(env: InstallEnvV, interp: Seq<char>) -> ShortcutRequestV {
    ShortcutRequestV {
        target: interp,
        args: "-m pip install -U bcml"@,
        title: "Update BCML"@,
        output: paths::join_view(paths::start_menu_dir_view(env.appdata), "Update.lnk"@),
        working_dir: Some(env.install_root),
        icon: None,
    }
}

/// The uninstaller shortcut: this program's own executable with the uninstall
/// flag, in the start-menu folder.
pub open spec fn uninstaller_request_view(env: InstallEnvV) -> ShortcutRequestV {
    ShortcutRequestV {
        target: env.exe_path,
        args: "--uninstall"@,
        title: "Uninstall BCML"@,
        output: paths::join_view(paths::start_menu_dir_view(env.appdata), "Uninstall.lnk"@),
        working_dir: Some(env.install_root),
        icon: None,
    }
}

pub fn start_menu_request(env: &InstallEnv, interp: &str) -> (r: ShortcutRequest)
    ensures
        r@ == start_menu_request_view(env@, interp@),
{
    let dir = paths::start_menu_dir(env.appdata.as_str());
    ShortcutRequest {
        target: String::from_str(interp),
        args: String::from_str("-m bcml"),
        title: String::from_str("BCML"),
        output: paths::join(dir.as_str(), "BCML.lnk"),
        working_dir: Some(env.install_root.clone()),
        icon: Some(paths::icon_path(env.install_root.as_str())),
    }
}

pub fn desktop_request(env: &InstallEnv, interp: &str) -> (r: ShortcutRequest)
    ensures
        r@ == desktop_request_view(env@, interp@),
{
    ShortcutRequest {
        target: String::from_str(interp),
        args: String::from_str("-m bcml"),
        title: String::from_str("BCML"),
        output: paths::desktop_link(env.userprofile.as_str()),
        working_dir: Some(env.install_root.clone()),
        icon: Some(paths::icon_path(env.install_root.as_str())),
    }
}

pub fn updater_request(env: &InstallEnv, interp: &str) -> (r: ShortcutRequest)
    ensures
        r@ == updater_request_view(env@, interp@),
{
    let dir = paths::start_menu_dir(env.appdata.as_str());
    ShortcutRequest {
        target: String::from_str(interp),
        args: String::from_str("-m pip install -U bcml"),
        title: String::from_str("Update BCML"),
        output: paths::join(dir.as_str(), "Update.lnk"),
        working_dir: Some(env.install_root.clone()),
        icon: None,
    }
}

pub fn uninstaller_request(env: &InstallEnv) -> (r: ShortcutRequest)
    ensures
        r@ == uninstaller_request_view(env@),
{
    let dir = paths::start_menu_dir(env.appdata.as_str());
    ShortcutRequest {
        target: env.exe_path.clone(),
        args: String::from_str("--uninstall"),
        title: String::from_str("Uninstall BCML"),
        output: paths::join(dir.as_str(), "Uninstall.lnk"),
        working_dir: Some(env.install_root.clone()),
        icon: None,
    }
}

/// The shortcuts an install creates, in their fixed order: one per checked
/// option, none for an unchecked one. `interp` is the canonical interpreter
/// path resolved earlier in the flow.
pub open spec fn shortcut_plan_view(opts: InstallOptions, env: InstallEnvV, interp: Seq<char>)
    -> Seq<ShortcutRequestV> {
    (if opts.start_menu {
        seq![start_menu_request_view(env, interp)]
    } else {
        Seq::<ShortcutRequestV>::empty()
    }) + (if opts.desktop {
        seq![desktop_request_view(env, interp)]
    } else {
        Seq::<ShortcutRequestV>::empty()
    }) + (if opts.updater {
        seq![updater_request_view(env, interp)]
    } else {
        Seq::<ShortcutRequestV>::empty()
    }) + (if opts.uninstaller {
        seq![uninstaller_request_view(env)]
    } else {
        Seq::<ShortcutRequestV>::empty()
    })
}

/// How many of the four shortcut options are checked.
pub open spec fn checked_shortcut_count(opts: InstallOptions) -> int {
    (if opts.start_menu { 1int } else { 0 }) + (if opts.desktop { 1int } else { 0 })
        + (if opts.updater { 1int } else { 0 }) + (if opts.uninstaller { 1int } else { 0 })
}

/// Builds the shortcut requests for the checked options, in the fixed order.
pub fn planned_shortcuts(opts: &InstallOptions, env: &InstallEnv, interp: &str) -> (r: Vec<
    ShortcutRequest,
>)
    ensures
        r.deep_view() == shortcut_plan_view(*opts, env@, interp@),
{
    let mut r: Vec<ShortcutRequest> = Vec::new();
    if opts.start_menu {
        r.push(start_menu_request(env, interp));
    }
    if opts.desktop {
        r.push(desktop_request(env, interp));
    }
    if opts.updater {
        r.push(updater_request(env, interp));
    }
    if opts.uninstaller {
        r.push(uninstaller_request(env));
    }
    proof {
        assert(r.deep_view() =~= shortcut_plan_view(*opts, env@, interp@));
    }
    r
}

proof fn lemma_concat_contains<A>(a: Seq<A>, b: Seq<A>, x: A)
    ensures
        (a + b).contains(x) <==> a.contains(x) || b.contains(x),
{
    if a.contains(x) {
        let i = choose|i: int| 0 <= i < a.len() && a[i] == x;
        assert((a + b)[i] == x);
    }
    if b.contains(x) {
        let i = choose|i: int| 0 <= i < b.len() && b[i] == x;
        assert((a + b)[a.len() + i] == x);
    }
    if (a + b).contains(x) {
        let i = choose|i: int| 0 <= i < (a + b).len() && (a + b)[i] == x;
        if i < a.len() {
            assert(a[i] == x);
        } else {
            assert(b[i - a.len()] == x);
        }
    }
}

/// Law: for every combination of the option flags, the plan holds exactly the
/// checked options' shortcuts and no others — a request is in the plan
/// precisely when it is the request of some checked option, and the plan's
/// length is the number of checked shortcut options.
pub proof fn lemma_plan_exactly_checked(opts: InstallOptions, env: InstallEnvV, interp: Seq<char>)
    ensures
        shortcut_plan_view(opts, env, interp).len() == checked_shortcut_count(opts),
        forall|r: ShortcutRequestV|
            #[trigger] shortcut_plan_view(opts, env, interp).contains(r) <==> ((opts.start_menu
                && r == start_menu_request_view(env, interp)) || (opts.desktop && r
                == desktop_request_view(env, interp)) || (opts.updater && r
                == updater_request_view(env, interp)) || (opts.uninstaller && r
                == uninstaller_request_view(env))),
{
    let s1 = (if opts.start_menu {
        seq![start_menu_request_view(env, interp)]
    } else {
        Seq::<ShortcutRequestV>::empty()
    });
    let s2 = (if opts.desktop {
        seq![desktop_request_view(env, interp)]
    } else {
        Seq::<ShortcutRequestV>::empty()
    });
    let s3 = (if opts.updater {
        seq![updater_request_view(env, interp)]
    } else {
        Seq::<ShortcutRequestV>::empty()
    });
    let s4 = (if opts.uninstaller {
        seq![uninstaller_request_view(env)]
    } else {
        Seq::<ShortcutRequestV>::empty()
    });
    assert forall|r: ShortcutRequestV| #[trigger]
        shortcut_plan_view(opts, env, interp).contains(r) <==> ((opts.start_menu && r
        == start_menu_request_view(env, interp)) || (opts.desktop && r == desktop_request_view(
        env,
        interp,
    )) || (opts.updater && r == updater_request_view(env, interp)) || (opts.uninstaller && r
        == uninstaller_request_view(env))) by {
        lemma_concat_contains(s1 + s2 + s3, s4, r);
        lemma_concat_contains(s1 + s2, s3, r);
        lemma_concat_contains(s1, s2, r);
        if s1.contains(r) {
            assert(opts.start_menu && r == start_menu_request_view(env, interp));
        }
        if s2.contains(r) {
            assert(opts.desktop && r == desktop_request_view(env, interp));
        }
        if s3.contains(r) {
            assert(opts.updater && r == updater_request_view(env, interp));
        }
        if s4.contains(r) {
            assert(opts.uninstaller && r == uninstaller_request_view(env));
        }
        if opts.start_menu && r == start_menu_request_view(env, interp) {
            assert(s1[0] == r);
        }
        if opts.desktop && r == desktop_request_view(env, interp) {
            assert(s2[0] == r);
        }
        if opts.updater && r == updater_request_view(env, interp) {
            assert(s3[0] == r);
        }
        if opts.uninstaller && r == uninstaller_request_view(env) {
            assert(s4[0] == r);
        }
    }
}

} // verus!
