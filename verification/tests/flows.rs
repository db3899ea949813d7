use bcml_installer::errors::InstallError;
use bcml_installer::install::{InstallAction, InstallEvent, InstallFlow};
use bcml_installer::plan::{planned_shortcuts, InstallEnv, InstallOptions};
use bcml_installer::uninstall::{UninstallAction, UninstallEvent, UninstallFlow};

fn s(x: &str) -> String {
    x.to_string()
}

fn env() -> InstallEnv {
    InstallEnv {
        install_root: s("C:\\bcml"),
        appdata: s("C:\\Users\\u\\AppData\\Roaming"),
        userprofile: s("C:\\Users\\u"),
        exe_path: s("C:\\bcml\\installer.exe"),
    }
}

fn opts(start_menu: bool, desktop: bool, updater: bool, uninstaller: bool, add_to_path: bool) -> InstallOptions {
    InstallOptions { start_menu, desktop, updater, uninstaller, add_to_path }
}

const START_DIR: &str = "C:\\Users\\u\\AppData\\Roaming\\Microsoft\\Windows\\Start Menu\\Programs\\BCML";

#[test]
fn plan_has_exactly_the_checked_shortcuts() {
    let env = env();
    for bits in 0..32u32 {
        let o = opts(bits & 1 != 0, bits & 2 != 0, bits & 4 != 0, bits & 8 != 0, bits & 16 != 0);
        let plan = planned_shortcuts(&o, &env, "C:\\bcml\\pythonw.exe");
        let expected_titles: Vec<&str> = [
            (o.start_menu, "BCML"),
            (o.desktop, "BCML"),
            (o.updater, "Update BCML"),
            (o.uninstaller, "Uninstall BCML"),
        ]
        .iter()
        .filter(|(on, _)| *on)
        .map(|(_, t)| *t)
        .collect();
        let titles: Vec<&str> = plan.iter().map(|r| r.title.as_str()).collect();
        assert_eq!(titles, expected_titles);
    }
}

#[test]
fn plan_requests_carry_fixed_table() {
    let env = env();
    let o = opts(true, true, true, true, false);
    let plan = planned_shortcuts(&o, &env, "C:\\py\\pythonw.exe");
    assert_eq!(plan.len(), 4);

    assert_eq!(plan[0].target, "C:\\py\\pythonw.exe");
    assert_eq!(plan[0].args, "-m bcml");
    assert_eq!(plan[0].title, "BCML");
    assert_eq!(plan[0].output, format!("{}\\BCML.lnk", START_DIR));
    assert_eq!(plan[0].working_dir.as_deref(), Some("C:\\bcml"));
    assert_eq!(
        plan[0].icon.as_deref(),
        Some("C:\\bcml\\Lib\\site-packages\\bcml\\data\\bcml.ico")
    );

    assert_eq!(plan[1].output, "C:\\Users\\u\\Desktop\\BCML.lnk");
    assert_eq!(plan[1].args, "-m bcml");
    assert!(plan[1].icon.is_some());

    assert_eq!(plan[2].args, "-m pip install -U bcml");
    assert_eq!(plan[2].title, "Update BCML");
    assert_eq!(plan[2].output, format!("{}\\Update.lnk", START_DIR));
    assert!(plan[2].icon.is_none());

    assert_eq!(plan[3].target, "C:\\bcml\\installer.exe");
    assert_eq!(plan[3].args, "--uninstall");
    assert_eq!(plan[3].title, "Uninstall BCML");
    assert_eq!(plan[3].output, format!("{}\\Uninstall.lnk", START_DIR));
    assert!(plan[3].icon.is_none());
}

#[test]
fn install_flow_happy_path_all_options() {
    let mut flow = InstallFlow::new(opts(true, true, true, true, true), env());
    assert!(matches!(flow.start(), InstallAction::StripZoneMarkers));

    let a = flow.step(InstallEvent::Completed);
    match a {
        Some(InstallAction::ResolveInterpreter(p)) => assert_eq!(p, "C:\\bcml\\pythonw.exe"),
        _ => panic!("expected interpreter resolution"),
    }

    let a = flow.step(InstallEvent::ResolvedInterpreter(s("\\\\?\\C:\\bcml\\pythonw.exe")));
    match a {
        Some(InstallAction::EnsureStartMenuDir(d)) => assert_eq!(d, START_DIR),
        _ => panic!("expected start-menu dir creation"),
    }

    let mut titles: Vec<String> = Vec::new();
    let mut a = flow.step(InstallEvent::Completed);
    while let Some(InstallAction::CreateShortcut(req)) = a {
        if req.title == "Uninstall BCML" {
            assert_eq!(req.target, "C:\\bcml\\installer.exe");
        } else {
            assert_eq!(req.target, "\\\\?\\C:\\bcml\\pythonw.exe");
        }
        titles.push(req.title.clone());
        a = flow.step(InstallEvent::Completed);
    }
    assert_eq!(titles, vec![s("BCML"), s("BCML"), s("Update BCML"), s("Uninstall BCML")]);

    assert!(matches!(a, Some(InstallAction::ReadUserPath)));
    let a = flow.step(InstallEvent::ReadPathValue(s("C:\\old")));
    match a {
        Some(InstallAction::WriteUserPath(v)) => assert_eq!(v, "C:\\old;C:\\bcml"),
        _ => panic!("expected PATH write"),
    }
    let a = flow.step(InstallEvent::Completed);
    assert!(matches!(a, Some(InstallAction::ShowSuccess)));
    assert!(flow.step(InstallEvent::Completed).is_none());
}

#[test]
fn install_flow_no_options_creates_nothing() {
    let mut flow = InstallFlow::new(opts(false, false, false, false, false), env());
    assert!(matches!(flow.start(), InstallAction::StripZoneMarkers));
    let a = flow.step(InstallEvent::Completed);
    assert!(matches!(a, Some(InstallAction::ResolveInterpreter(_))));
    let a = flow.step(InstallEvent::ResolvedInterpreter(s("C:\\bcml\\pythonw.exe")));
    assert!(matches!(a, Some(InstallAction::EnsureStartMenuDir(_))));
    let a = flow.step(InstallEvent::Completed);
    assert!(matches!(a, Some(InstallAction::ShowSuccess)));
    assert!(flow.step(InstallEvent::Completed).is_none());
}

#[test]
fn install_flow_missing_interpreter_fails_fast() {
    let mut flow = InstallFlow::new(opts(true, true, true, true, true), env());
    assert!(matches!(flow.start(), InstallAction::StripZoneMarkers));
    let a = flow.step(InstallEvent::Completed);
    assert!(matches!(a, Some(InstallAction::ResolveInterpreter(_))));
    let a = flow.step(InstallEvent::Failed(InstallError::PathResolution(s(
        "no pythonw.exe under the install root",
    ))));
    match a {
        Some(InstallAction::ShowError(e)) => {
            assert_eq!(e.message(), "no pythonw.exe under the install root")
        },
        _ => panic!("expected the error dialog"),
    }
    assert!(flow.step(InstallEvent::Completed).is_none());
    assert!(flow.step(InstallEvent::ResolvedInterpreter(s("x"))).is_none());
}

#[test]
fn install_flow_shortcut_failure_aborts() {
    let mut flow = InstallFlow::new(opts(true, true, false, false, true), env());
    flow.start();
    flow.step(InstallEvent::Completed);
    flow.step(InstallEvent::ResolvedInterpreter(s("C:\\bcml\\pythonw.exe")));
    let a = flow.step(InstallEvent::Completed);
    assert!(matches!(a, Some(InstallAction::CreateShortcut(_))));
    let a = flow.step(InstallEvent::Failed(InstallError::ShortcutCreation(s("script error"))));
    assert!(matches!(a, Some(InstallAction::ShowError(_))));
    assert!(flow.step(InstallEvent::Completed).is_none());
}

#[test]
fn uninstall_declined_does_nothing() {
    let mut flow = UninstallFlow::new();
    assert!(matches!(flow.start(), UninstallAction::AskConfirmation));
    assert!(flow.step(UninstallEvent::ConfirmAnswered(false)).is_none());
    assert!(flow.step(UninstallEvent::Completed).is_none());
    assert!(flow.step(UninstallEvent::UserDirs(s("a"), s("u"))).is_none());
}

#[test]
fn uninstall_accepted_removes_everything() {
    let mut flow = UninstallFlow::new();
    assert!(matches!(flow.start(), UninstallAction::AskConfirmation));
    let a = flow.step(UninstallEvent::ConfirmAnswered(true));
    assert!(matches!(a, Some(UninstallAction::ResolveUserDirs)));
    let a = flow.step(UninstallEvent::UserDirs(
        s("C:\\Users\\u\\AppData\\Roaming"),
        s("C:\\Users\\u"),
    ));
    match a {
        Some(UninstallAction::RemoveDesktopShortcut(p)) => {
            assert_eq!(p, "C:\\Users\\u\\Desktop\\BCML.lnk")
        },
        _ => panic!("expected desktop shortcut removal"),
    }
    // The shortcut may not have existed; the host still answers Completed.
    let a = flow.step(UninstallEvent::Completed);
    match a {
        Some(UninstallAction::RemoveStartMenuDir(p)) => assert_eq!(p, START_DIR),
        _ => panic!("expected start-menu folder removal"),
    }
    // The folder may not have existed either; again Completed.
    let a = flow.step(UninstallEvent::Completed);
    assert!(matches!(a, Some(UninstallAction::RemoveInstallEntries)));
    let a = flow.step(UninstallEvent::Completed);
    assert!(matches!(a, Some(UninstallAction::ShowUninstalled)));
    assert!(flow.step(UninstallEvent::Completed).is_none());
}

#[test]
fn uninstall_enumeration_failure_reports_error() {
    let mut flow = UninstallFlow::new();
    flow.start();
    flow.step(UninstallEvent::ConfirmAnswered(true));
    flow.step(UninstallEvent::UserDirs(s("C:\\a"), s("C:\\u")));
    flow.step(UninstallEvent::Completed);
    flow.step(UninstallEvent::Completed);
    let a = flow.step(UninstallEvent::Failed(InstallError::Io(s("cannot read the directory"))));
    match a {
        Some(UninstallAction::ShowUninstallError(e)) => {
            assert_eq!(e.message(), "cannot read the directory")
        },
        _ => panic!("expected the failure dialog"),
    }
    assert!(flow.step(UninstallEvent::Completed).is_none());
}

#[test]
fn error_messages_surface_verbatim() {
    assert_eq!(InstallError::PathResolution(s("p")).message(), "p");
    assert_eq!(InstallError::ShortcutCreation(s("s")).message(), "s");
    assert_eq!(InstallError::Registry(s("r")).message(), "r");
    assert_eq!(InstallError::Io(s("i")).message(), "i");
}
