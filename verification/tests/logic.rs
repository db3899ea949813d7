use bcml_installer::paths;
use bcml_installer::shortcut::ShortcutRequest;
use bcml_installer::text;
use bcml_installer::zone;

fn s(x: &str) -> String {
    x.to_string()
}

#[test]
fn strip_verbatim_removes_prefix() {
    assert_eq!(text::strip_verbatim("\\\\?\\C:\\app\\pythonw.exe"), "C:\\app\\pythonw.exe");
}

#[test]
fn strip_verbatim_leaves_plain_path() {
    assert_eq!(text::strip_verbatim("C:\\app\\pythonw.exe"), "C:\\app\\pythonw.exe");
    assert_eq!(text::strip_verbatim(""), "");
}

#[test]
fn strip_verbatim_removes_every_occurrence() {
    assert_eq!(text::strip_verbatim("\\\\?\\a\\\\?\\b"), "ab");
}

#[test]
fn contains_substr_finds_flag() {
    assert!(text::contains_substr("--uninstall", "--uninstall"));
    assert!(text::contains_substr("run --uninstall now", "--uninstall"));
    assert!(!text::contains_substr("--uninstal", "--uninstall"));
    assert!(!text::contains_substr("", "--uninstall"));
    assert!(text::contains_substr("anything", ""));
}

#[test]
fn uninstall_invocation_by_substring() {
    assert!(text::is_uninstall_invocation(&vec![s("installer.exe"), s("--uninstall")]));
    assert!(text::is_uninstall_invocation(&vec![s("x"), s("zz--uninstallzz")]));
    assert!(!text::is_uninstall_invocation(&vec![s("installer.exe")]));
    assert!(!text::is_uninstall_invocation(&vec![]));
}

#[test]
fn fixed_paths_are_exact() {
    assert_eq!(
        paths::start_menu_dir("C:\\Users\\u\\AppData\\Roaming"),
        "C:\\Users\\u\\AppData\\Roaming\\Microsoft\\Windows\\Start Menu\\Programs\\BCML"
    );
    assert_eq!(paths::desktop_link("C:\\Users\\u"), "C:\\Users\\u\\Desktop\\BCML.lnk");
    assert_eq!(
        paths::icon_path("C:\\bcml"),
        "C:\\bcml\\Lib\\site-packages\\bcml\\data\\bcml.ico"
    );
    assert_eq!(paths::interpreter_candidate("C:\\bcml"), "C:\\bcml\\pythonw.exe");
    assert_eq!(paths::join("C:\\dir", "BCML.lnk"), "C:\\dir\\BCML.lnk");
}

#[test]
fn path_append_never_deduplicates() {
    let once = paths::append_path_value("C:\\old;C:\\other", "C:\\bcml");
    assert_eq!(once, "C:\\old;C:\\other;C:\\bcml");
    let twice = paths::append_path_value(once.as_str(), "C:\\bcml");
    assert_eq!(twice, "C:\\old;C:\\other;C:\\bcml;C:\\bcml");
    assert_eq!(twice.matches("C:\\bcml").count(), 2);
}

#[test]
fn strippable_extensions_only() {
    assert!(zone::is_strippable("a.dll"));
    assert!(zone::is_strippable("sub\\dir\\b.exe"));
    assert!(!zone::is_strippable("notes.txt"));
    assert!(!zone::is_strippable("a.DLL"));
    assert!(!zone::is_strippable("dll"));
    assert!(!zone::is_strippable(""));
}

#[test]
fn zone_targets_skip_marker_bearing_txt() {
    let files = vec![s("app\\core.dll"), s("readme.txt"), s("tool.exe"), s("data.bin")];
    let targets = zone::zone_marker_targets(&files);
    assert_eq!(
        targets,
        vec![s("app\\core.dll:Zone.Identifier"), s("tool.exe:Zone.Identifier")]
    );
}

#[test]
fn zone_targets_empty_tree() {
    let files: Vec<String> = vec![];
    assert!(zone::zone_marker_targets(&files).is_empty());
}

fn parse_field<'a>(script: &'a str, prefix: &str) -> Option<&'a str> {
    for line in script.lines() {
        if let Some(rest) = line.strip_prefix(prefix) {
            return rest.strip_suffix('"');
        }
    }
    None
}

#[test]
fn script_fields_match_request() {
    let req = ShortcutRequest {
        target: s("\\\\?\\C:\\bcml\\pythonw.exe"),
        args: s("-m bcml"),
        title: s("BCML"),
        output: s("C:\\start\\BCML.lnk"),
        working_dir: Some(s("C:\\bcml")),
        icon: Some(s("C:\\bcml\\bcml.ico")),
    };
    let script = req.render_script();
    assert_eq!(parse_field(&script, "strLinkFile = \""), Some("C:\\start\\BCML.lnk"));
    assert_eq!(
        parse_field(&script, "objLink.TargetPath = \""),
        Some("C:\\bcml\\pythonw.exe")
    );
    assert_eq!(parse_field(&script, "objLink.Arguments = \""), Some("-m bcml"));
    assert_eq!(parse_field(&script, "objLink.Description = \""), Some("BCML"));
    assert_eq!(
        parse_field(&script, "objLink.IconLocation = \""),
        Some("C:\\bcml\\bcml.ico")
    );
    assert_eq!(parse_field(&script, "objLink.WorkingDirectory = \""), Some("C:\\bcml"));
    assert!(script.lines().any(|l| l == "objLink.Save"));
}

#[test]
fn script_exact_text() {
    let req = ShortcutRequest {
        target: s("C:\\t.exe"),
        args: s("-m bcml"),
        title: s("BCML"),
        output: s("C:\\o.lnk"),
        working_dir: Some(s("C:\\w")),
        icon: Some(s("C:\\i.ico")),
    };
    let expected = "\nSet objWS = WScript.CreateObject(\"WScript.Shell\")\nstrLinkFile = \"C:\\o.lnk\"\nSet objLink = objWS.CreateShortcut(strLinkFile)\nobjLink.TargetPath = \"C:\\t.exe\"\nobjLink.Arguments = \"-m bcml\"\nobjLink.Description = \"BCML\"\nobjLink.IconLocation = \"C:\\i.ico\"\nobjLink.WorkingDirectory = \"C:\\w\"\nobjLink.Save\n    ";
    assert_eq!(req.render_script(), expected);
}

#[test]
fn script_omits_absent_optionals() {
    let req = ShortcutRequest {
        target: s("C:\\t.exe"),
        args: s("--uninstall"),
        title: s("Uninstall BCML"),
        output: s("C:\\o.lnk"),
        working_dir: None,
        icon: None,
    };
    let script = req.render_script();
    assert!(!script.contains("IconLocation"));
    assert!(!script.contains("WorkingDirectory"));
    let expected = "\nSet objWS = WScript.CreateObject(\"WScript.Shell\")\nstrLinkFile = \"C:\\o.lnk\"\nSet objLink = objWS.CreateShortcut(strLinkFile)\nobjLink.TargetPath = \"C:\\t.exe\"\nobjLink.Arguments = \"--uninstall\"\nobjLink.Description = \"Uninstall BCML\"\n\n\nobjLink.Save\n    ";
    assert_eq!(script, expected);
}

#[test]
fn script_file_name_is_fixed() {
    assert_eq!(bcml_installer::shortcut::script_file_name(), "tmp.vbs");
}
