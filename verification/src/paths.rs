use vstd::prelude::*;
use vstd::string::StringExecFns;

verus! {

/// The per-user start-menu programs folder for the application: the roaming
/// application-data directory with the fixed vendor subpath appended.
pub open spec fn start_menu_dir_view(appdata: Seq<char>) -> Seq<char> {
    appdata + "\\Microsoft\\Windows\\Start Menu\\Programs\\BCML"@
}

pub fn start_menu_dir(appdata: &str) -> (r: String)
    ensures
        r@ == start_menu_dir_view(appdata@),
{
    String::from_str(appdata).concat("\\Microsoft\\Windows\\Start Menu\\Programs\\BCML")
}

/// The desktop shortcut file inside the user profile directory.
pub open spec fn desktop_link_view(userprofile: Seq<char>) -> Seq<char> {
    userprofile + "\\Desktop\\BCML.lnk"@
}

pub fn desktop_link(userprofile: &str) -> (r: String)
    ensures
        r@ == desktop_link_view(userprofile@),
{
    String::from_str(userprofile).concat("\\Desktop\\BCML.lnk")
}

/// The bundled application icon, at its fixed location under the install root.
pub open spec fn icon_path_view(install_root: Seq<char>) -> Seq<char> {
    install_root + "\\Lib\\site-packages\\bcml\\data\\bcml.ico"@
}

pub fn icon_path(install_root: &str) -> (r: String)
    ensures
        r@ == icon_path_view(install_root@),
{
    String::from_str(install_root).concat("\\Lib\\site-packages\\bcml\\data\\bcml.ico")
}

/// The bundled interpreter executable as it should exist under the install
/// root; the install flow asks the host to canonicalise this path and fails
/// when it is missing.
pub open spec fn interpreter_candidate_view(install_root: Seq<char>) -> Seq<char> {
    install_root + "\\pythonw.exe"@
}

pub fn interpreter_candidate(install_root: &str) -> (r: String)
    ensures
        r@ == interpreter_candidate_view(install_root@),
{
    String::from_str(install_root).concat("\\pythonw.exe")
}

/// A directory path with one more component appended.
pub open spec fn join_view(dir: Seq<char>, name: Seq<char>) -> Seq<char> {
    dir + "\\"@ + name
}

pub fn join(dir: &str, name: &str) -> (r: String)
    ensures
        r@ == join_view(dir@, name@),
{
    String::from_str(dir).concat("\\").concat(name)
}

/// The user PATH value after an install: the existing value, a separator, and
/// the install root. Deliberately no deduplication: the value grows on every
/// run.
pub open spec fn append_path_value_view(existing: Seq<char>, install_root: Seq<char>) -> Seq<char> {
    existing + ";"@ + install_root
}

pub fn append_path_value(existing: &str, install_root: &str) -> (r: String)
    ensures
        r@ == append_path_value_view(existing@, install_root@),
{
    String::from_str(existing).concat(";").concat(install_root)
}

/// Law: appending the install root to a PATH value twice leaves two complete
/// copies of the root in the result, at distinct non-overlapping positions —
/// the append step never deduplicates.
pub proof fn lemma_append_path_twice_keeps_both(existing: Seq<char>, install_root: Seq<char>)
    ensures
        ({
            let twice = append_path_value_view(
                append_path_value_view(existing, install_root),
                install_root,
            );
            &&& twice.len() == existing.len() + 2 * install_root.len() + 2
            &&& twice.subrange(
                existing.len() as int + 1,
                existing.len() + 1 + install_root.len() as int,
            ) == install_root
            &&& twice.subrange(
                existing.len() + install_root.len() as int + 2,
                existing.len() + 2 * install_root.len() as int + 2,
            ) == install_root
        }),
{
    reveal_strlit(";");
    let twice = append_path_value_view(
        append_path_value_view(existing, install_root),
        install_root,
    );
    assert(twice.subrange(existing.len() as int + 1, existing.len() + 1 + install_root.len() as int)
        =~= install_root);
    assert(twice.subrange(
        existing.len() + install_root.len() as int + 2,
        existing.len() + 2 * install_root.len() as int + 2,
    ) =~= install_root);
}

} // verus!
