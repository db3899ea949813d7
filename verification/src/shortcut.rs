use vstd::prelude::*;
use vstd::string::StringExecFns;
use crate::text::without_verbatim;

verus! {

/// Everything a platform shortcut records: the executable it launches, the
/// argument string, a display title, the link file to write, and the optional
/// working directory and icon.
pub struct ShortcutRequest {
    pub target: String,
    pub args: String,
    pub title: String,
    pub output: String,
    pub working_dir: Option<String>,
    pub icon: Option<String>,
}

/// Mathematical image of a [`ShortcutRequest`].
pub struct ShortcutRequestV {
    pub target: Seq<char>,
    pub args: Seq<char>,
    pub title: Seq<char>,
    pub output: Seq<char>,
    pub working_dir: Option<Seq<char>>,
    pub icon: Option<Seq<char>>,
}

impl View for ShortcutRequest {
    type V = ShortcutRequestV;

    open spec fn view(&self) -> ShortcutRequestV {
        ShortcutRequestV {
            target: self.target@,
            args: self.args@,
            title: self.title@,
            output: self.output@,
            working_dir: match self.working_dir {
                Some(ref d) => Some(d@),
                None => None,
            },
            icon: match self.icon {
                Some(ref i) => Some(i@),
                None => None,
            },
        }
    }
}

impl DeepView for ShortcutRequest {
    type V = ShortcutRequestV;

    open spec fn deep_view(&self) -> ShortcutRequestV {
        self.view()
    }
}

/// The icon line of the shortcut script: set only when an icon was requested,
/// otherwise left out entirely (an empty line, not an empty icon path).
pub open spec fn icon_line_view(icon: Option<Seq<char>>) -> Seq<char> {
    match icon {
        Some(i) => "objLink.IconLocation = \""@ + i + "\""@,
        None => Seq::empty(),
    }
}

/// The working-directory line of the shortcut script: set only when a working
/// directory was requested.
pub open spec fn working_dir_line_view(dir: Option<Seq<char>>) -> Seq<char> {
    match dir {
        Some(d) => "objLink.WorkingDirectory = \""@ + d + "\""@,
        None => Seq::empty(),
    }
}

/// The automation script that creates the requested shortcut through the host
/// shell's shortcut-object API. The target is embedded with any verbatim path
/// prefix removed; absent optional fields contribute an empty line and no
/// property assignment.
pub open spec fn script_view(r: ShortcutRequestV) -> Seq<char> {
    "\nSet objWS = WScript.CreateObject(\"WScript.Shell\")\nstrLinkFile = \""@ + r.output
        + "\"\nSet objLink = objWS.CreateShortcut(strLinkFile)\nobjLink.TargetPath = \""@
        + without_verbatim(r.target) + "\"\nobjLink.Arguments = \""@ + r.args
        + "\"\nobjLink.Description = \""@ + r.title + "\"\n"@ + icon_line_view(r.icon) + "\n"@
        + working_dir_line_view(r.working_dir) + "\nobjLink.Save\n    "@
}

impl ShortcutRequest {
    /// Renders the script whose execution creates this shortcut.
    pub fn render_script(&self) -> (r: String)
        ensures
            r@ == script_view(self@),
    {
        let mut s = String::from_str(
            "\nSet objWS = WScript.CreateObject(\"WScript.Shell\")\nstrLinkFile = \"",
        );
        s.append(self.output.as_str());
        s.append("\"\nSet objLink = objWS.CreateShortcut(strLinkFile)\nobjLink.TargetPath = \"");
        let stripped = crate::text::strip_verbatim(self.target.as_str());
        s.append(stripped.as_str());
        s.append("\"\nobjLink.Arguments = \"");
        s.append(self.args.as_str());
        s.append("\"\nobjLink.Description = \"");
        s.append(self.title.as_str());
        s.append("\"\n");
        match self.icon {
            Some(ref i) => {
                s.append("objLink.IconLocation = \"");
                s.append(i.as_str());
                s.append("\"");
            },
            None => {},
        }
        s.append("\n");
        match self.working_dir {
            Some(ref d) => {
                s.append("objLink.WorkingDirectory = \"");
                s.append(d.as_str());
                s.append("\"");
            },
            None => {},
        }
        s.append("\nobjLink.Save\n    ");
        proof {
            assert(s@ =~= script_view(self@));
        }
        s
    }
}

/// The name of the temporary script file, written to the host's temporary
/// directory and deleted after the interpreter has run it.
pub fn script_file_name() -> (r: &'static str)
    ensures
        r@ == "tmp.vbs"@,
{
    "tmp.vbs"
}

} // verus!
