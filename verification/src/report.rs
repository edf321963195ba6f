use vstd::prelude::*;

use crate::style::{paint, painted, Style};
use crate::util::{decimal, itoa};

verus! {

/// Why a package manifest could not be loaded.
#[derive(Clone, Copy, Debug, PartialEq, Eq, Structural)]
pub enum LoadProblem {
    /// The file could not be read.
    Read,
    /// The file was read but is not a valid manifest.
    Parse,
}

/// The warning printed for a manifest at `path` that could not be loaded,
/// followed by the error's own text.
pub open spec fn load_warning_text(problem: LoadProblem, path: Seq<char>, detail: Seq<char>, on: bool) -> Seq<char> {
    painted(Style::Yellow, on, "warn"@) + "   "@ + painted(Style::Bold, on, path) + match problem {
        LoadProblem::Parse => " could not be parsed: "@,
        LoadProblem::Read => " could not be read: "@,
    } + detail + seq!['\n']
}

/// The line printed when no package manifest was found.
pub open spec fn no_packages_text(on: bool) -> Seq<char> {
    painted(Style::Red, on, "error"@) + "  No packages found!"@ + seq!['\n']
}

/// The lines printed when no package has the script `script`, with the
/// suggested alternative when there is one.
pub open spec fn missing_script_text(script: Seq<char>, suggestion: Option<Seq<char>>, on: bool) -> Seq<char> {
    painted(Style::Red, on, "error"@) + "  No script found with name "@ + painted(Style::Bold, on, script)
        + "."@ + seq!['\n'] + match suggestion {
        None => Seq::empty(),
        Some(alt) => "       "@ + painted(Style::Dimmed, on, "Did you mean"@) + " "@ + painted(
            Style::Dimmed,
            on,
            "`"@,
        ) + painted(Style::Dimmed, on, painted(Style::Cyan, on, "nrr "@ + alt)) + painted(
            Style::Dimmed,
            on,
            "`?"@,
        ) + seq!['\n'],
    }
}

/// The line printed when the script `name` exits unsuccessfully with `code`.
pub open spec fn script_failed_text(name: Seq<char>, code: i32, on: bool) -> Seq<char> {
    painted(Style::Red, on, "error"@) + "  Script "@ + painted(Style::Bold, on, name)
        + " exited with code "@ + decimal(code as int) + "!"@ + seq!['\n']
}

/// Without colors, a failed script is reported as `error`, two spaces,
/// `Script`, its name, `exited with code`, the code in decimal and `!`.
pub proof fn law_failure_message_names_script_and_code(name: Seq<char>, code: i32)
    ensures
        script_failed_text(name, code, false) == "error"@ + "  Script "@ + name + " exited with code "@
            + decimal(code as int) + "!"@ + seq!['\n'],
{
}

/// A string holding just a newline.
fn newline() -> (s: &'static str)
    ensures
        s@ == seq!['\n'],
{
    proof {
        reveal_strlit("\n");
    }
    "\n"
}

/// The warning for a manifest at `path` that could not be loaded; `detail` is
/// the error's own text.
pub fn load_warning(problem: LoadProblem, path: &str, detail: &str, on: bool) -> (r: String)
    ensures
        r@ == load_warning_text(problem, path@, detail@, on),
{
    let mut out = paint("warn", Style::Yellow, on);
    out.append("   ");
    let p = paint(path, Style::Bold, on);
    out.append(p.as_str());
    match problem {
        LoadProblem::Parse => out.append(" could not be parsed: "),
        LoadProblem::Read => out.append(" could not be read: "),
    }
    out.append(detail);
    out.append(newline());
    assert(out@ =~= load_warning_text(problem, path@, detail@, on));
    out
}

/// The line printed when no package manifest was found.
pub fn no_packages_message(on: bool) -> (r: String)
    ensures
        r@ == no_packages_text(on),
{
    let mut out = paint("error", Style::Red, on);
    out.append("  No packages found!");
    out.append(newline());
    assert(out@ =~= no_packages_text(on));
    out
}

/// The lines printed when no package has the script `script`.
pub fn missing_script_message(script: &str, suggestion: Option<&str>, on: bool) -> (r: String)
    ensures
        r@ == missing_script_text(
            script@,
            match suggestion {
                Some(s) => Some(s@),
                None => None,
            },
            on,
        ),
{
    let mut out = paint("error", Style::Red, on);
    out.append("  No script found with name ");
    let b = paint(script, Style::Bold, on);
    out.append(b.as_str());
    out.append(".");
    out.append(newline());
    let ghost first = out@;
    match suggestion {
        None => {},
        Some(alt) => {
            out.append("       ");
            let d = paint("Did you mean", Style::Dimmed, on);
            out.append(d.as_str());
            out.append(" ");
            let tick = paint("`", Style::Dimmed, on);
            out.append(tick.as_str());
            let mut command = String::from_str("nrr ");
            command.append(alt);
            let cyan = paint(command.as_str(), Style::Cyan, on);
            let dim = paint(cyan.as_str(), Style::Dimmed, on);
            out.append(dim.as_str());
            let close = paint("`?", Style::Dimmed, on);
            out.append(close.as_str());
            out.append(newline());
        },
    }
    assert(out@ =~= missing_script_text(
        script@,
        match suggestion {
            Some(s) => Some(s@),
            None => None,
        },
        on,
    ));
    out
}

/// The line printed when the script `name` exits unsuccessfully with `code`.
pub fn script_failed_message(name: &str, code: i32, on: bool) -> (r: String)
    ensures
        r@ == script_failed_text(name@, code, on),
{
    let mut out = paint("error", Style::Red, on);
    out.append("  Script ");
    let b = paint(name, Style::Bold, on);
    out.append(b.as_str());
    out.append(" exited with code ");
    let c = itoa(code as i128);
    out.append(c.as_str());
    out.append("!");
    out.append(newline());
    assert(out@ =~= script_failed_text(name@, code, on));
    out
}

} // verus!
