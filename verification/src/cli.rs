use vstd::prelude::*;

use crate::complete::{compare_text, TextOrder};
use crate::env_file::EnvFile;
use crate::package_json::PackageJson;
use crate::suggest::{none_close, scores_for, suggest, suggestion_allowed};

verus! {

/// Options shared by every way of running a script.
#[derive(Debug)]
pub struct SharedRunOptions {
    /// Arguments to pass to the script.
    pub args: Vec<String>,
    /// Don't run pre- and post- scripts.
    pub no_pre_post: bool,
    /// Disable printing package and command information.
    pub silent: bool,
    /// An environment file to read environment variables from.
    pub env_file: Option<EnvFile>,
}


/// What `exec` runs: an executable with its arguments.
#[derive(Debug)]
pub struct ExecArgs {
    /// The name of the executable to run.
    pub executable: String,
    /// Arguments to pass to the executable.
    pub args: Vec<String>,
    /// An environment file to read environment variables from.
    pub env_file: Option<EnvFile>,
}


/// The arguments of the runner when no subcommand is given.
#[derive(Debug)]
pub struct RootArgs {
    /// The name of the script to run.
    pub script: Option<String>,
    pub options: SharedRunOptions,
}

/// The arguments of `run`.
#[derive(Debug)]
pub struct RunArgs {
    /// The name of the script to run.
    pub script: String,
    pub options: SharedRunOptions,
}

/// The subcommands of the runner.
#[derive(Debug)]
pub enum Subcommands {
    /// Run a script.
    Run(RunArgs),
    /// Execute a command.
    Exec(ExecArgs),
    /// List available scripts.
    List,
}

/// The runner's command line.
#[derive(Debug)]
pub struct Cli {
    pub root_args: RootArgs,
    pub subcommand: Option<Subcommands>,
}

/// The command line of the `nrx` shortcut, which always executes a command.
#[derive(Debug)]
pub struct NrxCli {
    pub args: ExecArgs,
}

/// What a command line asks for.
pub enum Action<'a> {
    /// Run the script `script` with these options.
    Run { script: &'a String, options: &'a SharedRunOptions },
    /// Execute a command.
    Exec(&'a ExecArgs),
    /// List the scripts of every package found; when none is found, print the
    /// help text if `help_when_empty`, and otherwise report the error.
    List { help_when_empty: bool },
}

impl Cli {
    /// What this command line asks for: a subcommand does what it names; with
    /// none, a script name runs that script and no script name lists scripts.
    pub fn action(&self) -> (a: Action<'_>)
        ensures
            match self.subcommand {
                Some(Subcommands::Run(args)) => a matches Action::Run { script, options } && *script
                    == args.script && *options == args.options,
                Some(Subcommands::Exec(args)) => a matches Action::Exec(e) && *e == args,
                Some(Subcommands::List) => a matches Action::List { help_when_empty }
                    && !help_when_empty,
                None => match self.root_args.script {
                    Some(name) => a matches Action::Run { script, options } && *script == name
                        && *options == self.root_args.options,
                    None => a matches Action::List { help_when_empty } && help_when_empty,
                },
            },
    {
        match &self.subcommand {
            Some(Subcommands::Run(args)) => Action::Run { script: &args.script, options: &args.options },
            Some(Subcommands::Exec(args)) => Action::Exec(args),
            Some(Subcommands::List) => Action::List { help_when_empty: false },
            None => match &self.root_args.script {
                Some(name) => Action::Run { script: name, options: &self.root_args.options },
                None => Action::List { help_when_empty: true },
            },
        }
    }
}

/// Whether none of the first `k` packages has a script close to `input`.
pub open spec fn none_close_before(input: Seq<char>, packages: Seq<PackageJson>, k: int) -> bool {
    forall|j: int| 0 <= j < k ==> none_close(scores_for(input, (#[trigger] packages[j])@.scripts))
}

/// The suggestion for a missing script: the suggestion from the first package
/// (nearest first) that has one, or nothing when none has.
pub fn first_suggestion(input: &str, packages: &Vec<PackageJson>) -> (r: Option<String>)
    ensures
        r is None <==> none_close_before(input@, packages@, packages@.len() as int),
        r matches Some(s) ==> exists|k: int|
            0 <= k < packages@.len() && none_close_before(input@, packages@, k)
                && suggestion_allowed(scores_for(input@, (#[trigger] packages@[k])@.scripts), Some(s@)),
{
    let mut i: usize = 0;
    while i < packages.len()
        invariant
            i <= packages.len(),
            none_close_before(input@, packages@, i as int),
        decreases packages.len() - i,
    {
        match suggest(input, &packages[i]) {
            Some(alt) => {
                assert(suggestion_allowed(scores_for(input@, packages@[i as int]@.scripts), Some(alt@)));
                return Some(alt);
            },
            None => {},
        }
        i = i + 1;
    }
    None
}


/// Whether the runner was started under the file name of the `nrx` shortcut,
/// which executes commands directly.
pub fn invoked_as_nrx(file_name: &str) -> (r: bool)
    ensures
        r == (file_name@ == "nrx"@ || file_name@ == "nrx.exe"@),
{
    compare_text(file_name, "nrx") == TextOrder::Equal || compare_text(file_name, "nrx.exe")
        == TextOrder::Equal
}

} // verus!
