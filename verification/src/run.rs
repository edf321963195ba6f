use vstd::prelude::*;

use crate::cli::{ExecArgs, SharedRunOptions};
use crate::env_file::{borrowed_pairs, owned_pairs, EnvFile};
use crate::package_json::{lookup, prefix_text, PackageJson, PackageView};
use crate::style::{paint, painted, ColorSupport, Stream, Style};
use crate::util::{decimal, itoa};

verus! {

#[verifier::external_type_specification]
#[verifier::external_body]
pub struct ExQuoteError(shlex::QuoteError);

/// shlex's quoting of a shell word that holds no NUL character.
pub uninterp spec fn shell_quoted(word: Seq<char>) -> Seq<char>;

/// Whether every character of `word` may stand unquoted in a shell word:
/// ASCII letters and digits and `+ - . / : @ ] _`.
pub open spec fn shell_safe(word: Seq<char>) -> bool {
    forall|i: int|
        0 <= i < word.len() ==> {
            let c = #[trigger] word[i];
            ('a' <= c && c <= 'z') || ('A' <= c && c <= 'Z') || ('0' <= c && c <= '9') || c == '+'
                || c == '-' || c == '.' || c == '/' || c == ':' || c == '@' || c == ']' || c == '_'
        }
}

/// Whether `word` holds a NUL character, which no shell quoting can carry.
pub open spec fn has_nul(word: Seq<char>) -> bool {
    word.contains('\u{0}')
}

/// shlex's `try_quote`: it fails (with `QuoteError::Nul`) exactly when the word
/// holds a NUL character; otherwise it returns the quoted word, named
/// `shell_quoted`. Of that text this states only that an empty word becomes
/// two single quotes and a non-empty word made only of the characters of
/// `shell_safe` comes back unchanged.
#[verifier::external_body]
fn quote_word(word: &str) -> (r: Result<String, shlex::QuoteError>)
    ensures
        r is Err <==> has_nul(word@),
        r matches Ok(q) ==> q@ == shell_quoted(word@),
        r matches Ok(q) ==> (word@.len() == 0 ==> q@ == seq!['\'', '\'']),
        r matches Ok(q) ==> (word@.len() > 0 && shell_safe(word@) ==> q@ == word@),
{
    match shlex::try_quote(word) {
        Ok(q) => Ok(q.into_owned()),
        Err(e) => Err(e),
    }
}

/// The text that the extra arguments add to a command: for each, in order, a
/// space and the argument quoted for the shell.
pub open spec fn quoted_tail(args: Seq<Seq<char>>) -> Seq<char>
    decreases args.len(),
{
    if args.len() == 0 {
        Seq::empty()
    } else {
        quoted_tail(args.drop_last()) + seq![' '] + shell_quoted(args.last())
    }
}

/// Each extra argument, whatever it looks like (an option starting with `-`
/// included), reaches the command as a space followed by its shell quoting:
/// the text is the left fold of `' ' + shell_quoted(arg)` over the arguments
/// in order, and adding one argument adds exactly its quoted form.
pub proof fn law_every_argument_is_quoted(args: Seq<Seq<char>>, a: Seq<char>)
    ensures
        quoted_tail(args) == args.fold_left(
            Seq::<char>::empty(),
            |acc: Seq<char>, w: Seq<char>| acc + seq![' '] + shell_quoted(w),
        ),
        quoted_tail(args.push(a)) == quoted_tail(args) + seq![' '] + shell_quoted(a),
    decreases args.len(),
{
    if args.len() > 0 {
        law_every_argument_is_quoted(args.drop_last(), args.last());
    }
    assert(args.push(a).drop_last() =~= args);
}

/// Whether some argument holds a NUL character.
pub open spec fn any_nul(args: Seq<Seq<char>>) -> bool {
    exists|i: int| 0 <= i < args.len() && has_nul(#[trigger] args[i])
}

/// Strings as plain values.
pub open spec fn strings_view(v: Seq<String>) -> Seq<Seq<char>> {
    v.map_values(|s: String| s@)
}

/// The script's command with the extra arguments appended, each after a space
/// and quoted for the shell; the quoting fails when an argument holds NUL.
pub fn append_args(script_cmd: &str, args: &Vec<String>) -> (r: Result<String, shlex::QuoteError>)
    ensures
        r is Err <==> any_nul(strings_view(args@)),
        r matches Ok(c) ==> c@ == script_cmd@ + quoted_tail(strings_view(args@)),
{
    let ghost words = strings_view(args@);
    let mut full = String::from_str(script_cmd);
    let mut i: usize = 0;
    while i < args.len()
        invariant
            i <= args.len(),
            words == strings_view(args@),
            words.len() == args.len(),
            !any_nul(words.subrange(0, i as int)),
            full@ == script_cmd@ + quoted_tail(words.subrange(0, i as int)),
        decreases args.len() - i,
    {
        let ghost prev = words.subrange(0, i as int);
        let ghost next = words.subrange(0, i + 1);
        assert(next.drop_last() =~= prev);
        assert(next.last() == args[i as int]@);
        match quote_word(args[i].as_str()) {
            Err(e) => {
                assert(has_nul(words[i as int]));
                return Err(e);
            },
            Ok(q) => {
                proof {
                    reveal_strlit(" ");
                }
                full.append(" ");
                full.append(q.as_str());
                assert(full@ =~= script_cmd@ + quoted_tail(next));
                assert(!any_nul(next)) by {
                    if any_nul(next) {
                        let k = choose|k: int| 0 <= k < next.len() && has_nul(#[trigger] next[k]);
                        if k < i {
                            assert(next[k] == prev[k]);
                        }
                    }
                }
            },
        }
        i = i + 1;
    }
    assert(words.subrange(0, args.len() as int) =~= words);
    Ok(full)
}


/// Which of the script's lifecycle commands a step runs.
#[derive(Clone, Copy, Debug, PartialEq, Eq, Structural)]
pub enum ScriptType {
    Pre,
    Post,
    Normal,
}

/// The text in front of a lifecycle command's markers.
pub open spec fn type_prefix(t: ScriptType) -> Seq<char> {
    match t {
        ScriptType::Normal => Seq::empty(),
        ScriptType::Pre => "pre"@,
        ScriptType::Post => "post"@,
    }
}

impl ScriptType {
    /// `pre` for a pre-script, `post` for a post-script, nothing for the script itself.
    pub fn prefix(self) -> (s: String)
        ensures
            s@ == type_prefix(self),
    {
        match self {
            ScriptType::Normal => String::new(),
            ScriptType::Pre => String::from_str("pre"),
            ScriptType::Post => String::from_str("post"),
        }
    }
}

/// One `$` for each level of nesting.
pub open spec fn dollars(level: nat) -> Seq<char> {
    Seq::new(level, |i: int| '$')
}

/// The line printed before a command runs: the step's prefix and one `$` per
/// nesting level, then a space and the command.
pub open spec fn banner_text(t: ScriptType, level: nat, command: Seq<char>, on: bool) -> Seq<char> {
    painted(Style::Dimmed, on, painted(Style::Cyan, on, type_prefix(t) + dollars(level))) + seq![' ']
        + painted(Style::Dimmed, on, command) + seq!['\n']
}

/// Without colors, the line before a command is the step's prefix, one `$`
/// for each nesting level and nothing else, a space, the command and a newline.
pub proof fn law_banner_shows_level(t: ScriptType, level: nat, command: Seq<char>)
    ensures
        banner_text(t, level, command, false) == type_prefix(t) + Seq::new(level, |i: int| '$') + seq![' ']
            + command + seq!['\n'],
        type_prefix(t) == match t {
            ScriptType::Pre => "pre"@,
            ScriptType::Post => "post"@,
            ScriptType::Normal => Seq::<char>::empty(),
        },
{
    assert(dollars(level) =~= Seq::new(level, |i: int| '$'));
}

/// The variables of an optional environment file.
pub open spec fn env_file_vars(e: Option<EnvFile>) -> Seq<(Seq<char>, Seq<char>)> {
    match e {
        Some(f) => f.vars(),
        None => Seq::empty(),
    }
}

/// The variables that describe the package: its name and version, when present.
pub open spec fn package_vars(p: PackageView) -> Seq<(Seq<char>, Seq<char>)> {
    let name_var = match p.name {
        Some(n) => seq![("npm_package_name"@, n)],
        None => Seq::empty(),
    };
    let version_var = match p.version {
        Some(v) => seq![("npm_package_version"@, v)],
        None => Seq::empty(),
    };
    name_var + version_var
}

/// The level variable handed to commands started at `level`: one more.
pub open spec fn level_var(level: nat) -> (Seq<char>, Seq<char>) {
    ("__NRR_LEVEL"@, decimal(level + 1int))
}

/// The environment a lifecycle command runs with, besides the search path,
/// the runner's own path and the manifest's path: the environment file's
/// variables first, then the level, the lifecycle event and script, and the
/// package's name and version.
pub open spec fn step_env(
    vars: Seq<(Seq<char>, Seq<char>)>,
    level: nat,
    name: Seq<char>,
    command: Seq<char>,
    p: PackageView,
) -> Seq<(Seq<char>, Seq<char>)> {
    vars + seq![
        level_var(level),
        ("npm_lifecycle_event"@, name),
        ("npm_lifecycle_script"@, command),
    ] + package_vars(p)
}

/// A command to run, as plain values.
pub struct CommandView {
    pub name: Seq<char>,
    pub banner: Option<Seq<char>>,
    pub command: Seq<char>,
    pub env: Seq<(Seq<char>, Seq<char>)>,
}

/// A lifecycle command ready to run in the package's folder through the shell.
pub struct StepCommand {
    /// The script's name, which is also the lifecycle event.
    pub name: String,
    /// The line to print before running, unless output is silent.
    pub banner: Option<String>,
    /// The shell command.
    pub command: String,
    /// Variables to set, in order.
    pub env: Vec<(String, String)>,
}

impl View for StepCommand {
    type V = CommandView;

    open spec fn view(&self) -> CommandView {
        CommandView {
            name: self.name@,
            banner: match self.banner {
                Some(b) => Some(b@),
                None => None,
            },
            command: self.command@,
            env: owned_pairs(self.env@),
        }
    }
}

/// Options as plain values.
pub struct OptionsView {
    pub args: Seq<Seq<char>>,
    pub no_pre_post: bool,
    pub silent: bool,
    pub vars: Seq<(Seq<char>, Seq<char>)>,
}

/// The plain-value view of shared run options.
pub open spec fn options_view(o: SharedRunOptions) -> OptionsView {
    OptionsView {
        args: strings_view(o.args@),
        no_pre_post: o.no_pre_post,
        silent: o.silent,
        vars: env_file_vars(o.env_file),
    }
}

/// The command of a step whose full shell text is `command`.
pub open spec fn command_for(
    t: ScriptType,
    name: Seq<char>,
    command: Seq<char>,
    p: PackageView,
    o: OptionsView,
    level: nat,
    on: bool,
) -> CommandView {
    CommandView {
        name,
        banner: if o.silent {
            None
        } else {
            Some(banner_text(t, level, command, on))
        },
        command,
        env: step_env(o.vars, level, name, command, p),
    }
}

/// The command of a step running the script text `cmd`: the script itself
/// gets the extra arguments appended, which fails when one holds NUL; the pre-
/// and post-scripts run as written.
pub open spec fn planned_command(
    t: ScriptType,
    name: Seq<char>,
    cmd: Seq<char>,
    p: PackageView,
    o: OptionsView,
    level: nat,
    on: bool,
) -> Option<CommandView> {
    if t == ScriptType::Normal {
        if any_nul(o.args) {
            None
        } else {
            Some(command_for(t, name, cmd + quoted_tail(o.args), p, o, level, on))
        }
    } else {
        Some(command_for(t, name, cmd, p, o, level, on))
    }
}

/// Every step of a run, the pre- and post-scripts as much as the script
/// itself, gets the same environment in the same order: the environment
/// file's variables first, then the next level, the step's own lifecycle event
/// (its name) and lifecycle script (its command), then the package's name and
/// version.
pub proof fn law_every_step_gets_env(
    p: PackageView,
    name: Seq<char>,
    cmd: Seq<char>,
    o: OptionsView,
    level: nat,
    on: bool,
    i: int,
)
    requires
        0 <= i < planned_steps(p, name, cmd, o, level, on).len(),
        planned_steps(p, name, cmd, o, level, on)[i].1 is Some,
    ensures
        ({
            let step = planned_steps(p, name, cmd, o, level, on)[i];
            let c = step.1.unwrap();
            &&& c.name == step.0
            &&& c.env == o.vars + seq![
                ("__NRR_LEVEL"@, decimal(level + 1int)),
                ("npm_lifecycle_event"@, step.0),
                ("npm_lifecycle_script"@, c.command),
            ] + package_vars(p)
            &&& c.env.subrange(0, o.vars.len() as int) == o.vars
        }),
{
    let steps = planned_steps(p, name, cmd, o, level, on);
    let c = steps[i].1.unwrap();
    assert((o.vars + seq![
        ("__NRR_LEVEL"@, decimal(level + 1int)),
        ("npm_lifecycle_event"@, steps[i].0),
        ("npm_lifecycle_script"@, c.command),
    ] + package_vars(p)).subrange(0, o.vars.len() as int) =~= o.vars);
}

/// Only the script itself gets the extra arguments: its command is its text
/// followed by the quoted arguments (and it cannot be planned when one holds
/// NUL), while a pre- or post-script runs exactly the text the package gives
/// it. Every planned step prints its line before running unless silent.
pub proof fn law_step_commands(
    p: PackageView,
    name: Seq<char>,
    cmd: Seq<char>,
    o: OptionsView,
    level: nat,
    on: bool,
    i: int,
)
    requires
        0 <= i < planned_steps(p, name, cmd, o, level, on).len(),
    ensures
        ({
            let step = planned_steps(p, name, cmd, o, level, on)[i];
            &&& step.0 == name ==> (step.1 is Some <==> !any_nul(o.args))
            &&& step.0 == name && step.1 is Some ==> step.1.unwrap().command == cmd + quoted_tail(o.args)
            &&& step.0 != name ==> lookup(p.scripts, step.0) is Some && step.1 is Some
                && step.1.unwrap().command == lookup(p.scripts, step.0).unwrap()
            &&& step.1 is Some ==> (step.1.unwrap().banner is None <==> o.silent)
        }),
{
    reveal_strlit("pre");
    reveal_strlit("post");
    let pre = hook_steps(ScriptType::Pre, name, p, o, level, on);
    assert(pre.len() > 0 ==> pre[0].0.len() == name.len() + 3);
    let post = hook_steps(ScriptType::Post, name, p, o, level, on);
    assert(post.len() > 0 ==> post[0].0.len() == name.len() + 4);
}

/// The step for the lifecycle script `prefix + name`, when hooks are enabled
/// and the package defines it.
pub open spec fn hook_steps(
    t: ScriptType,
    name: Seq<char>,
    p: PackageView,
    o: OptionsView,
    level: nat,
    on: bool,
) -> Seq<(Seq<char>, Option<CommandView>)> {
    let hook = type_prefix(t) + name;
    if !o.no_pre_post && lookup(p.scripts, hook) is Some {
        seq![(hook, planned_command(t, hook, lookup(p.scripts, hook).unwrap(), p, o, level, on))]
    } else {
        Seq::empty()
    }
}

/// The steps of running script `name` with text `cmd`, in order: the
/// pre-script, the script, the post-script. Each step is its name and its
/// command, or `None` when the command cannot be quoted.
pub open spec fn planned_steps(
    p: PackageView,
    name: Seq<char>,
    cmd: Seq<char>,
    o: OptionsView,
    level: nat,
    on: bool,
) -> Seq<(Seq<char>, Option<CommandView>)> {
    hook_steps(ScriptType::Pre, name, p, o, level, on) + seq![
        (name, planned_command(ScriptType::Normal, name, cmd, p, o, level, on)),
    ] + hook_steps(ScriptType::Post, name, p, o, level, on)
}

/// Appends the pair `(key, value)`.
fn push_var(v: &mut Vec<(String, String)>, key: &str, value: &str)
    ensures
        owned_pairs(final(v)@) == owned_pairs(old(v)@).push((key@, value@)),
{
    v.push((String::from_str(key), String::from_str(value)));
    assert(owned_pairs(final(v)@) =~= owned_pairs(old(v)@).push((key@, value@))) by {
        assert forall|j: int| 0 <= j < old(v)@.len() implies #[trigger] owned_pairs(final(v)@)[j]
            == owned_pairs(old(v)@)[j] by {
            assert(final(v)@[j] == old(v)@[j]);
        }
    }
}

/// Appends the variables of an optional environment file.
fn push_env_file(v: &mut Vec<(String, String)>, e: &Option<EnvFile>)
    ensures
        owned_pairs(final(v)@) == owned_pairs(old(v)@) + env_file_vars(*e),
{
    match e {
        None => {
            assert(owned_pairs(v@) =~= owned_pairs(v@) + Seq::empty());
        },
        Some(f) => {
            let pairs = f.iter();
            let ghost start = owned_pairs(v@);
            let mut i: usize = 0;
            while i < pairs.len()
                invariant
                    i <= pairs.len(),
                    borrowed_pairs(pairs@) == f.vars(),
                    owned_pairs(v@) == start + borrowed_pairs(pairs@).subrange(0, i as int),
                decreases pairs.len() - i,
            {
                let (key, value) = pairs[i];
                push_var(v, key, value);
                assert(borrowed_pairs(pairs@)[i as int] == (key@, value@));
                assert(borrowed_pairs(pairs@).subrange(0, i + 1) =~= borrowed_pairs(pairs@).subrange(
                    0,
                    i as int,
                ).push((key@, value@)));
                i = i + 1;
            }
            assert(borrowed_pairs(pairs@).subrange(0, pairs@.len() as int) =~= borrowed_pairs(
                pairs@,
            ));
        },
    }
}

/// Appends the package's name and version variables.
fn push_package_vars(v: &mut Vec<(String, String)>, package: &PackageJson)
    ensures
        owned_pairs(final(v)@) == owned_pairs(old(v)@) + package_vars(package@),
{
    let ghost start = owned_pairs(v@);
    match &package.name {
        Some(n) => push_var(v, "npm_package_name", n.as_str()),
        None => {},
    }
    let ghost mid = owned_pairs(v@);
    match &package.version {
        Some(ver) => push_var(v, "npm_package_version", ver.as_str()),
        None => {},
    }
    assert(owned_pairs(v@) =~= start + package_vars(package@));
}

/// Appends the level variable for commands started at `level`.
fn push_level_var(v: &mut Vec<(String, String)>, level: usize)
    requires
        level < usize::MAX,
    ensures
        owned_pairs(final(v)@) == owned_pairs(old(v)@).push(level_var(level as nat)),
{
    let next = itoa((level + 1) as i128);
    push_var(v, "__NRR_LEVEL", next.as_str());
}

/// The `$` markers of a nesting level.
fn dollar_marks(level: usize) -> (s: String)
    ensures
        s@ == dollars(level as nat),
{
    proof {
        reveal_strlit("$");
    }
    let mut s = String::new();
    let mut i: usize = 0;
    while i < level
        invariant
            i <= level,
            s@ =~= dollars(i as nat),
        decreases level - i,
    {
        let ghost before = s@;
        s.append("$");
        proof {
            reveal_strlit("$");
        }
        assert("$"@ =~= seq!['$']);
        assert(s@ =~= dollars((i + 1) as nat)) by {
            assert forall|j: int| 0 <= j < i + 1 implies s@[j] == '$' by {
                if j < i {
                    assert(s@[j] == before[j]);
                }
            }
        }
        i = i + 1;
    }
    s
}

/// The line printed before a command runs.
pub fn banner(t: ScriptType, level: usize, command: &str, on: bool) -> (r: String)
    ensures
        r@ == banner_text(t, level as nat, command@, on),
{
    proof {
        reveal_strlit(" ");
        reveal_strlit("\n");
    }
    let mut marks = t.prefix();
    let d = dollar_marks(level);
    marks.append(d.as_str());
    let cyan = paint(marks.as_str(), Style::Cyan, on);
    let mut out = paint(cyan.as_str(), Style::Dimmed, on);
    out.append(" ");
    let cmd = paint(command, Style::Dimmed, on);
    out.append(cmd.as_str());
    out.append("\n");
    assert(out@ =~= banner_text(t, level as nat, command@, on));
    out
}

/// The command of a step whose full shell text is `command`.
fn step_command(
    t: ScriptType,
    name: String,
    command: String,
    package: &PackageJson,
    options: &SharedRunOptions,
    level: usize,
    on: bool,
) -> (r: StepCommand)
    requires
        level < usize::MAX,
    ensures
        r@ == command_for(t, name@, command@, package@, options_view(*options), level as nat, on),
{
    let banner_line = if options.silent {
        None
    } else {
        Some(banner(t, level, command.as_str(), on))
    };
    let mut env: Vec<(String, String)> = Vec::new();
    push_env_file(&mut env, &options.env_file);
    push_level_var(&mut env, level);
    push_var(&mut env, "npm_lifecycle_event", name.as_str());
    push_var(&mut env, "npm_lifecycle_script", command.as_str());
    push_package_vars(&mut env, package);
    assert(owned_pairs(env@) =~= step_env(
        env_file_vars(options.env_file),
        level as nat,
        name@,
        command@,
        package@,
    ));
    StepCommand { name, banner: banner_line, command, env }
}

/// A step of a run: the script's name and its command, or why it cannot run.
pub struct PlannedStep {
    pub name: String,
    pub launch: Result<StepCommand, shlex::QuoteError>,
}

/// A planned step as plain values.
pub open spec fn step_view(s: PlannedStep) -> (Seq<char>, Option<CommandView>) {
    (
        s.name@,
        match s.launch {
            Ok(c) => Some(c@),
            Err(_) => None,
        },
    )
}

/// Plans the step running script text `cmd` under the name `name`.
pub(crate) fn plan_step(
    t: ScriptType,
    name: String,
    cmd: &str,
    package: &PackageJson,
    options: &SharedRunOptions,
    level: usize,
    on: bool,
) -> (r: PlannedStep)
    requires
        level < usize::MAX,
    ensures
        step_view(r) == (
            name@,
            planned_command(t, name@, cmd@, package@, options_view(*options), level as nat, on),
        ),
{
    let full = if t == ScriptType::Normal {
        append_args(cmd, &options.args)
    } else {
        Ok(String::from_str(cmd))
    };
    match full {
        Err(e) => PlannedStep { name, launch: Err(e) },
        Ok(c) => {
            let n = name.clone();
            let command = step_command(t, n, c, package, options, level, on);
            PlannedStep { name, launch: Ok(command) }
        },
    }
}


/// The heading printed before running a script, unless output is silent: the
/// package heading, naming the script only for a nested runner (level other
/// than 1).
pub open spec fn header_text(p: PackageView, name: Seq<char>, silent: bool, level: nat, colors: ColorSupport) -> Option<Seq<char>> {
    if silent {
        None
    } else {
        Some(prefix_text(p, if level == 1 { None } else { Some(name) }, colors.stderr, colors.stderr))
    }
}

/// The heading names the script only in a nested runner: at the top level
/// (level 1) it is the package heading alone, deeper it adds a space and the
/// script's name before the newline; silent runs print none.
pub proof fn law_header_names_script_when_nested(
    p: PackageView,
    name: Seq<char>,
    version: Option<Seq<char>>,
    script: Seq<char>,
    level: nat,
)
    requires
        p.name == Some(name),
        p.version == version,
    ensures
        header_text(p, script, true, level, ColorSupport { stdout: false, stderr: false }) is None,
        ({
            let base = name + match version {
                Some(v) => seq!['@'] + v,
                None => Seq::empty(),
            };
            header_text(p, script, false, level, ColorSupport { stdout: false, stderr: false })
                == Some(if level == 1 {
                base + seq!['\n']
            } else {
                base + seq![' '] + script + seq!['\n']
            })
        }),
{
    let base = name + match version {
        Some(v) => seq!['@'] + v,
        None => Seq::empty(),
    };
    if level == 1 {
        assert(prefix_text(p, None, false, false) =~= base + seq!['\n']);
    } else {
        assert(prefix_text(p, Some(script), false, false) =~= base + seq![' '] + script + seq!['\n']);
    }
}

/// The heading printed to standard error before running script `script_name`.
pub fn script_header(
    package: &PackageJson,
    script_name: &str,
    options: &SharedRunOptions,
    level: usize,
    colors: ColorSupport,
) -> (r: Option<String>)
    ensures
        match r {
            Some(h) => header_text(package@, script_name@, options.silent, level as nat, colors)
                == Some(h@),
            None => header_text(package@, script_name@, options.silent, level as nat, colors) is None,
        },
{
    if options.silent {
        None
    } else {
        let script = if level == 1 {
            None
        } else {
            Some(script_name)
        };
        Some(package.make_prefix(script, Stream::Stderr, colors))
    }
}

/// The environment a command run with `exec` gets, besides the search path,
/// the runner's own path and the manifest's path: the environment file's
/// variables, then the level, then the package's name and version.
pub open spec fn exec_env_vars(p: PackageView, vars: Seq<(Seq<char>, Seq<char>)>, level: nat) -> Seq<(Seq<char>, Seq<char>)> {
    vars.push(level_var(level)) + package_vars(p)
}

/// The variables to set for a command run with `exec` by a runner at `level`.
pub fn exec_env(package: &PackageJson, args: &ExecArgs, level: usize) -> (r: Vec<(String, String)>)
    requires
        level < usize::MAX,
    ensures
        owned_pairs(r@) == exec_env_vars(package@, env_file_vars(args.env_file), level as nat),
{
    let mut env: Vec<(String, String)> = Vec::new();
    push_env_file(&mut env, &args.env_file);
    push_level_var(&mut env, level);
    push_package_vars(&mut env, package);
    assert(owned_pairs(env@) =~= exec_env_vars(package@, env_file_vars(args.env_file), level as nat));
    env
}

} // verus!
