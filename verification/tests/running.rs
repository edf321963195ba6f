use nrr::cli::{Action, Cli, ExecArgs, RootArgs, RunArgs, SharedRunOptions, Subcommands};
use nrr::env_file::EnvFile;
use nrr::package_json::{AIndexMap, PackageJson};
use nrr::run::{append_args, banner, exec_env, script_header, ScriptType};
use nrr::runner::{RunAction, RunEvent, ScriptRun};
use nrr::style::ColorSupport;

fn package(scripts: &[(&str, &str)]) -> PackageJson {
    let mut map: AIndexMap<String, String> = AIndexMap::default();
    for (k, v) in scripts {
        map.insert(k.to_string(), v.to_string());
    }
    PackageJson { name: Some("app".into()), version: Some("1.0.0".into()), scripts: map }
}

fn options(args: &[&str], no_pre_post: bool, silent: bool) -> SharedRunOptions {
    SharedRunOptions {
        args: args.iter().map(|s| s.to_string()).collect(),
        no_pre_post,
        silent,
        env_file: None,
    }
}

fn pairs(v: &[(&str, &str)]) -> Vec<(String, String)> {
    v.iter().map(|(a, b)| (a.to_string(), b.to_string())).collect()
}

const PLAIN: ColorSupport = ColorSupport { stdout: false, stderr: false };

#[test]
fn type_prefixes() {
    assert_eq!(ScriptType::Pre.prefix(), "pre");
    assert_eq!(ScriptType::Post.prefix(), "post");
    assert_eq!(ScriptType::Normal.prefix(), "");
}

#[test]
fn args_are_quoted() {
    let args = vec!["--watch".to_string(), "a b".to_string(), "".to_string(), "it's".to_string()];
    assert_eq!(append_args("vite", &args).unwrap(), "vite --watch 'a b' '' \"it's\"");
    assert_eq!(append_args("vite", &vec![]).unwrap(), "vite");
    assert!(append_args("vite", &vec!["ok".into(), "bad\0".into()]).is_err());
}

#[test]
fn banners_show_nesting() {
    assert_eq!(banner(ScriptType::Normal, 1, "eslint .", false), "$ eslint .\n");
    assert_eq!(banner(ScriptType::Normal, 2, "eslint .", false), "$$ eslint .\n");
    assert_eq!(banner(ScriptType::Pre, 1, "x", false), "pre$ x\n");
    assert_eq!(banner(ScriptType::Post, 0, "x", false), "post x\n");
    assert_eq!(banner(ScriptType::Normal, 1, "x", true), "\x1b[2m\x1b[36m$\x1b[39m\x1b[0m \x1b[2mx\x1b[0m\n");
}

#[test]
fn headers() {
    let p = package(&[("dev", "vite")]);
    assert_eq!(script_header(&p, "dev", &options(&[], false, false), 1, PLAIN), Some("app@1.0.0\n".to_string()));
    assert_eq!(script_header(&p, "dev", &options(&[], false, false), 2, PLAIN), Some("app@1.0.0 dev\n".to_string()));
    assert_eq!(script_header(&p, "dev", &options(&[], false, true), 1, PLAIN), None);
}

fn spawned(action: RunAction) -> nrr::run::StepCommand {
    match action {
        RunAction::Spawn(c) => c,
        _ => panic!("expected a command to run"),
    }
}

#[test]
fn full_run_with_hooks() {
    let p = package(&[("prebuild", "echo pre"), ("build", "tsc"), ("postbuild", "echo post")]);
    let o = options(&["--noEmit"], false, false);
    let mut run = ScriptRun::new(&p, "build", "tsc", &o, 1, false);
    let pre = spawned(run.step(RunEvent::Proceed));
    assert_eq!(pre.name, "prebuild");
    assert_eq!(pre.command, "echo pre");
    assert_eq!(pre.banner.as_deref(), Some("pre$ echo pre\n"));
    assert_eq!(
        pre.env,
        pairs(&[
            ("__NRR_LEVEL", "2"),
            ("npm_lifecycle_event", "prebuild"),
            ("npm_lifecycle_script", "echo pre"),
            ("npm_package_name", "app"),
            ("npm_package_version", "1.0.0"),
        ])
    );
    let main = spawned(run.step(RunEvent::Proceed));
    assert_eq!(main.name, "build");
    assert_eq!(main.command, "tsc --noEmit");
    assert_eq!(main.banner.as_deref(), Some("$ tsc --noEmit\n"));
    let post = spawned(run.step(RunEvent::Proceed));
    assert_eq!(post.command, "echo post");
    assert_eq!(post.banner.as_deref(), Some("post$ echo post\n"));
    assert!(matches!(run.step(RunEvent::Proceed), RunAction::Done));
    assert!(matches!(run.step(RunEvent::Proceed), RunAction::Done));
}

#[test]
fn failure_stops_the_run() {
    let p = package(&[("prebuild", "echo pre"), ("build", "tsc"), ("postbuild", "echo post")]);
    let o = options(&[], false, true);
    let mut run = ScriptRun::new(&p, "build", "tsc", &o, 1, false);
    let pre = spawned(run.step(RunEvent::Proceed));
    assert_eq!(pre.banner, None);
    let main = spawned(run.step(RunEvent::Proceed));
    assert_eq!(main.name, "build");
    match run.step(RunEvent::Failed(Some(2))) {
        RunAction::Fail { message, code } => {
            assert_eq!(code, 2);
            assert_eq!(message, "error  Script build exited with code 2!\n");
        }
        _ => panic!("expected a failure"),
    }
    assert!(matches!(run.step(RunEvent::Proceed), RunAction::Done));
}

#[test]
fn signal_exit_counts_as_one() {
    let p = package(&[("dev", "vite")]);
    let o = options(&[], false, false);
    let mut run = ScriptRun::new(&p, "dev", "vite", &o, 1, false);
    spawned(run.step(RunEvent::Proceed));
    assert!(matches!(run.step(RunEvent::Failed(None)), RunAction::Fail { code: 1, .. }));
}

#[test]
fn hooks_can_be_skipped() {
    let p = package(&[("prebuild", "echo pre"), ("build", "tsc"), ("postbuild", "echo post")]);
    let o = options(&[], true, false);
    let mut run = ScriptRun::new(&p, "build", "tsc", &o, 3, false);
    let main = spawned(run.step(RunEvent::Proceed));
    assert_eq!(main.name, "build");
    assert_eq!(main.banner.as_deref(), Some("$$$ tsc\n"));
    assert_eq!(main.env[0], ("__NRR_LEVEL".to_string(), "4".to_string()));
    assert!(matches!(run.step(RunEvent::Proceed), RunAction::Done));
}

#[test]
fn unquotable_argument_aborts_after_pre() {
    let p = package(&[("prebuild", "echo pre"), ("build", "tsc")]);
    let o = options(&["a\0b"], false, false);
    let mut run = ScriptRun::new(&p, "build", "tsc", &o, 1, false);
    let pre = spawned(run.step(RunEvent::Proceed));
    assert_eq!(pre.name, "prebuild");
    assert!(matches!(run.step(RunEvent::Proceed), RunAction::Abort(_)));
    assert!(matches!(run.step(RunEvent::Proceed), RunAction::Done));
}

#[test]
fn env_file_variables_come_first() {
    let p = package(&[("dev", "vite")]);
    let mut o = options(&[], false, false);
    o.env_file = Some(EnvFile::new(pairs(&[("A", "1"), ("B", "2")])));
    let mut run = ScriptRun::new(&p, "dev", "vite", &o, 1, false);
    let main = spawned(run.step(RunEvent::Proceed));
    assert_eq!(&main.env[..2], &pairs(&[("A", "1"), ("B", "2")])[..]);
    assert_eq!(main.env.len(), 7);
}

#[test]
fn env_file_iter() {
    let e = EnvFile::new(pairs(&[("A", "1"), ("B", "x y")]));
    assert_eq!(e.iter(), vec![("A", "1"), ("B", "x y")]);
}

#[test]
fn exec_environment() {
    let p = package(&[]);
    let args = ExecArgs {
        executable: "eslint".into(),
        args: vec![],
        env_file: Some(EnvFile::new(pairs(&[("K", "V")]))),
    };
    assert_eq!(
        exec_env(&p, &args, 1),
        pairs(&[("K", "V"), ("__NRR_LEVEL", "2"), ("npm_package_name", "app"), ("npm_package_version", "1.0.0")])
    );
}

fn cli(script: Option<&str>, subcommand: Option<Subcommands>) -> Cli {
    Cli {
        root_args: RootArgs { script: script.map(String::from), options: options(&[], false, false) },
        subcommand,
    }
}

#[test]
fn command_line_actions() {
    assert!(matches!(cli(None, None).action(), Action::List { help_when_empty: true }));
    assert!(matches!(cli(None, Some(Subcommands::List)).action(), Action::List { help_when_empty: false }));
    match cli(Some("dev"), None).action() {
        Action::Run { script, .. } => assert_eq!(script, "dev"),
        _ => panic!("expected run"),
    }
    let run = cli(None, Some(Subcommands::Run(RunArgs { script: "build".into(), options: options(&["x"], true, false) })));
    match run.action() {
        Action::Run { script, options } => {
            assert_eq!(script, "build");
            assert!(options.no_pre_post);
        }
        _ => panic!("expected run"),
    }
    let exec = cli(None, Some(Subcommands::Exec(ExecArgs { executable: "tsc".into(), args: vec![], env_file: None })));
    assert!(matches!(exec.action(), Action::Exec(e) if e.executable == "tsc"));
}
