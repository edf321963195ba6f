use vstd::prelude::*;

use crate::cli::SharedRunOptions;
use crate::package_json::{lookup, PackageJson, PackageView};
use crate::report::{script_failed_message, script_failed_text};
use crate::run::{
    planned_command, planned_steps, plan_step, hook_steps, options_view, step_view, CommandView,
    OptionsView, PlannedStep, ScriptType, StepCommand,
};
use crate::util::exit_code;

verus! {

/// What the caller reports after the previous action.
#[derive(Clone, Copy, Debug, PartialEq, Eq, Structural)]
pub enum RunEvent {
    /// Start the run, or the last command exited successfully.
    Proceed,
    /// The last command exited unsuccessfully, with this code if it had one.
    Failed(Option<i32>),
}

/// What the caller should do next.
pub enum RunAction {
    /// Print the banner (if any) and run this command, then report how it exited.
    Spawn(StepCommand),
    /// A command could not be quoted: stop with this error.
    Abort(shlex::QuoteError),
    /// A command failed: print the message and exit the process with the code.
    Fail { message: String, code: i32 },
    /// Nothing is left to run.
    Done,
}

/// An action as plain values.
pub enum ActionView {
    Spawn(CommandView),
    Abort,
    Fail(Seq<char>, i32),
    Done,
}

/// The plain-value view of an action.
pub open spec fn action_view(a: RunAction) -> ActionView {
    match a {
        RunAction::Spawn(c) => ActionView::Spawn(c@),
        RunAction::Abort(_) => ActionView::Abort,
        RunAction::Fail { message, code } => ActionView::Fail(message@, code),
        RunAction::Done => ActionView::Done,
    }
}

/// A run of a script as plain values: the steps still to start, in order,
/// whether the run is over, the name of the last step started, and whether
/// standard error shows colors.
pub struct RunView {
    pub pending: Seq<(Seq<char>, Option<CommandView>)>,
    pub finished: bool,
    pub last: Seq<char>,
    pub color: bool,
}

/// How a run answers an event: the next state and the action to take.
pub open spec fn transition(s: RunView, e: RunEvent) -> (RunView, ActionView) {
    if s.finished {
        (s, ActionView::Done)
    } else {
        match e {
            RunEvent::Failed(code) => (
                RunView { pending: s.pending, finished: true, last: s.last, color: s.color },
                ActionView::Fail(script_failed_text(s.last, exit_code(code), s.color), exit_code(code)),
            ),
            RunEvent::Proceed => if s.pending.len() == 0 {
                (
                    RunView { pending: s.pending, finished: true, last: s.last, color: s.color },
                    ActionView::Done,
                )
            } else {
                match s.pending[0].1 {
                    None => (
                        RunView {
                            pending: s.pending.drop_first(),
                            finished: true,
                            last: s.last,
                            color: s.color,
                        },
                        ActionView::Abort,
                    ),
                    Some(c) => (
                        RunView {
                            pending: s.pending.drop_first(),
                            finished: false,
                            last: s.pending[0].0,
                            color: s.color,
                        },
                        ActionView::Spawn(c),
                    ),
                }
            },
        }
    }
}

/// The run of one script with its pre- and post-scripts: it hands out one
/// command at a time and stops at the first that fails.
pub struct ScriptRun {
    /// The steps still to start, the next one last.
    pending: Vec<PlannedStep>,
    finished: bool,
    last: String,
    color: bool,
}

/// Steps stored next-last, in the order they run.
pub open spec fn run_order(v: Seq<PlannedStep>) -> Seq<(Seq<char>, Option<CommandView>)> {
    Seq::new(v.len(), |i: int| step_view(v[v.len() - 1 - i]))
}

impl View for ScriptRun {
    type V = RunView;

    closed spec fn view(&self) -> RunView {
        RunView {
            pending: run_order(self.pending@),
            finished: self.finished,
            last: self.last@,
            color: self.color,
        }
    }
}

impl ScriptRun {
    /// Plans the run of script `script_name`, whose text is `script_cmd`, for a
    /// runner at nesting `level`.
    pub fn new(
        package: &PackageJson,
        script_name: &str,
        script_cmd: &str,
        options: &SharedRunOptions,
        level: usize,
        color: bool,
    ) -> (r: ScriptRun)
        requires
            level < usize::MAX,
        ensures
            r@ == (RunView {
                pending: planned_steps(
                    package@,
                    script_name@,
                    script_cmd@,
                    options_view(*options),
                    level as nat,
                    color,
                ),
                finished: false,
                last: Seq::empty(),
                color,
            }),
    {
        let ghost o = options_view(*options);
        let mut pending: Vec<PlannedStep> = Vec::new();
        if !options.no_pre_post {
            let post_name = String::from_str("post").concat(script_name);
            match package.script(post_name.as_str()) {
                Some(cmd) => {
                    let step = plan_step(
                        ScriptType::Post,
                        post_name.clone(),
                        cmd.as_str(),
                        package,
                        options,
                        level,
                        color,
                    );
                    pending.push(step);
                },
                None => {},
            }
        }
        let ghost posts = run_order(pending@);
        assert(posts =~= hook_steps(ScriptType::Post, script_name@, package@, o, level as nat, color));
        let normal = plan_step(
            ScriptType::Normal,
            String::from_str(script_name),
            script_cmd,
            package,
            options,
            level,
            color,
        );
        pending.push(normal);
        let ghost mid = run_order(pending@);
        assert(mid =~= seq![
            (script_name@, planned_command(ScriptType::Normal, script_name@, script_cmd@, package@, o, level as nat, color)),
        ] + posts);
        if !options.no_pre_post {
            let pre_name = String::from_str("pre").concat(script_name);
            match package.script(pre_name.as_str()) {
                Some(cmd) => {
                    let step = plan_step(
                        ScriptType::Pre,
                        pre_name.clone(),
                        cmd.as_str(),
                        package,
                        options,
                        level,
                        color,
                    );
                    pending.push(step);
                },
                None => {},
            }
        }
        assert(run_order(pending@) =~= hook_steps(
            ScriptType::Pre,
            script_name@,
            package@,
            o,
            level as nat,
            color,
        ) + mid);
        assert(run_order(pending@) =~= planned_steps(
            package@,
            script_name@,
            script_cmd@,
            o,
            level as nat,
            color,
        ));
        ScriptRun { pending, finished: false, last: String::new(), color }
    }

    /// Answers an event with the next action.
    pub fn step(&mut self, event: RunEvent) -> (a: RunAction)
        ensures
            (final(self)@, action_view(a)) == transition(old(self)@, event),
    {
        if self.finished {
            return RunAction::Done;
        }
        match event {
            RunEvent::Failed(code) => {
                self.finished = true;
                let c = match code {
                    Some(c) => c,
                    None => 1,
                };
                let message = script_failed_message(self.last.as_str(), c, self.color);
                RunAction::Fail { message, code: c }
            },
            RunEvent::Proceed => {
                let ghost before = self.pending@;
                match self.pending.pop() {
                    None => {
                        self.finished = true;
                        RunAction::Done
                    },
                    Some(next) => {
                        proof {
                            assert(run_order(self.pending@) =~= run_order(before).drop_first());
                        }
                        match next.launch {
                            Err(e) => {
                                self.finished = true;
                                RunAction::Abort(e)
                            },
                            Ok(c) => {
                                self.last = next.name;
                                RunAction::Spawn(c)
                            },
                        }
                    },
                }
            },
        }
    }
}

/// The state after `k` successive `Proceed` events.
pub open spec fn proceed_n(s: RunView, k: nat) -> RunView
    decreases k,
{
    if k == 0 {
        s
    } else {
        transition(proceed_n(s, (k - 1) as nat), RunEvent::Proceed).0
    }
}

/// Once a run is over, every event leaves it as it is and asks for nothing.
pub proof fn law_finished_run_stays_finished(s: RunView, e: RunEvent)
    requires
        s.finished,
    ensures
        transition(s, e) == (s, ActionView::Done),
{
}

/// A command that fails ends the run: it is reported with its exit code (1
/// when it has none), and whatever comes next, nothing more is started.
pub proof fn law_failure_ends_run(s: RunView, code: Option<i32>, e: RunEvent)
    requires
        !s.finished,
    ensures
        transition(s, RunEvent::Failed(code)).1 == ActionView::Fail(
            script_failed_text(s.last, exit_code(code), s.color),
            exit_code(code),
        ),
        transition(s, RunEvent::Failed(code)).0.finished,
        transition(transition(s, RunEvent::Failed(code)).0, e).1 == ActionView::Done,
{
}

/// While every command succeeds, the steps start one after the other in plan
/// order: after `k` successes the next `Proceed` starts step `k`.
pub proof fn law_steps_start_in_order(s: RunView, k: nat)
    requires
        !s.finished,
        k < s.pending.len(),
        forall|i: int| 0 <= i < s.pending.len() ==> (#[trigger] s.pending[i]).1 is Some,
    ensures
        !proceed_n(s, k).finished,
        proceed_n(s, k).pending == s.pending.skip(k as int),
        proceed_n(s, k).color == s.color,
        transition(proceed_n(s, k), RunEvent::Proceed).1 == ActionView::Spawn(
            s.pending[k as int].1.unwrap(),
        ),
    decreases k,
{
    if k > 0 {
        law_steps_start_in_order(s, (k - 1) as nat);
        let prev = proceed_n(s, (k - 1) as nat);
        assert(prev.pending[0] == s.pending[k - 1]);
        assert(prev.pending.drop_first() =~= s.pending.skip(k as int));
    } else {
        assert(s.pending.skip(0) =~= s.pending);
    }
}

/// Every started step can still fail the run, the last one included: after
/// `k` successful `Proceed`s (`1 <= k <= ` the number of steps) the run is not
/// over, its last step is step `k - 1`, and reporting that step's failure
/// yields `Fail` naming it, with exactly the code it exited with (1 when it
/// has none). Only once every step has succeeded does `Proceed` answer `Done`.
pub proof fn law_started_step_failure_is_reported(s: RunView, k: nat, code: Option<i32>)
    requires
        !s.finished,
        1 <= k <= s.pending.len(),
        forall|i: int| 0 <= i < s.pending.len() ==> (#[trigger] s.pending[i]).1 is Some,
    ensures
        !proceed_n(s, k).finished,
        proceed_n(s, k).last == s.pending[k - 1].0,
        proceed_n(s, k).pending == s.pending.skip(k as int),
        forall|c: i32|
            code == Some(c) ==> #[trigger] transition(proceed_n(s, k), RunEvent::Failed(code)).1
                == ActionView::Fail(script_failed_text(s.pending[k - 1].0, c, s.color), c),
        code is None ==> transition(proceed_n(s, k), RunEvent::Failed(code)).1 == ActionView::Fail(
            script_failed_text(s.pending[k - 1].0, 1, s.color),
            1,
        ),
        k == s.pending.len() ==> transition(proceed_n(s, k), RunEvent::Proceed).1
            == ActionView::Done,
{
    law_steps_start_in_order(s, (k - 1) as nat);
    let prev = proceed_n(s, (k - 1) as nat);
    assert(prev.pending[0] == s.pending[k - 1]);
    assert(prev.pending.drop_first() =~= s.pending.skip(k as int));
    assert(proceed_n(s, k) == transition(prev, RunEvent::Proceed).0);
}

/// The order of a run: the pre-script (when hooks are on and the package has
/// one), then the script itself, then the post-script likewise; with hooks off,
/// the script alone.
pub proof fn law_run_order(p: PackageView, name: Seq<char>, cmd: Seq<char>, o: OptionsView, level: nat, on: bool)
    ensures
        ({
            let steps = planned_steps(p, name, cmd, o, level, on);
            let pre = lookup(p.scripts, "pre"@ + name) is Some && !o.no_pre_post;
            let post = lookup(p.scripts, "post"@ + name) is Some && !o.no_pre_post;
            let i = if pre { 1int } else { 0int };
            &&& steps.len() == i + 1 + (if post { 1int } else { 0int })
            &&& pre ==> steps[0].0 == "pre"@ + name
            &&& steps[i].0 == name
            &&& post ==> steps[i + 1].0 == "post"@ + name
        }),
{
}


} // verus!
