use vstd::prelude::*;

use crate::command::{CommandTrait, ConditionTrait};
use crate::condition::{has_applicable_conditions, spec_applicable, ConditionView};
use crate::environment::{EnvVar, EnvVarView};
use crate::errors::{ParserErrorView, UtilsError, UtilsErrorView};
use crate::substitute::{replace_variables, spec_substitute};
use crate::variable::{Variable, VariableView};

verus! {

/// The resolved run context: the directory commands run in, the resolved
/// environment entries they receive, the resolved variables, and whether
/// replacements are shell-quoted.
#[derive(Debug)]
pub struct Project {
    pub working_dir: String,
    pub envs: Vec<EnvVar>,
    pub variables: Vec<Variable>,
    pub clean: bool,
}

/// Mathematical model of a `Project`.
pub struct ProjectView {
    pub working_dir: Seq<char>,
    pub envs: Seq<EnvVarView>,
    pub variables: Seq<VariableView>,
    pub clean: bool,
}

impl View for Project {
    type V = ProjectView;

    open spec fn view(&self) -> ProjectView {
        ProjectView {
            working_dir: self.working_dir@,
            envs: self.envs.deep_view(),
            variables: self.variables.deep_view(),
            clean: self.clean,
        }
    }
}

/// The shell string a step resolves to, or why it resolves to none: a
/// failing condition lookup, conditions that do not hold (a skip, not a
/// failure), or a placeholder without a value in the command template.
/// Replacements in command templates are always shell-quoted when the
/// project runs in escaping mode.
pub open spec fn spec_prepare_command(
    name: Seq<char>,
    template: Seq<char>,
    conditions: Option<Seq<ConditionView>>,
    vars: Seq<VariableView>,
    clean: bool,
) -> Result<Seq<char>, UtilsErrorView> {
    match spec_applicable(conditions, vars) {
        Err(n) => Err(
            UtilsErrorView::CommandFailedDueToParseError(
                ParserErrorView::VariableDoesNotExist(n),
            ),
        ),
        Ok(false) => Err(UtilsErrorView::CommandNotApplicable { name }),
        Ok(true) => match spec_substitute(template, vars, clean) {
            Ok(s) => Ok(s),
            Err(n) => Err(UtilsErrorView::VariableNotSet(n)),
        },
    }
}

/// Resolves one step to the shell string to run: evaluates its conditions,
/// then expands the command template with shell-quoting as the project
/// demands. A step whose conditions do not hold is reported as not
/// applicable, which callers treat as a skip.
pub fn prepare_command<T: CommandTrait + ConditionTrait>(command: &T, project: &Project) -> (r:
    Result<String, UtilsError>)
    ensures
        match (r, spec_prepare_command(
            command.spec_name(),
            command.spec_command(),
            command.spec_conditions(),
            project@.variables,
            project@.clean,
        )) {
            (Ok(s), Ok(t)) => s@ == t,
            (Err(e), Err(ev)) => e@ == ev,
            _ => false,
        },
{
    let conditions = command.get_conditions();
    if conditions.is_some() {
        match has_applicable_conditions(conditions, &project.variables) {
            Ok(true) => {},
            Ok(false) => {
                return Err(UtilsError::CommandNotApplicable { name: command.name().to_owned() });
            },
            Err(e) => {
                return Err(UtilsError::CommandFailedDueToParseError(e));
            },
        }
    }
    replace_variables(command.command(), &project.variables, &project.clean)
}

/// What the runner reported back for one spawned command.
#[derive(Debug)]
pub enum RunResult {
    /// The child ran to completion; `success` tells whether it exited with
    /// status zero, and `stderr` is what it wrote to its error stream.
    Completed { success: bool, stderr: String },
    /// The child could not be spawned at all.
    SpawnFailed { message: String },
}

/// Mathematical model of a `RunResult`.
pub enum RunResultView {
    Completed { success: bool, stderr: Seq<char> },
    SpawnFailed { message: Seq<char> },
}

impl View for RunResult {
    type V = RunResultView;

    open spec fn view(&self) -> RunResultView {
        match self {
            RunResult::Completed { success, stderr } => RunResultView::Completed {
                success: *success,
                stderr: stderr@,
            },
            RunResult::SpawnFailed { message } => RunResultView::SpawnFailed { message: message@ },
        }
    }
}

impl DeepView for RunResult {
    type V = RunResultView;

    open spec fn deep_view(&self) -> RunResultView {
        self.view()
    }
}

/// How one run report is judged: a zero exit status is a success, anything
/// else is a failure carrying the command's name and the reported cause.
pub open spec fn spec_run_outcome(name: Seq<char>, run: RunResultView) -> Result<
    (),
    UtilsErrorView,
> {
    match run {
        RunResultView::Completed { success, stderr } => if success {
            Ok(())
        } else {
            Err(UtilsErrorView::CommandFailed { name, message: stderr })
        },
        RunResultView::SpawnFailed { message } => Err(
            UtilsErrorView::CommandFailed { name, message },
        ),
    }
}

/// Judges what the runner reported for the command called `name`.
pub fn command_outcome(name: &str, run: &RunResult) -> (r: Result<(), UtilsError>)
    ensures
        match (r, spec_run_outcome(name@, run@)) {
            (Ok(()), Ok(())) => true,
            (Err(e), Err(ev)) => e@ == ev,
            _ => false,
        },
{
    match run {
        RunResult::Completed { success, stderr } => {
            if *success {
                Ok(())
            } else {
                Err(
                    UtilsError::CommandFailed { name: name.to_owned(), message: stderr.clone() },
                )
            }
        },
        RunResult::SpawnFailed { message } => {
            Err(UtilsError::CommandFailed { name: name.to_owned(), message: message.clone() })
        },
    }
}

/// What one step of a batch is to do: run a resolved shell string, be
/// skipped, or be recorded as failed before it could run.
#[derive(Debug)]
pub enum CommandPlan {
    Run { name: String, shell_command: String },
    Skip { name: String },
    Fail { name: String, error: UtilsError },
}

/// Mathematical model of a `CommandPlan`.
pub enum CommandPlanView {
    Run { name: Seq<char>, shell_command: Seq<char> },
    Skip { name: Seq<char> },
    Fail { name: Seq<char>, error: UtilsErrorView },
}

impl View for CommandPlan {
    type V = CommandPlanView;

    open spec fn view(&self) -> CommandPlanView {
        match self {
            CommandPlan::Run { name, shell_command } => CommandPlanView::Run {
                name: name@,
                shell_command: shell_command@,
            },
            CommandPlan::Skip { name } => CommandPlanView::Skip { name: name@ },
            CommandPlan::Fail { name, error } => CommandPlanView::Fail {
                name: name@,
                error: error@,
            },
        }
    }
}

impl DeepView for CommandPlan {
    type V = CommandPlanView;

    open spec fn deep_view(&self) -> CommandPlanView {
        self.view()
    }
}

/// The plan one step resolves to, given the resolved variables and the
/// escaping mode.
pub open spec fn spec_plan_of(
    name: Seq<char>,
    template: Seq<char>,
    conditions: Option<Seq<ConditionView>>,
    vars: Seq<VariableView>,
    clean: bool,
) -> CommandPlanView {
    match spec_prepare_command(name, template, conditions, vars, clean) {
        Ok(s) => CommandPlanView::Run { name, shell_command: s },
        Err(UtilsErrorView::CommandNotApplicable { .. }) => CommandPlanView::Skip { name },
        Err(e) => CommandPlanView::Fail { name, error: e },
    }
}

/// Plans a whole batch: every step of the list is planned, in order, and
/// each slot of the result depends only on the step in the same slot —
/// no step's failure removes or changes another step's plan.
pub fn plan_commands<T: CommandTrait + ConditionTrait>(commands: &Vec<T>, project: &Project) -> (r:
    Vec<CommandPlan>)
    ensures
        r@.len() == commands@.len(),
        forall|i: int|
            0 <= i < commands@.len() ==> r.deep_view()[i] == spec_plan_of(
                commands@[i].spec_name(),
                commands@[i].spec_command(),
                commands@[i].spec_conditions(),
                project@.variables,
                project@.clean,
            ),
{
    let mut r: Vec<CommandPlan> = Vec::new();
    let mut i: usize = 0;
    while i < commands.len()
        invariant
            i <= commands.len(),
            r@.len() == i,
            forall|k: int|
                0 <= k < i ==> (#[trigger] r@[k])@ == spec_plan_of(
                    commands@[k].spec_name(),
                    commands@[k].spec_command(),
                    commands@[k].spec_conditions(),
                    project@.variables,
                    project@.clean,
                ),
        decreases commands.len() - i,
    {
        let command = &commands[i];
        let name = command.name().to_owned();
        let plan = match prepare_command(command, project) {
            Ok(shell_command) => CommandPlan::Run { name, shell_command },
            Err(e) => match e {
                UtilsError::CommandNotApplicable { .. } => CommandPlan::Skip { name },
                e => CommandPlan::Fail { name, error: e },
            },
        };
        r.push(plan);
        i = i + 1;
    }
    r
}

/// The outcome recorded for one step of a batch.
#[derive(Debug)]
pub enum CommandOutcome {
    Succeeded { name: String },
    Skipped { name: String },
    Failed { name: String, error: UtilsError },
}

/// Mathematical model of a `CommandOutcome`.
pub enum CommandOutcomeView {
    Succeeded { name: Seq<char> },
    Skipped { name: Seq<char> },
    Failed { name: Seq<char>, error: UtilsErrorView },
}

impl View for CommandOutcome {
    type V = CommandOutcomeView;

    open spec fn view(&self) -> CommandOutcomeView {
        match self {
            CommandOutcome::Succeeded { name } => CommandOutcomeView::Succeeded { name: name@ },
            CommandOutcome::Skipped { name } => CommandOutcomeView::Skipped { name: name@ },
            CommandOutcome::Failed { name, error } => CommandOutcomeView::Failed {
                name: name@,
                error: error@,
            },
        }
    }
}

impl DeepView for CommandOutcome {
    type V = CommandOutcomeView;

    open spec fn deep_view(&self) -> CommandOutcomeView {
        self.view()
    }
}

/// The outcome one slot records, from that slot's plan and that slot's run
/// report alone. A slot planned to run must come with a report; the other
/// slots must come without one.
pub open spec fn spec_outcome_of(plan: CommandPlanView, run: Option<RunResultView>) -> (
    CommandOutcomeView) {
    match plan {
        CommandPlanView::Run { name, .. } => match run {
            Some(report) => match spec_run_outcome(name, report) {
                Ok(()) => CommandOutcomeView::Succeeded { name },
                Err(e) => CommandOutcomeView::Failed { name, error: e },
            },
            None => CommandOutcomeView::Skipped { name },
        },
        CommandPlanView::Skip { name } => CommandOutcomeView::Skipped { name },
        CommandPlanView::Fail { name, error } => CommandOutcomeView::Failed { name, error },
    }
}

/// Records the outcome of every step of a batch: one outcome per plan
/// entry, in order. No outcome — success, skip or failure — removes or
/// reshapes any other slot: the whole batch is always accounted for.
pub fn record_outcomes(plans: &Vec<CommandPlan>, runs: &Vec<Option<RunResult>>) -> (r: Vec<
    CommandOutcome,
>)
    requires
        plans@.len() == runs@.len(),
        forall|i: int|
            0 <= i < plans@.len() ==> ((#[trigger] plans@[i]) matches CommandPlan::Run { .. }
                <==> runs@[i] is Some),
    ensures
        r@.len() == plans@.len(),
        forall|i: int|
            0 <= i < plans@.len() ==> r.deep_view()[i] == spec_outcome_of(
                plans.deep_view()[i],
                runs.deep_view()[i],
            ),
{
    let mut r: Vec<CommandOutcome> = Vec::new();
    let mut i: usize = 0;
    while i < plans.len()
        invariant
            i <= plans.len(),
            plans@.len() == runs@.len(),
            r@.len() == i,
            forall|k: int|
                0 <= k < plans@.len() ==> ((#[trigger] plans@[k]) matches CommandPlan::Run { .. }
                    <==> runs@[k] is Some),
            forall|k: int|
                0 <= k < i ==> (#[trigger] r@[k])@ == spec_outcome_of(
                    plans.deep_view()[k],
                    runs.deep_view()[k],
                ),
        decreases plans.len() - i,
    {
        let outcome = match &plans[i] {
            CommandPlan::Run { name, .. } => {
                match &runs[i] {
                    Some(report) => match command_outcome(name.as_str(), report) {
                        Ok(()) => CommandOutcome::Succeeded { name: name.clone() },
                        Err(e) => CommandOutcome::Failed { name: name.clone(), error: e },
                    },
                    None => CommandOutcome::Skipped { name: name.clone() },
                }
            },
            CommandPlan::Skip { name } => CommandOutcome::Skipped { name: name.clone() },
            CommandPlan::Fail { name, error } => CommandOutcome::Failed {
                name: name.clone(),
                error: error.clone(),
            },
        };
        r.push(outcome);
        assert(r@[i as int]@ == spec_outcome_of(
            plans.deep_view()[i as int],
            runs.deep_view()[i as int],
        ));
        i = i + 1;
    }
    r
}

/// Batch isolation: the outcome recorded in one slot is a function of that
/// slot's plan and run report alone, so changing any other slot — for
/// instance a command there failing — leaves this slot's outcome as it is.
pub proof fn lemma_batch_isolation(
    plans: Seq<CommandPlanView>,
    runs: Seq<Option<RunResultView>>,
    other_plans: Seq<CommandPlanView>,
    other_runs: Seq<Option<RunResultView>>,
    i: int,
)
    requires
        0 <= i < plans.len(),
        0 <= i < other_plans.len(),
        plans[i] == other_plans[i],
        runs[i] == other_runs[i],
    ensures
        spec_outcome_of(plans[i], runs[i]) == spec_outcome_of(other_plans[i], other_runs[i]),
{
}

} // verus!
