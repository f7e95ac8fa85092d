//! The steps a run of the tool consists of. The library decides the steps;
//! the program performs them in order and stops at the first that fails.
use vstd::prelude::*;

use crate::generator::{GeneratorContext, GeneratorContextView};
use crate::template::TemplateContext;
use crate::utils::{ExecuterConfig, FSAction, FSActionView};

verus! {

/// The characters of each string, in order.
pub open spec fn strings_view(v: Seq<String>) -> Seq<Seq<char>> {
    v.map_values(|s: String| s@)
}

/// A command to run: the program, its arguments and where it runs.
pub struct CommandSpec {
    pub program: String,
    pub args: Vec<String>,
    pub config: ExecuterConfig,
}

/// A git dependency to declare in the `pubspec.yaml` at `pubspec_path`.
pub struct DependencySpec {
    pub pubspec_path: String,
    pub package_name: String,
    pub git_url: String,
}

/// Work done while a spinner shows.
pub enum Job {
    RunCommand(CommandSpec),
    InjectDependency(DependencySpec),
    Scaffold(GeneratorContext),
}

/// One step of a run.
pub enum Step {
    /// Show `message` with a spinner while the jobs run, one after another.
    WithSpinner { message: String, jobs: Vec<Job> },
    /// Render `template` with `context` and create the file `output`,
    /// relative to `base`, holding the text.
    RenderFile { template: String, context: TemplateContext, output: String, base: String },
    /// Perform `action` with its path relative to `base`.
    Fs { action: FSAction, base: String },
    /// Print `line` on standard output.
    Print(String),
}

/// The value of a `Job`.
pub enum JobView {
    RunCommand { program: Seq<char>, args: Seq<Seq<char>>, dir: Seq<char> },
    InjectDependency { pubspec_path: Seq<char>, package_name: Seq<char>, git_url: Seq<char> },
    Scaffold(GeneratorContextView),
}

/// The value of a `Step`.
pub enum StepView {
    WithSpinner { message: Seq<char>, jobs: Seq<JobView> },
    RenderFile {
        template: Seq<char>,
        context: Map<Seq<char>, Seq<char>>,
        output: Seq<char>,
        base: Seq<char>,
    },
    Fs { action: FSActionView, base: Seq<char> },
    Print(Seq<char>),
}

impl View for Job {
    type V = JobView;

    open spec fn view(&self) -> JobView {
        match self {
            Job::RunCommand(c) => JobView::RunCommand {
                program: c.program@,
                args: strings_view(c.args@),
                dir: c.config.base_path@,
            },
            Job::InjectDependency(d) => JobView::InjectDependency {
                pubspec_path: d.pubspec_path@,
                package_name: d.package_name@,
                git_url: d.git_url@,
            },
            Job::Scaffold(g) => JobView::Scaffold(g@),
        }
    }
}

/// The values of a sequence of jobs.
pub open spec fn jobs_view(jobs: Seq<Job>) -> Seq<JobView> {
    jobs.map_values(|j: Job| j@)
}

impl View for Step {
    type V = StepView;

    open spec fn view(&self) -> StepView {
        match self {
            Step::WithSpinner { message, jobs } => StepView::WithSpinner {
                message: message@,
                jobs: jobs_view(jobs@),
            },
            Step::RenderFile { template, context, output, base } => StepView::RenderFile {
                template: template@,
                context: context@,
                output: output@,
                base: base@,
            },
            Step::Fs { action, base } => StepView::Fs { action: action@, base: base@ },
            Step::Print(line) => StepView::Print(line@),
        }
    }
}

/// The values of a sequence of steps.
pub open spec fn steps_view(steps: Seq<Step>) -> Seq<StepView> {
    steps.map_values(|s: Step| s@)
}

/// A command job that runs `program` with `args` in `dir`.
pub fn command_job(program: &str, args: Vec<String>, dir: &str) -> (job: Job)
    ensures
        job@ == (JobView::RunCommand {
            program: program@,
            args: strings_view(args@),
            dir: dir@,
        }),
{
    Job::RunCommand(
        CommandSpec {
            program: program.to_owned(),
            args,
            config: ExecuterConfig::new(dir.to_owned()),
        },
    )
}

/// A step that prints `line`.
pub fn print_step(line: &str) -> (step: Step)
    ensures
        step@ == StepView::Print(line@),
{
    Step::Print(line.to_owned())
}

/// Where a run of a list of steps stands: the step to perform next, or
/// the end, after the last step or after a failed one.
#[derive(Debug, Clone, Copy, PartialEq, Eq, Structural)]
pub enum RunState {
    Perform(usize),
    Finished,
    Stopped,
}

/// The state a run of `total` steps starts in: the first step, or the end
/// when there is none.
pub fn start_run(total: usize) -> (state: RunState)
    ensures
        state == (if total == 0 {
            RunState::Finished
        } else {
            RunState::Perform(0)
        }),
{
    if total == 0 {
        RunState::Finished
    } else {
        RunState::Perform(0)
    }
}

/// What follows step `done` of `total` steps: the run stops when the step
/// failed, ends after the last step, and otherwise goes on with the next.
pub fn after_step(total: usize, done: usize, succeeded: bool) -> (state: RunState)
    requires
        done < total,
    ensures
        state == (if !succeeded {
            RunState::Stopped
        } else if done + 1 == total {
            RunState::Finished
        } else {
            RunState::Perform((done + 1) as usize)
        }),
{
    if !succeeded {
        RunState::Stopped
    } else if done + 1 == total {
        RunState::Finished
    } else {
        RunState::Perform(done + 1)
    }
}

/// The state a run of `total` steps reaches when the steps performed so
/// far had the outcomes `outcomes`, in order.
pub open spec fn run_state(total: nat, outcomes: Seq<bool>) -> RunState
    decreases outcomes.len(),
{
    if outcomes.len() == 0 {
        if total == 0 {
            RunState::Finished
        } else {
            RunState::Perform(0)
        }
    } else {
        match run_state(total, outcomes.drop_last()) {
            RunState::Perform(i) => if !outcomes.last() {
                RunState::Stopped
            } else if i + 1 == total {
                RunState::Finished
            } else {
                RunState::Perform((i + 1) as usize)
            },
            other => other,
        }
    }
}

/// A run performs its steps in order, one at a time, and stops at the
/// first that fails: while every step performed so far succeeded and steps
/// remain, the next step performed is the one after them; once a step has
/// failed, the run has stopped.
pub proof fn lemma_run_in_order(total: nat, outcomes: Seq<bool>)
    requires
        outcomes.len() <= total,
        total <= usize::MAX,
    ensures
        (forall|j: int| 0 <= j < outcomes.len() ==> #[trigger] outcomes[j]) ==> run_state(
            total,
            outcomes,
        ) == if outcomes.len() == total {
            RunState::Finished
        } else {
            RunState::Perform(outcomes.len() as usize)
        },
        (exists|j: int| 0 <= j < outcomes.len() && !#[trigger] outcomes[j]) ==> run_state(
            total,
            outcomes,
        ) == RunState::Stopped,
    decreases outcomes.len(),
{
    if outcomes.len() > 0 {
        let prefix = outcomes.drop_last();
        lemma_run_in_order(total, prefix);
        if forall|j: int| 0 <= j < outcomes.len() ==> #[trigger] outcomes[j] {
            assert forall|j: int| 0 <= j < prefix.len() implies #[trigger] prefix[j] by {
                assert(prefix[j] == outcomes[j]);
            }
        }
        if exists|j: int| 0 <= j < outcomes.len() && !#[trigger] outcomes[j] {
            let j = choose|j: int| 0 <= j < outcomes.len() && !#[trigger] outcomes[j];
            if j < prefix.len() {
                assert(!prefix[j]);
            } else {
                if !(exists|k: int| 0 <= k < prefix.len() && !#[trigger] prefix[k]) {
                    assert forall|k: int| 0 <= k < prefix.len() implies #[trigger] prefix[k] by {}
                }
            }
        }
    }
}

/// `start_run` and `after_step` follow `run_state`: a run that starts with
/// `start_run` and moves on with `after_step` after each step performed is
/// in the state `run_state` gives for the outcomes so far.
pub proof fn lemma_steps_follow_run_state(total: nat, outcomes: Seq<bool>, succeeded: bool)
    ensures
        run_state(total, seq![]) == (if total == 0 {
            RunState::Finished
        } else {
            RunState::Perform(0)
        }),
        run_state(total, outcomes) matches RunState::Perform(i) ==> run_state(
            total,
            outcomes.push(succeeded),
        ) == (if !succeeded {
            RunState::Stopped
        } else if i + 1 == total {
            RunState::Finished
        } else {
            RunState::Perform((i + 1) as usize)
        }),
{
    assert(outcomes.push(succeeded).drop_last() =~= outcomes);
}

} // verus!
