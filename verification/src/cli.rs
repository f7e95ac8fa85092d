//! The command line: `create` scaffolds a new project, `generate` is not
//! offered yet.
use vstd::prelude::*;

use crate::generator::{GeneratorContext, GeneratorContextView};
use crate::paths::{join_path, spec_join};
use crate::plan::{command_job, jobs_view, print_step, steps_view, strings_view, Job, JobView, Step, StepView};

verus! {

/// The arguments of `create`: the name of the project.
pub struct CreateCommand {
    pub project_name: String,
}

/// A subcommand of the tool.
pub enum CliCommand {
    /// Create a new scaffolded project.
    Create(CreateCommand),
    /// Generate features.
    Generate,
}

/// The value of a `CliCommand`.
pub enum CliCommandView {
    Create { project_name: Seq<char> },
    Generate,
}

impl View for CliCommand {
    type V = CliCommandView;

    open spec fn view(&self) -> CliCommandView {
        match self {
            CliCommand::Create(c) => CliCommandView::Create { project_name: c.project_name@ },
            CliCommand::Generate => CliCommandView::Generate,
        }
    }
}

/// Flus: scaffolding of a Flutter project's basic structure and features.
pub struct Cli {
    commands: CliCommand,
}

impl View for Cli {
    type V = CliCommandView;

    closed spec fn view(&self) -> CliCommandView {
        self.commands@
    }
}

/// The notice that `generate` prints.
pub open spec fn generate_notice() -> Seq<char> {
    "Notice: For now generating the features is not supported and is working on it"@
}

/// The steps of `create project_name`, run from the directory `cwd`: create
/// the Flutter project there, then scaffold it in its own directory.
pub open spec fn create_steps(project_name: Seq<char>, cwd: Seq<char>) -> Seq<StepView> {
    seq![
        StepView::WithSpinner {
            message: "Creating flutter project"@,
            jobs: seq![
                JobView::RunCommand {
                    program: "flutter"@,
                    args: seq!["create"@, project_name],
                    dir: cwd,
                },
            ],
        },
        StepView::Print("Project created successfully"@),
        StepView::WithSpinner {
            message: "Creating basic folder structure"@,
            jobs: seq![
                JobView::Scaffold(
                    GeneratorContextView {
                        project_name: project_name,
                        base_path: spec_join(cwd, project_name),
                    },
                ),
            ],
        },
        StepView::Print("Created basic folder structure"@),
    ]
}

/// The steps of a run of the command `command` from the directory `cwd`.
pub open spec fn spec_cli_plan(command: CliCommandView, cwd: Seq<char>) -> Seq<StepView> {
    match command {
        CliCommandView::Create { project_name } => create_steps(project_name, cwd),
        CliCommandView::Generate => seq![StepView::Print(generate_notice())],
    }
}

impl Cli {
    /// The command line that runs `commands`.
    pub fn new(commands: CliCommand) -> (cli: Self)
        ensures
            cli@ == commands@,
    {
        Cli { commands }
    }

    /// The steps of running the tool from the directory `cwd`.
    pub fn run(self, cwd: &str) -> (steps: Vec<Step>)
        ensures
            steps_view(steps@) == spec_cli_plan(self@, cwd@),
    {
        match self.commands {
            CliCommand::Create(command) => handle_create_command(command, cwd),
            CliCommand::Generate => handle_generate_command(),
        }
    }
}

fn handle_create_command(command: CreateCommand, cwd: &str) -> (steps: Vec<Step>)
    ensures
        steps_view(steps@) == create_steps(command.project_name@, cwd@),
{
    let name = command.project_name;
    let mut create_args: Vec<String> = Vec::new();
    create_args.push("create".to_owned());
    create_args.push(name.clone());
    assert(strings_view(create_args@) =~= seq!["create"@, name@]);
    let mut create_jobs: Vec<Job> = Vec::new();
    create_jobs.push(command_job("flutter", create_args, cwd));
    assert(jobs_view(create_jobs@) =~= seq![
        JobView::RunCommand { program: "flutter"@, args: seq!["create"@, name@], dir: cwd@ },
    ]);
    let base = join_path(cwd, name.as_str());
    let context = GeneratorContext::new(name, base);
    let mut scaffold_jobs: Vec<Job> = Vec::new();
    scaffold_jobs.push(Job::Scaffold(context));
    assert(jobs_view(scaffold_jobs@) =~= seq![JobView::Scaffold(context@)]);
    let mut steps: Vec<Step> = Vec::new();
    steps.push(
        Step::WithSpinner { message: "Creating flutter project".to_owned(), jobs: create_jobs },
    );
    steps.push(print_step("Project created successfully"));
    steps.push(
        Step::WithSpinner {
            message: "Creating basic folder structure".to_owned(),
            jobs: scaffold_jobs,
        },
    );
    steps.push(print_step("Created basic folder structure"));
    assert(steps_view(steps@) =~= create_steps(command.project_name@, cwd@));
    steps
}

fn handle_generate_command() -> (steps: Vec<Step>)
    ensures
        steps_view(steps@) == seq![StepView::Print(generate_notice())],
{
    let mut steps: Vec<Step> = Vec::new();
    steps.push(
        print_step("Notice: For now generating the features is not supported and is working on it"),
    );
    assert(steps_view(steps@) =~= seq![StepView::Print(generate_notice())]);
    steps
}

/// `create` scaffolds the project that it has Flutter create: the scaffold
/// works on the project of the same name, in the directory where
/// `flutter create <name>` puts it (the directory the command runs in,
/// joined with the name), and only after that command has run.
pub proof fn lemma_create_scaffolds_created_project(project_name: Seq<char>, cwd: Seq<char>)
    ensures
        ({
            let steps = spec_cli_plan(CliCommandView::Create { project_name }, cwd);
            &&& steps[0] matches StepView::WithSpinner { jobs: created, .. }
            &&& created[0] matches JobView::RunCommand { program, args, dir }
            &&& steps[2] matches StepView::WithSpinner { jobs: scaffolded, .. }
            &&& scaffolded[0] matches JobView::Scaffold(context)
            &&& program == "flutter"@
            &&& args.last() == context.project_name
            &&& context.base_path == spec_join(dir, args.last())
        }),
{
}

} // verus!
