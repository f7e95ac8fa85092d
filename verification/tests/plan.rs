use flus::cli::{Cli, CliCommand, CreateCommand};
use flus::generator::project::{file_from_render, render_file, template_mappings};
use flus::generator::{Generator, GeneratorContext, ProjectScaffolder};
use flus::plan::{after_step, start_run, Job, RunState, Step};
use flus::template::{TemplateContext, TemplateEngine, TemplateError};
use flus::utils::FSAction;

fn context() -> GeneratorContext {
    GeneratorContext::new("demo".to_string(), "/work/demo".to_string())
}

/// An engine in which every template renders the values it is given.
fn echo_engine(names: &[String]) -> TemplateEngine {
    let templates: Vec<(String, String)> = names
        .iter()
        .map(|n| {
            let text = if n == "core/theme/app_colors.dart.tera" {
                "{{ project_name }}:{{ primary_hex }}"
            } else {
                "{{ project_name }}"
            };
            (n.clone(), text.to_string())
        })
        .collect();
    TemplateEngine::new(&templates).ok().unwrap()
}

#[test]
fn generator_context_holds_name_and_path() {
    let c = context();
    assert_eq!(c.project_name(), "demo");
    assert_eq!(c.base_path(), "/work/demo");
}

#[test]
fn table_has_every_template() {
    let table = template_mappings();
    assert_eq!(table.len(), 17);
    assert_eq!(table[0].template, "root/main_common.dart.tera");
    assert_eq!(table[0].output, "main_common.dart");
    assert_eq!(table[14].template, "core/theme/app_colors.dart.tera");
    assert_eq!(table[14].extra, Some(("primary_hex", "#4287f5")));
    assert_eq!(table.iter().filter(|m| m.extra.is_some()).count(), 1);
}

#[test]
fn scaffold_layout() {
    let predefined = vec!["auth/login.dart.tera".to_string(), "home.dart.tera".to_string()];
    let steps = ProjectScaffolder.run(&context(), &predefined);
    assert_eq!(steps.len(), 27 + 2);
    match &steps[0] {
        Step::RenderFile { template, output, base, .. } => {
            assert_eq!(template, "root/main_common.dart.tera");
            assert_eq!(output, "main_common.dart");
            assert_eq!(base, "/work/demo/lib");
        }
        _ => panic!("expected a render"),
    }
    match &steps[17] {
        Step::RenderFile { template, output, base, .. } => {
            assert_eq!(template, "Makefile.tera");
            assert_eq!(output, "Makefile");
            assert_eq!(base, "/work/demo");
        }
        _ => panic!("expected the Makefile"),
    }
    match &steps[18] {
        Step::Fs { action: FSAction::CreateDir { path }, base } => {
            assert_eq!(path, "features");
            assert_eq!(base, "/work/demo/lib");
        }
        _ => panic!("expected a directory"),
    }
    match &steps[21] {
        Step::Fs { action: FSAction::RemoveFile { path }, .. } => assert_eq!(path, "main.dart"),
        _ => panic!("expected the removal"),
    }
    match &steps[22] {
        Step::RenderFile { template, output, base, .. } => {
            assert_eq!(template, "features/predefined/auth/login.dart.tera");
            assert_eq!(output, "features/auth/login.dart");
            assert_eq!(base, "/work/demo/lib");
        }
        _ => panic!("expected a predefined feature"),
    }
    match &steps[24] {
        Step::WithSpinner { message, jobs } => {
            assert_eq!(message, "Installing dependendy");
            assert_eq!(jobs.len(), 3);
            match &jobs[0] {
                Job::RunCommand(c) => {
                    assert_eq!(c.program, "flutter");
                    assert_eq!(c.args, vec!["pub", "add", "go_router", "get_it"]);
                    assert_eq!(c.config.base_path, "/work/demo");
                }
                _ => panic!("expected a command"),
            }
            match &jobs[1] {
                Job::InjectDependency(d) => {
                    assert_eq!(d.pubspec_path, "/work/demo/pubspec.yaml");
                    assert_eq!(d.package_name, "zren");
                    assert_eq!(d.git_url, "https://github.com/Saugat913/zren.git");
                }
                _ => panic!("expected the dependency"),
            }
            match &jobs[2] {
                Job::RunCommand(c) => assert_eq!(c.args, vec!["pub", "get"]),
                _ => panic!("expected a command"),
            }
        }
        _ => panic!("expected the installation"),
    }
    let lines: Vec<&str> = steps[25..]
        .iter()
        .map(|s| match s {
            Step::Print(l) => l.as_str(),
            _ => panic!("expected a line"),
        })
        .collect();
    assert_eq!(lines, vec!["Installed dependency.", "Now follow below steps:", "  cd demo", "  make"]);
}

#[test]
fn every_template_gets_project_name() {
    let predefined = vec!["x.dart.tera".to_string()];
    let steps = ProjectScaffolder.run(&context(), &predefined);
    let names: Vec<String> = steps
        .iter()
        .filter_map(|s| match s {
            Step::RenderFile { template, .. } => Some(template.clone()),
            _ => None,
        })
        .collect();
    let engine = echo_engine(&names);
    for s in &steps {
        if let Step::RenderFile { template, context, .. } = s {
            let text = engine.render(template, context).ok().unwrap();
            if template == "core/theme/app_colors.dart.tera" {
                assert_eq!(text, "demo:#4287f5");
            } else {
                assert_eq!(text, "demo");
            }
        }
    }
}

#[test]
fn render_file_creates_output_under_base() {
    let engine = echo_engine(&["t".to_string()]);
    let mut context = TemplateContext::new();
    context.insert("project_name", "demo");
    match render_file(&engine, "t", &context, "core/a.dart", "/p/lib") {
        Ok(FSAction::CreateFile { path, content }) => {
            assert_eq!(path, "/p/lib/core/a.dart");
            assert_eq!(content.as_deref(), Some("demo"));
        }
        _ => panic!("expected a file"),
    }
    match render_file(&engine, "missing", &context, "a", "b") {
        Err(TemplateError::Render { template, .. }) => assert_eq!(template, "missing"),
        _ => panic!("expected an error"),
    }
}

#[test]
fn file_from_render_passes_error() {
    let err = TemplateError::Load { error: tera::Error::msg("m") };
    match file_from_render("a", "b", Err(err)) {
        Err(TemplateError::Load { error }) => assert_eq!(error.to_string(), "m"),
        _ => panic!("expected the error"),
    }
    match file_from_render("a", "b", Ok("text".to_string())) {
        Ok(FSAction::CreateFile { path, content }) => {
            assert_eq!(path, "b/a");
            assert_eq!(content.as_deref(), Some("text"));
        }
        _ => panic!("expected a file"),
    }
}

#[test]
fn create_runs_flutter_then_scaffolds() {
    let cli = Cli::new(CliCommand::Create(CreateCommand { project_name: "app".to_string() }));
    let steps = cli.run("/home/u");
    assert_eq!(steps.len(), 4);
    match &steps[0] {
        Step::WithSpinner { message, jobs } => {
            assert_eq!(message, "Creating flutter project");
            match &jobs[0] {
                Job::RunCommand(c) => {
                    assert_eq!(c.program, "flutter");
                    assert_eq!(c.args, vec!["create", "app"]);
                    assert_eq!(c.config.base_path, "/home/u");
                }
                _ => panic!("expected a command"),
            }
        }
        _ => panic!("expected a spinner"),
    }
    match &steps[1] {
        Step::Print(l) => assert_eq!(l, "Project created successfully"),
        _ => panic!("expected a line"),
    }
    match &steps[2] {
        Step::WithSpinner { message, jobs } => {
            assert_eq!(message, "Creating basic folder structure");
            match &jobs[0] {
                Job::Scaffold(c) => {
                    assert_eq!(c.project_name(), "app");
                    assert_eq!(c.base_path(), "/home/u/app");
                }
                _ => panic!("expected the scaffold"),
            }
        }
        _ => panic!("expected a spinner"),
    }
    match &steps[3] {
        Step::Print(l) => assert_eq!(l, "Created basic folder structure"),
        _ => panic!("expected a line"),
    }
}

#[test]
fn generate_prints_notice() {
    let steps = Cli::new(CliCommand::Generate).run("/x");
    assert_eq!(steps.len(), 1);
    match &steps[0] {
        Step::Print(l) => assert_eq!(
            l,
            "Notice: For now generating the features is not supported and is working on it"
        ),
        _ => panic!("expected a line"),
    }
}

#[test]
fn run_states_stop_at_first_failure() {
    assert_eq!(start_run(0), RunState::Finished);
    assert_eq!(start_run(3), RunState::Perform(0));
    assert_eq!(after_step(3, 0, true), RunState::Perform(1));
    assert_eq!(after_step(3, 1, false), RunState::Stopped);
    assert_eq!(after_step(3, 2, true), RunState::Finished);
}
