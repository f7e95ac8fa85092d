//! The scaffold of a new project: the files rendered from templates, the
//! directories created, the file removed and the dependencies installed.
use vstd::prelude::*;

use crate::generator::{Generator, GeneratorContext, GeneratorContextView};
use crate::paths::{join_path, remove_extension, spec_join, spec_remove_extension};
use crate::plan::{command_job, jobs_view, print_step, steps_view, strings_view, DependencySpec, Job, JobView, Step, StepView};
use crate::template::templates::{app_core, root, route, theme, MAKEFILE, PREDEFINED_FEATURES_DIR};
use crate::template::{tera_output, TemplateContext, TemplateEngine, TemplateError};
use crate::utils::{FSAction, FSActionView};

verus! {

/// The generator of a project's basic structure.
pub struct ProjectScaffolder;

/// One template of the scaffold: the template, the file under `lib` it is
/// rendered to, and a value handed to it besides the project's name.
#[derive(Clone, Copy)]
pub struct TemplateMapping {
    pub template: &'static str,
    pub output: &'static str,
    pub extra: Option<(&'static str, &'static str)>,
}

/// The value of a `TemplateMapping`.
pub open spec fn mapping_view(m: TemplateMapping) -> (Seq<char>, Seq<char>, Option<(Seq<char>, Seq<char>)>) {
    (
        m.template@,
        m.output@,
        match m.extra {
            Some((k, v)) => Some((k@, v@)),
            None => None,
        },
    )
}

/// The templates of the scaffold, in the order they are rendered.
pub open spec fn spec_template_mappings() -> Seq<(Seq<char>, Seq<char>, Option<(Seq<char>, Seq<char>)>)> {
    seq![
        (root::MAIN_COMMON@, "main_common.dart"@, None),
        (root::MAIN_DEVELOPMENT@, "main_development.dart"@, None),
        (root::MAIN_PRODUCTION@, "main_production.dart"@, None),
        (app_core::APP_TEXT@, "core/app/app_text.dart"@, None),
        (app_core::CONSTANTS@, "core/app/constants.dart"@, None),
        (app_core::DI@, "core/app/di.dart"@, None),
        (app_core::ENUM@, "core/app/enum.dart"@, None),
        (app_core::AUTH_NOTIFIER@, "core/auth/auth_notifier.dart"@, None),
        (app_core::FLAVOR@, "core/config/flavor.dart"@, None),
        (app_core::LOGGER@, "core/development/logger.dart"@, None),
        (route::NOT_FOUND@, "core/route/not_found_screen.dart"@, None),
        (route::CONFIG@, "core/route/route_config.dart"@, None),
        (route::GENERATOR@, "core/route/route_generator.dart"@, None),
        (route::NAVIGATION@, "core/route/route_navigation.dart"@, None),
        (theme::COLORS@, "core/theme/app_colors.dart"@, Some(("primary_hex"@, "#4287f5"@))),
        (theme::TEXT_STYLE@, "core/theme/app_text_style.dart"@, None),
        (theme::DIMENSION@, "core/theme/dimension.dart"@, None),
    ]
}

/// The templates of the scaffold, in the order they are rendered.
pub fn template_mappings() -> (table: Vec<TemplateMapping>)
    ensures
        table@.map_values(|m: TemplateMapping| mapping_view(m)) == spec_template_mappings(),
{
    let table = vec![
        TemplateMapping { template: root::MAIN_COMMON, output: "main_common.dart", extra: None },
        TemplateMapping { template: root::MAIN_DEVELOPMENT, output: "main_development.dart", extra: None },
        TemplateMapping { template: root::MAIN_PRODUCTION, output: "main_production.dart", extra: None },
        TemplateMapping { template: app_core::APP_TEXT, output: "core/app/app_text.dart", extra: None },
        TemplateMapping { template: app_core::CONSTANTS, output: "core/app/constants.dart", extra: None },
        TemplateMapping { template: app_core::DI, output: "core/app/di.dart", extra: None },
        TemplateMapping { template: app_core::ENUM, output: "core/app/enum.dart", extra: None },
        TemplateMapping { template: app_core::AUTH_NOTIFIER, output: "core/auth/auth_notifier.dart", extra: None },
        TemplateMapping { template: app_core::FLAVOR, output: "core/config/flavor.dart", extra: None },
        TemplateMapping { template: app_core::LOGGER, output: "core/development/logger.dart", extra: None },
        TemplateMapping { template: route::NOT_FOUND, output: "core/route/not_found_screen.dart", extra: None },
        TemplateMapping { template: route::CONFIG, output: "core/route/route_config.dart", extra: None },
        TemplateMapping { template: route::GENERATOR, output: "core/route/route_generator.dart", extra: None },
        TemplateMapping { template: route::NAVIGATION, output: "core/route/route_navigation.dart", extra: None },
        TemplateMapping {
            template: theme::COLORS,
            output: "core/theme/app_colors.dart",
            extra: Some(("primary_hex", "#4287f5")),
        },
        TemplateMapping { template: theme::TEXT_STYLE, output: "core/theme/app_text_style.dart", extra: None },
        TemplateMapping { template: theme::DIMENSION, output: "core/theme/dimension.dart", extra: None },
    ];
    assert(table@.map_values(|m: TemplateMapping| mapping_view(m)) =~= spec_template_mappings());
    table
}

/// The values every template gets: the project's name.
pub open spec fn project_context(name: Seq<char>) -> Map<Seq<char>, Seq<char>> {
    Map::<Seq<char>, Seq<char>>::empty().insert("project_name"@, name)
}

/// The values a template of the table gets.
pub open spec fn mapping_context(name: Seq<char>, extra: Option<(Seq<char>, Seq<char>)>) -> Map<
    Seq<char>,
    Seq<char>,
> {
    match extra {
        Some((k, v)) => project_context(name).insert(k, v),
        None => project_context(name),
    }
}

/// The directory the Dart sources go to.
pub open spec fn lib_dir(base: Seq<char>) -> Seq<char> {
    spec_join(base, "lib"@)
}

/// The step that renders a template of the table.
pub open spec fn template_step(
    name: Seq<char>,
    lib: Seq<char>,
    m: (Seq<char>, Seq<char>, Option<(Seq<char>, Seq<char>)>),
) -> StepView {
    StepView::RenderFile { template: m.0, context: mapping_context(name, m.2), output: m.1, base: lib }
}

/// The steps that render the templates of the table.
pub open spec fn template_steps(name: Seq<char>, lib: Seq<char>) -> Seq<StepView> {
    spec_template_mappings().map_values(
        |m: (Seq<char>, Seq<char>, Option<(Seq<char>, Seq<char>)>)| template_step(name, lib, m),
    )
}

/// The Makefile, the feature directories and the removal of the default
/// `main.dart`.
pub open spec fn structure_steps(name: Seq<char>, base: Seq<char>) -> Seq<StepView> {
    let lib = lib_dir(base);
    seq![
        StepView::RenderFile {
            template: MAKEFILE@,
            context: project_context(name),
            output: "Makefile"@,
            base: base,
        },
        StepView::Fs { action: FSActionView::CreateDir { path: "features"@ }, base: lib },
        StepView::Fs { action: FSActionView::CreateDir { path: "features/shared/model"@ }, base: lib },
        StepView::Fs { action: FSActionView::CreateDir { path: "features/shared/widgets"@ }, base: lib },
        StepView::Fs { action: FSActionView::RemoveFile { path: "main.dart"@ }, base: lib },
    ]
}

/// The name of a predefined feature template, from its relative path.
pub open spec fn predefined_template(rel: Seq<char>) -> Seq<char> {
    PREDEFINED_FEATURES_DIR@ + "/"@ + rel
}

/// The file a predefined feature template is rendered to, under `lib`.
pub open spec fn predefined_output(rel: Seq<char>) -> Seq<char> {
    "features/"@ + spec_remove_extension(rel)
}

/// The step that renders a predefined feature template.
pub open spec fn predefined_step(name: Seq<char>, lib: Seq<char>, rel: Seq<char>) -> StepView {
    StepView::RenderFile {
        template: predefined_template(rel),
        context: project_context(name),
        output: predefined_output(rel),
        base: lib,
    }
}

/// The steps that render the predefined feature templates.
pub open spec fn predefined_steps(name: Seq<char>, lib: Seq<char>, predefined: Seq<Seq<char>>) -> Seq<
    StepView,
> {
    predefined.map_values(|rel: Seq<char>| predefined_step(name, lib, rel))
}

/// The git package every project depends on.
pub open spec fn zren_url() -> Seq<char> {
    "https://github.com/Saugat913/zren.git"@
}

/// The jobs that install the project's dependencies.
pub open spec fn install_jobs(base: Seq<char>) -> Seq<JobView> {
    seq![
        JobView::RunCommand {
            program: "flutter"@,
            args: seq!["pub"@, "add"@, "go_router"@, "get_it"@],
            dir: base,
        },
        JobView::InjectDependency {
            pubspec_path: spec_join(base, "pubspec.yaml"@),
            package_name: "zren"@,
            git_url: zren_url(),
        },
        JobView::RunCommand { program: "flutter"@, args: seq!["pub"@, "get"@], dir: base },
    ]
}

/// The installation of the dependencies and the closing instructions.
pub open spec fn closing_steps(name: Seq<char>, base: Seq<char>) -> Seq<StepView> {
    seq![
        StepView::WithSpinner { message: "Installing dependendy"@, jobs: install_jobs(base) },
        StepView::Print("Installed dependency."@),
        StepView::Print("Now follow below steps:"@),
        StepView::Print("  cd "@ + name),
        StepView::Print("  make"@),
    ]
}

/// The whole scaffold of the project `context`, with the predefined feature
/// templates `predefined`.
pub open spec fn spec_scaffold_plan(context: GeneratorContextView, predefined: Seq<Seq<char>>) -> Seq<
    StepView,
> {
    let name = context.project_name;
    let base = context.base_path;
    template_steps(name, lib_dir(base)) + structure_steps(name, base) + predefined_steps(
        name,
        lib_dir(base),
        predefined,
    ) + closing_steps(name, base)
}

/// A template context holding the project's name.
fn project_template_context(name: &str) -> (context: TemplateContext)
    ensures
        context@ == project_context(name@),
{
    let mut context = TemplateContext::new();
    context.insert("project_name", name);
    context
}

fn template_file_steps(name: &str, lib: &str) -> (steps: Vec<Step>)
    ensures
        steps_view(steps@) == template_steps(name@, lib@),
{
    let table = template_mappings();
    let ghost spec_table = spec_template_mappings();
    let mut steps: Vec<Step> = Vec::new();
    let n: usize = table.len();
    assert(n == spec_table.len()) by {
        assert(table@.map_values(|m: TemplateMapping| mapping_view(m)).len() == table@.len());
    }
    for i in 0..n
        invariant
            n == table.len(),
            table@.map_values(|m: TemplateMapping| mapping_view(m)) == spec_table,
            spec_table == spec_template_mappings(),
            steps_view(steps@) == template_steps(name@, lib@).take(i as int),
    {
        let m = table[i];
        assert(mapping_view(m) == spec_table[i as int]);
        let mut context = project_template_context(name);
        match m.extra {
            Some((k, v)) => context.insert(k, v),
            None => {},
        }
        let step = Step::RenderFile {
            template: m.template.to_owned(),
            context,
            output: m.output.to_owned(),
            base: lib.to_owned(),
        };
        assert(step@ == template_step(name@, lib@, spec_table[i as int]));
        let ghost before = steps@;
        steps.push(step);
        assert(steps_view(steps@) =~= steps_view(before).push(step@));
        assert(template_steps(name@, lib@).take(i + 1) =~= template_steps(name@, lib@).take(
            i as int,
        ).push(step@));
    }
    assert(template_steps(name@, lib@).take(n as int) =~= template_steps(name@, lib@));
    steps
}

fn structure_file_steps(name: &str, base: &str, lib: &str) -> (steps: Vec<Step>)
    requires
        lib@ == lib_dir(base@),
    ensures
        steps_view(steps@) == structure_steps(name@, base@),
{
    let mut steps: Vec<Step> = Vec::new();
    steps.push(
        Step::RenderFile {
            template: MAKEFILE.to_owned(),
            context: project_template_context(name),
            output: "Makefile".to_owned(),
            base: base.to_owned(),
        },
    );
    steps.push(Step::Fs { action: FSAction::create_dir("features"), base: lib.to_owned() });
    steps.push(
        Step::Fs { action: FSAction::create_dir("features/shared/model"), base: lib.to_owned() },
    );
    steps.push(
        Step::Fs { action: FSAction::create_dir("features/shared/widgets"), base: lib.to_owned() },
    );
    steps.push(Step::Fs { action: FSAction::remove_file("main.dart"), base: lib.to_owned() });
    assert(steps_view(steps@) =~= structure_steps(name@, base@));
    steps
}

fn predefined_feature_steps(name: &str, lib: &str, predefined: &Vec<String>) -> (steps: Vec<Step>)
    ensures
        steps_view(steps@) == predefined_steps(name@, lib@, strings_view(predefined@)),
{
    let ghost rels = strings_view(predefined@);
    let mut steps: Vec<Step> = Vec::new();
    let n: usize = predefined.len();
    for i in 0..n
        invariant
            n == predefined.len(),
            rels == strings_view(predefined@),
            steps_view(steps@) == predefined_steps(name@, lib@, rels).take(i as int),
    {
        let rel = predefined[i].as_str();
        let template = PREDEFINED_FEATURES_DIR.to_owned().concat("/").concat(rel);
        let output = "features/".to_owned().concat(remove_extension(rel).as_str());
        let step = Step::RenderFile {
            template,
            context: project_template_context(name),
            output,
            base: lib.to_owned(),
        };
        assert(step@ == predefined_step(name@, lib@, rels[i as int]));
        let ghost before = steps@;
        steps.push(step);
        assert(steps_view(steps@) =~= steps_view(before).push(step@));
        assert(predefined_steps(name@, lib@, rels).take(i + 1) =~= predefined_steps(
            name@,
            lib@,
            rels,
        ).take(i as int).push(step@));
    }
    assert(predefined_steps(name@, lib@, rels).take(n as int) =~= predefined_steps(name@, lib@, rels));
    steps
}

fn closing_file_steps(name: &str, base: &str) -> (steps: Vec<Step>)
    ensures
        steps_view(steps@) == closing_steps(name@, base@),
{
    let mut add_args: Vec<String> = Vec::new();
    add_args.push("pub".to_owned());
    add_args.push("add".to_owned());
    add_args.push("go_router".to_owned());
    add_args.push("get_it".to_owned());
    let mut get_args: Vec<String> = Vec::new();
    get_args.push("pub".to_owned());
    get_args.push("get".to_owned());
    proof {
        assert(strings_view(add_args@) =~= seq!["pub"@, "add"@, "go_router"@, "get_it"@]);
        assert(strings_view(get_args@) =~= seq!["pub"@, "get"@]);
    }
    let mut jobs: Vec<Job> = Vec::new();
    jobs.push(command_job("flutter", add_args, base));
    jobs.push(
        Job::InjectDependency(
            DependencySpec {
                pubspec_path: join_path(base, "pubspec.yaml"),
                package_name: "zren".to_owned(),
                git_url: "https://github.com/Saugat913/zren.git".to_owned(),
            },
        ),
    );
    jobs.push(command_job("flutter", get_args, base));
    assert(jobs_view(jobs@) =~= install_jobs(base@));
    let mut steps: Vec<Step> = Vec::new();
    steps.push(Step::WithSpinner { message: "Installing dependendy".to_owned(), jobs });
    steps.push(print_step("Installed dependency."));
    steps.push(print_step("Now follow below steps:"));
    steps.push(Step::Print("  cd ".to_owned().concat(name)));
    steps.push(print_step("  make"));
    assert(steps_view(steps@) =~= closing_steps(name@, base@));
    steps
}

impl Generator for ProjectScaffolder {
    /// The scaffold: render the templates of the table into `lib`, render
    /// the Makefile into the project, create the feature directories, remove
    /// the default `main.dart`, render the predefined feature templates into
    /// `lib/features` without their last extension, then install the
    /// dependencies and print what to do next.
    fn run(&self, context: &GeneratorContext, predefined: &Vec<String>) -> (steps: Vec<Step>)
        ensures
            steps_view(steps@) == spec_scaffold_plan(context@, strings_view(predefined@)),
    {
        let name = context.project_name();
        let base = context.base_path();
        let lib = join_path(base, "lib");
        let mut steps = template_file_steps(name, lib.as_str());
        let ghost a = steps_view(steps@);
        let mut structure = structure_file_steps(name, base, lib.as_str());
        let ghost b = steps_view(structure@);
        steps.append(&mut structure);
        let mut features = predefined_feature_steps(name, lib.as_str(), predefined);
        let ghost c = steps_view(features@);
        let ghost ab = steps@;
        steps.append(&mut features);
        let mut closing = closing_file_steps(name, base);
        let ghost d = steps_view(closing@);
        let ghost abc = steps@;
        steps.append(&mut closing);
        proof {
            assert(steps_view(ab) =~= a + b);
            assert(steps_view(abc) =~= a + b + c);
            assert(steps_view(steps@) =~= a + b + c + d);
        }
        steps
    }
}

/// The file a rendered template becomes: on success, the action that creates
/// `output`, relative to `base`, holding the rendered text.
pub fn file_from_render(output: &str, base: &str, rendered: Result<String, TemplateError>) -> (file:
    Result<FSAction, TemplateError>)
    ensures
        match rendered {
            Ok(text) => file matches Ok(a) && a@ == (FSActionView::CreateFile {
                path: spec_join(base@, output@),
                content: Some(text@),
            }),
            Err(e) => file == Err::<FSAction, TemplateError>(e),
        },
{
    match rendered {
        Ok(text) => Ok(FSAction::create_file(output, Some(text.as_str())).resolve(base)),
        Err(e) => Err(e),
    }
}

/// Renders `template` with `context` and gives the action that creates
/// `output`, relative to `base`, holding tera's rendering of that template
/// with exactly those values. It succeeds exactly when tera renders it; an
/// error names the template.
pub fn render_file(
    engine: &TemplateEngine,
    template: &str,
    context: &TemplateContext,
    output: &str,
    base: &str,
) -> (file: Result<FSAction, TemplateError>)
    ensures
        match file {
            Ok(a) => tera_output(engine@, template@, context@) matches Some(text) && a@ == (
                FSActionView::CreateFile { path: spec_join(base@, output@), content: Some(text) }),
            Err(e) => {
                &&& tera_output(engine@, template@, context@) is None
                &&& e matches TemplateError::Render { template: t, .. } && t@ == template@
            },
        },
        !engine@.contains_key(template@) ==> file is Err,
{
    let rendered = engine.render(template, context);
    file_from_render(output, base, rendered)
}

/// What a scaffold renders and where: every template is rendered with the
/// project's name, and every file and directory it makes, except the
/// Makefile at the project's root, lies in the project's `lib` directory.
pub proof fn lemma_scaffold_layout(context: GeneratorContextView, predefined: Seq<Seq<char>>)
    ensures
        spec_scaffold_plan(context, predefined).len() == 27 + predefined.len(),
        forall|i: int|
            0 <= i < spec_scaffold_plan(context, predefined).len() ==> match #[trigger] spec_scaffold_plan(
                context,
                predefined,
            )[i] {
                StepView::RenderFile { context: values, base, .. } => {
                    &&& values.contains_key("project_name"@)
                    &&& values["project_name"@] == context.project_name
                    &&& (i == 17 <==> base == context.base_path)
                    &&& i != 17 ==> base == lib_dir(context.base_path)
                },
                StepView::Fs { base, .. } => base == lib_dir(context.base_path),
                _ => true,
            },
{
    reveal_strlit("project_name");
    reveal_strlit("primary_hex");
    reveal_strlit("lib");
    let name = context.project_name;
    let base = context.base_path;
    let lib = lib_dir(base);
    let plan = spec_scaffold_plan(context, predefined);
    let t = template_steps(name, lib);
    let st = structure_steps(name, base);
    let p = predefined_steps(name, lib, predefined);
    let c = closing_steps(name, base);
    assert(lib != base) by {
        if base.len() > 0 && base.last() != '/' {
            assert(lib.len() == base.len() + 4);
        } else {
            assert(lib.len() == base.len() + 3);
        }
    }
    assert forall|i: int| 0 <= i < plan.len() implies match #[trigger] plan[i] {
        StepView::RenderFile { context: values, base: b, .. } => {
            &&& values.contains_key("project_name"@)
            &&& values["project_name"@] == name
            &&& (i == 17 <==> b == base)
            &&& i != 17 ==> b == lib
        },
        StepView::Fs { base: b, .. } => b == lib,
        _ => true,
    } by {
        if i < 17 {
            assert(plan[i] == t[i]);
            reveal_strlit("project_name");
            reveal_strlit("primary_hex");
            assert("primary_hex"@.len() != "project_name"@.len());
        } else if i < 22 {
            assert(plan[i] == st[i - 17]);
        } else if i < 22 + predefined.len() {
            assert(plan[i] == p[i - 22]);
        } else {
            assert(plan[i] == c[i - 22 - predefined.len()]);
        }
    }
}

/// The files a scaffold renders from its table and the directories it
/// makes, by name: step `i < 17` renders the template named after its output
/// file (the output with `.tera` appended, under `root/` for the three entry
/// points) into `lib`, the outputs being the original's seventeen Dart files
/// in order; steps 18 to 20 create `features`, `features/shared/model` and
/// `features/shared/widgets` in `lib`, and step 21 removes `lib/main.dart`.
pub proof fn lemma_scaffold_files(context: GeneratorContextView, predefined: Seq<Seq<char>>)
    ensures
        ({
            let plan = spec_scaffold_plan(context, predefined);
            let lib = spec_join(context.base_path, "lib"@);
            let outputs = seq![
                "main_common.dart"@,
                "main_development.dart"@,
                "main_production.dart"@,
                "core/app/app_text.dart"@,
                "core/app/constants.dart"@,
                "core/app/di.dart"@,
                "core/app/enum.dart"@,
                "core/auth/auth_notifier.dart"@,
                "core/config/flavor.dart"@,
                "core/development/logger.dart"@,
                "core/route/not_found_screen.dart"@,
                "core/route/route_config.dart"@,
                "core/route/route_generator.dart"@,
                "core/route/route_navigation.dart"@,
                "core/theme/app_colors.dart"@,
                "core/theme/app_text_style.dart"@,
                "core/theme/dimension.dart"@,
            ];
            &&& forall|i: int|
                0 <= i < 17 ==> (#[trigger] plan[i] matches StepView::RenderFile {
                    template,
                    output,
                    base,
                    ..
                } && output == outputs[i] && base == lib && (if i < 3 {
                    template == "root/"@ + output + ".tera"@
                } else {
                    template == output + ".tera"@
                }))
            &&& plan[18] == StepView::Fs {
                action: FSActionView::CreateDir { path: "features"@ },
                base: lib,
            }
            &&& plan[19] == StepView::Fs {
                action: FSActionView::CreateDir { path: "features/shared/model"@ },
                base: lib,
            }
            &&& plan[20] == StepView::Fs {
                action: FSActionView::CreateDir { path: "features/shared/widgets"@ },
                base: lib,
            }
            &&& plan[21] == StepView::Fs {
                action: FSActionView::RemoveFile { path: "main.dart"@ },
                base: lib,
            }
        }),
{
    let name = context.project_name;
    let base = context.base_path;
    let lib = lib_dir(base);
    let plan = spec_scaffold_plan(context, predefined);
    let t = template_steps(name, lib);
    let st = structure_steps(name, base);
    reveal_strlit("root/");
    reveal_strlit(".tera");
    reveal_strlit("main_common.dart");
    reveal_strlit("main_development.dart");
    reveal_strlit("main_production.dart");
    reveal_strlit("core/app/app_text.dart");
    reveal_strlit("core/app/constants.dart");
    reveal_strlit("core/app/di.dart");
    reveal_strlit("core/app/enum.dart");
    reveal_strlit("core/auth/auth_notifier.dart");
    reveal_strlit("core/config/flavor.dart");
    reveal_strlit("core/development/logger.dart");
    reveal_strlit("core/route/not_found_screen.dart");
    reveal_strlit("core/route/route_config.dart");
    reveal_strlit("core/route/route_generator.dart");
    reveal_strlit("core/route/route_navigation.dart");
    reveal_strlit("core/theme/app_colors.dart");
    reveal_strlit("core/theme/app_text_style.dart");
    reveal_strlit("core/theme/dimension.dart");
    reveal_strlit("root/main_common.dart.tera");
    reveal_strlit("root/main_development.dart.tera");
    reveal_strlit("root/main_production.dart.tera");
    reveal_strlit("core/app/app_text.dart.tera");
    reveal_strlit("core/app/constants.dart.tera");
    reveal_strlit("core/app/di.dart.tera");
    reveal_strlit("core/app/enum.dart.tera");
    reveal_strlit("core/auth/auth_notifier.dart.tera");
    reveal_strlit("core/config/flavor.dart.tera");
    reveal_strlit("core/development/logger.dart.tera");
    reveal_strlit("core/route/not_found_screen.dart.tera");
    reveal_strlit("core/route/route_config.dart.tera");
    reveal_strlit("core/route/route_generator.dart.tera");
    reveal_strlit("core/route/route_navigation.dart.tera");
    reveal_strlit("core/theme/app_colors.dart.tera");
    reveal_strlit("core/theme/app_text_style.dart.tera");
    reveal_strlit("core/theme/dimension.dart.tera");
    assert(plan[18] == st[1]);
    assert(plan[19] == st[2]);
    assert(plan[20] == st[3]);
    assert(plan[21] == st[4]);
    let table = spec_template_mappings();
    assert(table[0].0 =~= "root/"@ + table[0].1 + ".tera"@);
    assert(table[1].0 =~= "root/"@ + table[1].1 + ".tera"@);
    assert(table[2].0 =~= "root/"@ + table[2].1 + ".tera"@);
    assert(table[3].0 =~= table[3].1 + ".tera"@);
    assert(table[4].0 =~= table[4].1 + ".tera"@);
    assert(table[5].0 =~= table[5].1 + ".tera"@);
    assert(table[6].0 =~= table[6].1 + ".tera"@);
    assert(table[7].0 =~= table[7].1 + ".tera"@);
    assert(table[8].0 =~= table[8].1 + ".tera"@);
    assert(table[9].0 =~= table[9].1 + ".tera"@);
    assert(table[10].0 =~= table[10].1 + ".tera"@);
    assert(table[11].0 =~= table[11].1 + ".tera"@);
    assert(table[12].0 =~= table[12].1 + ".tera"@);
    assert(table[13].0 =~= table[13].1 + ".tera"@);
    assert(table[14].0 =~= table[14].1 + ".tera"@);
    assert(table[15].0 =~= table[15].1 + ".tera"@);
    assert(table[16].0 =~= table[16].1 + ".tera"@);
    assert forall|i: int| 0 <= i < 17 implies (#[trigger] plan[i] matches StepView::RenderFile {
        template,
        output,
        base,
        ..
    } && output == seq![
        "main_common.dart"@,
        "main_development.dart"@,
        "main_production.dart"@,
        "core/app/app_text.dart"@,
        "core/app/constants.dart"@,
        "core/app/di.dart"@,
        "core/app/enum.dart"@,
        "core/auth/auth_notifier.dart"@,
        "core/config/flavor.dart"@,
        "core/development/logger.dart"@,
        "core/route/not_found_screen.dart"@,
        "core/route/route_config.dart"@,
        "core/route/route_generator.dart"@,
        "core/route/route_navigation.dart"@,
        "core/theme/app_colors.dart"@,
        "core/theme/app_text_style.dart"@,
        "core/theme/dimension.dart"@,
    ][i] && base == lib && (if i < 3 {
        template == "root/"@ + output + ".tera"@
    } else {
        template == output + ".tera"@
    })) by {
        assert(plan[i] == t[i]);
    }
}

} // verus!
