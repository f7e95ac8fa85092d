use flus::template::simple::is_simple_template;
use flus::template::{TemplateContext, TemplateEngine, TemplateError};

fn engine(templates: &[(&str, &str)]) -> TemplateEngine {
    let owned: Vec<(String, String)> =
        templates.iter().map(|(n, t)| (n.to_string(), t.to_string())).collect();
    match TemplateEngine::new(&owned) {
        Ok(e) => e,
        Err(e) => panic!("load failed: {:?}", e),
    }
}

#[test]
fn render_uses_context_values() {
    let engine = engine(&[("hello.tera", "Hello {{ project_name }}!")]);
    let mut context = TemplateContext::new();
    context.insert("project_name", "demo");
    assert_eq!(engine.render("hello.tera", &context).ok().unwrap(), "Hello demo!");
}

#[test]
fn insert_replaces_earlier_value() {
    let engine = engine(&[("t", "{{ a }}-{{ b }}")]);
    let mut context = TemplateContext::new();
    context.insert("a", "1");
    context.insert("b", "2");
    context.insert("a", "3");
    assert_eq!(engine.render("t", &context).ok().unwrap(), "3-2");
}

#[test]
fn render_missing_template_names_it() {
    let engine = engine(&[]);
    match engine.render("absent.tera", &TemplateContext::new()) {
        Err(TemplateError::Render { template, error }) => {
            assert_eq!(template, "absent.tera");
            assert!(error.to_string().contains("absent.tera"));
        }
        _ => panic!("expected a render error"),
    }
}

#[test]
fn render_missing_variable_fails() {
    let engine = engine(&[("t", "{{ nothing }}")]);
    assert!(engine.render("t", &TemplateContext::new()).is_err());
}

#[test]
fn load_rejects_unclosed_tag() {
    let bad = vec![("t".to_string(), "{{ unclosed".to_string())];
    match TemplateEngine::new(&bad) {
        Err(TemplateError::Unsupported { template }) => assert_eq!(template, "t"),
        _ => panic!("expected an unsupported template"),
    }
}

#[test]
fn load_rejects_expressions_before_tera() {
    let huge = format!("{{{{ {}.0 }}}}", "1".repeat(320));
    let bad = vec![
        ("ok".to_string(), "a {{ x }} b".to_string()),
        ("float".to_string(), huge),
        ("filter".to_string(), "{{ x | upper }}".to_string()),
    ];
    match TemplateEngine::new(&bad) {
        Err(TemplateError::Unsupported { template }) => assert_eq!(template, "float"),
        _ => panic!("expected an unsupported template"),
    }
}

#[test]
fn load_rejects_syntax_outside_the_admitted_part() {
    for text in [
        "{% for c in x %}{{ c }}{% endfor %}",
        "{{ a.b }}",
        "{{ x + 1 }}",
        "{{ }}",
        "{{ now() }}",
        "{{ x | replace(from=\"a\", to=\"b\") }}",
        "{{ x | length }}",
        "{% set y = x %}",
        "{% include \"t\" %}",
        "{% if x == y %}a{% endif %}",
        "{% raw %}a{% if x %}{% endraw %}",
        "{# unclosed",
    ] {
        let pairs = vec![("t".to_string(), text.to_string())];
        assert!(
            matches!(TemplateEngine::new(&pairs), Err(TemplateError::Unsupported { .. })),
            "text {:?}",
            text
        );
    }
}

#[test]
fn load_and_render_admitted_statements() {
    let engine = engine(&[(
        "t",
        "{# heading #}{% if flag %}yes{% elif other %}other{% else %}no{% endif %}\
         {% if not flag %}!{% endif %}|{% raw %}{{ kept }}{% endraw %}",
    )]);
    let mut context = TemplateContext::new();
    context.insert("flag", "on");
    assert_eq!(engine.render("t", &context).ok().unwrap(), "yes|{{ kept }}");
    let mut context = TemplateContext::new();
    context.insert("other", "x");
    assert_eq!(engine.render("t", &context).ok().unwrap(), "other!|{{ kept }}");
    assert_eq!(engine.render("t", &TemplateContext::new()).ok().unwrap(), "no!|{{ kept }}");
}

#[test]
fn load_and_render_admitted_filters() {
    let engine = engine(&[("t", "{{ name | upper }}-{{ name|lower|capitalize }}-{{ pad | trim }}-{{ tag | escape }}")]);
    let mut context = TemplateContext::new();
    context.insert("name", "mY app");
    context.insert("pad", "  x ");
    context.insert("tag", "<b>");
    assert_eq!(engine.render("t", &context).ok().unwrap(), "MY APP-My app-x-&lt;b&gt;");
}

#[test]
fn load_accepts_whitespace_control() {
    let engine = engine(&[("t", "a {{- x -}} b {{\ty\n}}")]);
    let mut context = TemplateContext::new();
    context.insert("x", "1");
    context.insert("y", "2");
    assert_eq!(engine.render("t", &context).ok().unwrap(), "a1b 2");
}

#[test]
fn load_error_when_tera_rejects() {
    // Simple text that tera's parser still refuses: a keyword in a variable tag.
    let pairs = vec![("t".to_string(), "{{ not }}".to_string())];
    match TemplateEngine::new(&pairs) {
        Err(TemplateError::Load { error }) => assert!(!error.to_string().is_empty()),
        Err(e) => panic!("expected a load error, got {:?}", e),
        Ok(_) => panic!("expected a load error"),
    }
}

#[test]
fn simple_template_detection() {
    assert!(is_simple_template("plain { text } with braces"));
    assert!(is_simple_template("import 'package:{{ project_name }}/main.dart';"));
    assert!(is_simple_template("{%raw%}{{ x + 1 }}{%endraw%}"));
    assert!(is_simple_template("{%- if x -%}{{- y | title -}}{%- endif -%}"));
    assert!(!is_simple_template("{% elsif x %}"));
    assert!(!is_simple_template("{{ 1 }}"));
    assert!(!is_simple_template("{{x y}}"));
}
