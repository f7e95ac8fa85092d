//! Template contexts and the engine that renders templates, backed by tera.
use vstd::prelude::*;

pub mod simple;
pub mod templates;

use simple::{is_simple_template, simple_template};

verus! {

#[verifier::external_type_specification]
#[verifier::external_body]
pub struct ExTera(tera::Tera);

#[verifier::external_type_specification]
#[verifier::external_body]
pub struct ExContext(tera::Context);

#[verifier::external_type_specification]
#[verifier::external_body]
pub struct ExTeraError(tera::Error);

/// The entries of a tera context whose values are all strings: each key
/// with its value.
pub uninterp spec fn context_entries(context: tera::Context) -> Map<Seq<char>, Seq<char>>;

/// `tera::Context::new`: a context with no entries.
#[verifier::external_body]
fn context_new() -> (fresh: tera::Context)
    ensures
        context_entries(fresh) =~= Map::empty(),
{
    tera::Context::new()
}

/// `tera::Context::insert` with a string value: the context's map gets
/// `key` set to `value`, replacing an earlier value of `key`. (Serialising a
/// string cannot fail, so the call does not panic.)
#[verifier::external_body]
fn context_insert(context: &mut tera::Context, key: &str, value: &str)
    ensures
        context_entries(*final(context)) == context_entries(*old(context)).insert(key@, value@),
{
    context.insert(key, value)
}

/// The templates a tera engine holds: each name with its text.
pub uninterp spec fn tera_templates(tera: tera::Tera) -> Map<Seq<char>, Seq<char>>;

/// Whether tera, already holding the templates `loaded`, accepts the
/// (name, text) pairs `added`: whether each text parses and the
/// inheritance and macro checks of the whole set pass.
pub uninterp spec fn tera_accepts(
    loaded: Map<Seq<char>, Seq<char>>,
    added: Seq<(Seq<char>, Seq<char>)>,
) -> bool;

/// What tera renders for the template `name` among the simple templates
/// `templates`, with the string values `context`: the text, or `None` where
/// rendering fails (the template is missing, or a variable it needs is not
/// among the values, or a filter does not apply).
pub uninterp spec fn tera_output(
    templates: Map<Seq<char>, Seq<char>>,
    name: Seq<char>,
    context: Map<Seq<char>, Seq<char>>,
) -> Option<Seq<char>>;

/// The characters of each (name, text) pair.
pub open spec fn pairs_view(v: Seq<(String, String)>) -> Seq<(Seq<char>, Seq<char>)> {
    v.map_values(|p: (String, String)| (p.0@, p.1@))
}

/// The templates `m` with the pairs `s` added in order, a later pair
/// replacing an earlier template of the same name.
pub open spec fn add_pairs(m: Map<Seq<char>, Seq<char>>, s: Seq<(Seq<char>, Seq<char>)>) -> Map<
    Seq<char>,
    Seq<char>,
>
    decreases s.len(),
{
    if s.len() == 0 {
        m
    } else {
        add_pairs(m, s.drop_last()).insert(s.last().0, s.last().1)
    }
}

/// Every text of the pairs is a simple template.
pub open spec fn all_simple(s: Seq<(Seq<char>, Seq<char>)>) -> bool {
    forall|i: int| 0 <= i < s.len() ==> simple_template(#[trigger] s[i].1)
}

/// Every template held is a simple template.
pub open spec fn templates_simple(m: Map<Seq<char>, Seq<char>>) -> bool {
    forall|k: Seq<char>| m.contains_key(k) ==> simple_template(#[trigger] m[k])
}

/// `name` is the name of the first pair whose text is not a simple template.
pub open spec fn first_unsupported(s: Seq<(Seq<char>, Seq<char>)>, name: Seq<char>) -> bool {
    exists|i: int|
        0 <= i < s.len() && !simple_template(#[trigger] s[i].1) && s[i].0 == name && forall|j: int|
            0 <= j < i ==> simple_template(#[trigger] s[j].1)
}

/// `<tera::Tera as Default>::default`: an engine holding no templates.
#[verifier::external_body]
fn tera_default() -> (fresh: tera::Tera)
    ensures
        tera_templates(fresh) =~= Map::empty(),
{
    tera::Tera::default()
}

/// `tera::Tera::add_raw_templates`: parses each (name, text) pair and adds
/// it under its name, a later pair replacing an earlier one of the same
/// name, then checks the inheritance chains and macro imports of the whole
/// set. It succeeds exactly when tera accepts the pairs; on success the
/// engine holds its earlier templates with the pairs added.
#[verifier::external_body]
fn tera_add_raw_templates(tera: &mut tera::Tera, templates: &Vec<(String, String)>) -> (result:
    Result<(), tera::Error>)
    ensures
        (result is Ok) == tera_accepts(tera_templates(*old(tera)), pairs_view(templates@)),
        result is Ok ==> tera_templates(*final(tera)) == add_pairs(
            tera_templates(*old(tera)),
            pairs_view(templates@),
        ),
{
    tera.add_raw_templates(templates.iter().map(|t| (t.0.as_str(), t.1.as_str())))
}

/// The values a template is rendered with, each a string under a key.
pub struct TemplateContext {
    context: tera::Context,
}

impl View for TemplateContext {
    type V = Map<Seq<char>, Seq<char>>;

    closed spec fn view(&self) -> Map<Seq<char>, Seq<char>> {
        context_entries(self.context)
    }
}

impl TemplateContext {
    /// A context with no values.
    pub fn new() -> (context: Self)
        ensures
            context@ == Map::<Seq<char>, Seq<char>>::empty(),
    {
        TemplateContext { context: context_new() }
    }

    /// Sets `key` to `value`, replacing an earlier value of `key`.
    pub fn insert(&mut self, key: &str, value: &str)
        ensures
            final(self)@ == old(self)@.insert(key@, value@),
    {
        context_insert(&mut self.context, key, value);
    }
}

/// Why templates could not be loaded or rendered.
#[derive(Debug)]
pub enum TemplateError {
    /// The template `template` holds tera syntax outside the part this tool
    /// renders (see `simple`).
    Unsupported { template: String },
    /// Tera did not accept the templates.
    Load { error: tera::Error },
    /// Tera could not render the template `template`.
    Render { template: String, error: tera::Error },
}

/// The engine that renders the scaffold's templates. It holds simple
/// templates only (see `simple`).
pub struct TemplateEngine {
    tera: tera::Tera,
}

impl View for TemplateEngine {
    type V = Map<Seq<char>, Seq<char>>;

    closed spec fn view(&self) -> Map<Seq<char>, Seq<char>> {
        tera_templates(self.tera)
    }
}

proof fn lemma_add_pairs_simple(m: Map<Seq<char>, Seq<char>>, s: Seq<(Seq<char>, Seq<char>)>)
    requires
        templates_simple(m),
        all_simple(s),
    ensures
        templates_simple(add_pairs(m, s)),
    decreases s.len(),
{
    if s.len() > 0 {
        assert(all_simple(s.drop_last())) by {
            assert forall|i: int| 0 <= i < s.drop_last().len() implies simple_template(
                #[trigger] s.drop_last()[i].1,
            ) by {
                assert(s.drop_last()[i] == s[i]);
            }
        }
        lemma_add_pairs_simple(m, s.drop_last());
        assert(simple_template(s[s.len() - 1].1));
    }
}

/// `tera::Tera::render` on an engine's tera, built by `TemplateEngine::new`
/// with tera's default settings and simple templates only, and a context's
/// tera values, all strings. For such templates tera's renderer computes and
/// calls nothing that depends on more than the templates, the name and the
/// values, so its result is `tera_output` of them; a missing template fails
/// (`Tera::get_template`). For templates with expressions tera can panic (a
/// float literal too large for `f64`, or float arithmetic that overflows,
/// meets an `unwrap` of `Number::from_f64`).
#[verifier::external_body]
fn tera_render(engine: &TemplateEngine, name: &str, context: &TemplateContext) -> (result: Result<
    String,
    tera::Error,
>)
    requires
        templates_simple(engine@),
    ensures
        match result {
            Ok(text) => tera_output(engine@, name@, context@) == Some(text@),
            Err(_) => tera_output(engine@, name@, context@) is None,
        },
        !engine@.contains_key(name@) ==> result is Err,
{
    engine.tera.render(name, &context.context)
}

impl TemplateEngine {
    #[verifier::type_invariant]
    spec fn holds_simple_templates(self) -> bool {
        templates_simple(tera_templates(self.tera))
    }

    /// An engine holding `templates`, each a (name, text) pair. It fails
    /// with `Unsupported`, naming the first template that is not simple,
    /// before tera sees any; then with `Load` where tera does not accept the
    /// pairs.
    pub fn new(templates: &Vec<(String, String)>) -> (engine: Result<Self, TemplateError>)
        ensures
            match engine {
                Ok(e) => all_simple(pairs_view(templates@)) && tera_accepts(
                    Map::empty(),
                    pairs_view(templates@),
                ) && e@ == add_pairs(Map::empty(), pairs_view(templates@)),
                Err(TemplateError::Unsupported { template }) => first_unsupported(
                    pairs_view(templates@),
                    template@,
                ),
                Err(TemplateError::Load { .. }) => all_simple(pairs_view(templates@))
                    && !tera_accepts(Map::empty(), pairs_view(templates@)),
                Err(TemplateError::Render { .. }) => false,
            },
    {
        let ghost pairs = pairs_view(templates@);
        let n: usize = templates.len();
        let mut i: usize = 0;
        while i < n
            invariant
                n == templates.len(),
                pairs == pairs_view(templates@),
                i <= n,
                forall|j: int| 0 <= j < i ==> simple_template(#[trigger] pairs[j].1),
            decreases n - i,
        {
            assert(pairs[i as int] == (templates@[i as int].0@, templates@[i as int].1@));
            if !is_simple_template(templates[i].1.as_str()) {
                let template = templates[i].0.clone();
                assert(first_unsupported(pairs, template@)) by {
                    assert(!simple_template(pairs[i as int].1));
                }
                return Err(TemplateError::Unsupported { template });
            }
            i = i + 1;
        }
        assert(all_simple(pairs));
        let mut tera = tera_default();
        match tera_add_raw_templates(&mut tera, templates) {
            Ok(()) => {
                proof {
                    lemma_add_pairs_simple(Map::empty(), pairs);
                }
                Ok(TemplateEngine { tera })
            },
            Err(error) => Err(TemplateError::Load { error }),
        }
    }

    /// Renders the template `template_name` with the values of `context`:
    /// it succeeds exactly when tera renders that template with exactly those
    /// values, with tera's text; it fails where the engine holds no such
    /// template, and an error names the template.
    pub fn render(&self, template_name: &str, context: &TemplateContext) -> (rendered: Result<
        String,
        TemplateError,
    >)
        ensures
            match rendered {
                Ok(text) => tera_output(self@, template_name@, context@) == Some(text@),
                Err(e) => {
                    &&& tera_output(self@, template_name@, context@) is None
                    &&& e matches TemplateError::Render { template, .. } && template@
                        == template_name@
                },
            },
            !self@.contains_key(template_name@) ==> rendered is Err,
    {
        proof {
            use_type_invariant(self);
        }
        match tera_render(self, template_name, context) {
            Ok(text) => Ok(text),
            Err(error) => Err(TemplateError::Render { template: template_name.to_owned(), error }),
        }
    }
}

} // verus!
