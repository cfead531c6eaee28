//! Templates: how their syntax is chosen, what the `default` filter does,
//! what a template sees, and the rendering of a template that is given as
//! text.
//!
//! A template sees three names. `Value` is the user's values document.
//! `Env` looks a key up in the global environment and gives the empty text
//! for a key that is not set. `Docker` is a helper that asks the engines of
//! the fleet; the library does not make it, it takes it from the program
//! around it.

use vstd::prelude::*;
use vstd::string::*;
use crate::env::{clone_entries, env_get, lookup, pairs_map};
use crate::text::string_pairs;
use crate::text::{chars_of, ends_with, substring};

verus! {

/// A file name without the ending that marks it as a template, `.j2` or
/// `.jinja`.
pub open spec fn template_stem(file_name: Seq<char>) -> Seq<char> {
    if ".j2"@.is_suffix_of(file_name) {
        file_name.subrange(0, file_name.len() - 3)
    } else if ".jinja"@.is_suffix_of(file_name) {
        file_name.subrange(0, file_name.len() - 6)
    } else {
        file_name
    }
}

/// What begins a line comment in a template of this name, if anything: `#`
/// in YAML, `//` in JSON.
pub open spec fn line_comment_prefix(file_name: Seq<char>) -> Option<Seq<char>> {
    let name = template_stem(file_name);
    if ".yaml"@.is_suffix_of(name) || ".yml"@.is_suffix_of(name) {
        Some("#"@)
    } else if ".json"@.is_suffix_of(name) {
        Some("//"@)
    } else {
        None
    }
}

/// What begins a line comment in a template of this name.
pub fn get_syntax(file_name: &str) -> (r: Option<&'static str>)
    ensures
        match r {
            Some(p) => line_comment_prefix(file_name@) == Some(p@),
            None => line_comment_prefix(file_name@) is None,
        },
{
    proof {
        reveal_strlit(".j2");
        reveal_strlit(".jinja");
    }
    let full = chars_of(file_name);
    let j2 = chars_of(".j2");
    let jinja = chars_of(".jinja");
    let stem = if ends_with(&full, &j2) {
        substring(file_name, 0, full.len() - 3)
    } else if ends_with(&full, &jinja) {
        substring(file_name, 0, full.len() - 6)
    } else {
        file_name.to_owned()
    };
    assert(stem@ == template_stem(file_name@));
    let name = chars_of(stem.as_str());
    let yaml = chars_of(".yaml");
    let yml = chars_of(".yml");
    let json = chars_of(".json");
    if ends_with(&name, &yaml) || ends_with(&name, &yml) {
        Some("#")
    } else if ends_with(&name, &json) {
        Some("//")
    } else {
        None
    }
}

/// What kind of value a filter was handed.
#[derive(Debug, Clone, Copy, PartialEq, Eq, Structural)]
pub enum ValueKind {
    /// No value: the name is not defined.
    Undefined,
    /// The value that stands for nothing.
    Nothing,
    /// Any other value.
    Defined,
}

/// What the `default` filter hands on.
#[derive(Debug, Clone, Copy, PartialEq, Eq, Structural)]
pub enum DefaultChoice {
    /// The value that came in.
    Input,
    /// The fallback that was given.
    Fallback,
    /// The empty string.
    Empty,
}

/// The `default` filter: a value that is undefined or none gives way to the
/// fallback, or to the empty string where none was given.
pub fn none_default(value: ValueKind, has_fallback: bool) -> (r: DefaultChoice)
    ensures
        r == (if value == ValueKind::Defined {
            DefaultChoice::Input
        } else if has_fallback {
            DefaultChoice::Fallback
        } else {
            DefaultChoice::Empty
        }),
{
    match value {
        ValueKind::Defined => DefaultChoice::Input,
        _ => if has_fallback {
            DefaultChoice::Fallback
        } else {
            DefaultChoice::Empty
        },
    }
}

/// Name under which a template sees the values document.
pub const CONTEXT_VALUE: &'static str = "Value";

/// Name under which a template sees the global environment.
pub const CONTEXT_ENV: &'static str = "Env";

/// Name under which a template sees the helper that asks the engines.
pub const CONTEXT_DOCKER: &'static str = "Docker";

/// Method of the helper that inspects a container on the first node that
/// has it.
pub const DOCKER_PS_INSPECT: &'static str = "ps_inspect";

/// Why a template was not rendered.
#[derive(Debug)]
pub enum RenderError {
    /// The values document is not YAML; the parser's message.
    Values(String),
    /// The template has an error or could not be evaluated; the renderer's
    /// message.
    Template(String),
}

/// A render error as a mathematical value.
pub enum RenderErrorView {
    Values(Seq<char>),
    Template(Seq<char>),
}

impl View for RenderError {
    type V = RenderErrorView;

    open spec fn view(&self) -> RenderErrorView {
        match self {
            RenderError::Values(m) => RenderErrorView::Values(m@),
            RenderError::Template(m) => RenderErrorView::Template(m@),
        }
    }
}

impl RenderError {
    /// The message, as operators are shown it.
    pub fn message(&self) -> (r: &str)
        ensures
            r@ == (match self@ {
                RenderErrorView::Values(m) => m,
                RenderErrorView::Template(m) => m,
            }),
    {
        match self {
            RenderError::Values(m) => m.as_str(),
            RenderError::Template(m) => m.as_str(),
        }
    }
}

/// What a render returns, as a mathematical value.
pub open spec fn render_view(r: Result<String, RenderError>) -> Result<Seq<char>, RenderErrorView> {
    match r {
        Ok(s) => Ok(s@),
        Err(e) => Err(e@),
    }
}

/// What `Env` gives for a key: what the environment holds under it, or the
/// empty text where the key is not set.
pub open spec fn env_value(env: Seq<(String, String)>, key: Seq<char>) -> Seq<char> {
    match env_get(pairs_map(env), key) {
        Some(v) => v,
        None => Seq::empty(),
    }
}

/// What `Env` gives for a key.
pub fn get_env_value(env: &Vec<(String, String)>, key: &str) -> (r: String)
    ensures
        r@ == env_value(env@, key@),
{
    match lookup(env, key) {
        Some(v) => v,
        None => String::new(),
    }
}

/// A parsed YAML document of `serde_yaml`.
#[verifier::external_type_specification]
#[verifier::external_body]
pub struct ExYamlValue(serde_yaml::Value);

/// A value of `minijinja`.
#[verifier::external_type_specification]
#[verifier::external_body]
pub struct ExTemplateValue(minijinja::Value);

/// A values document that was read.
pub struct Values {
    text: String,
    doc: serde_yaml::Value,
}

impl View for Values {
    type V = Seq<char>;

    /// The text that the document was read from.
    closed spec fn view(&self) -> Seq<char> {
        self.text@
    }
}

/// The message with which a text is refused as a YAML document, if it is.
pub uninterp spec fn yaml_error(text: Seq<char>) -> Option<Seq<char>>;

/// Calls `serde_yaml::from_str` for a document of any shape. Whether the
/// text is refused, and with which message, is a function of the text.
#[verifier::external_body]
fn parse_values(text: &str) -> (r: Result<Values, String>)
    ensures
        match r {
            Ok(v) => yaml_error(text@) is None && v@ == text@,
            Err(m) => yaml_error(text@) == Some(m@),
        },
{
    match serde_yaml::from_str(text) {
        Ok(doc) => Ok(Values { text: text.to_owned(), doc }),
        Err(e) => Err(e.to_string()),
    }
}

/// Reads a values document.
pub fn read_values(text: &str) -> (r: Result<Values, RenderError>)
    ensures
        match r {
            Ok(v) => yaml_error(text@) is None && v@ == text@,
            Err(e) => yaml_error(text@) is Some && e@ == RenderErrorView::Values(
                yaml_error(text@)->Some_0,
            ),
        },
{
    match parse_values(text) {
        Ok(v) => Ok(v),
        Err(m) => Err(RenderError::Values(m)),
    }
}

/// What stands behind a name of the context.
pub enum ContextView {
    /// The values document that this text reads as.
    Document(Seq<char>),
    /// A lookup in these entries, where a later entry wins and a key that
    /// is not set gives the empty text.
    Lookup(Seq<(Seq<char>, Seq<char>)>),
    /// A helper of the program, which may ask the engines.
    Helper,
}

enum ContextSource {
    Document(String),
    Lookup(Vec<(String, String)>),
    Helper,
}

/// A value of the context of a template.
pub struct ContextValue {
    source: ContextSource,
    value: minijinja::Value,
}

impl View for ContextValue {
    type V = ContextView;

    closed spec fn view(&self) -> ContextView {
        match self.source {
            ContextSource::Document(t) => ContextView::Document(t@),
            ContextSource::Lookup(e) => ContextView::Lookup(string_pairs(e@)),
            ContextSource::Helper => ContextView::Helper,
        }
    }
}

impl ContextValue {
    /// Takes a helper of the program into a context.
    pub fn helper(value: minijinja::Value) -> (r: ContextValue)
        ensures
            r@ == ContextView::Helper,
    {
        ContextValue { source: ContextSource::Helper, value }
    }

    /// The value as the renderer takes it.
    pub fn into_value(self) -> minijinja::Value {
        self.value
    }
}

/// Calls `minijinja::Value::from_serialize` on a parsed document: the value
/// stands for the document.
#[verifier::external_body]
fn document_value(values: &Values) -> (r: ContextValue)
    ensures
        r@ == ContextView::Document(values@),
{
    ContextValue {
        source: ContextSource::Document(values.text.clone()),
        value: minijinja::Value::from_serialize(&values.doc),
    }
}

/// Calls `minijinja::Value::make_object_map`: the value is a map that lists
/// no keys and answers each lookup of a text key with `get_env_value` on
/// the entries.
#[verifier::external_body]
fn lookup_value(env: Vec<(String, String)>) -> (r: ContextValue)
    ensures
        r@ == ContextView::Lookup(string_pairs(env@)),
{
    let source = ContextSource::Lookup(env.clone());
    let value = minijinja::Value::make_object_map(
        env,
        |_| Box::new(std::iter::empty()),
        |e, key| Some(minijinja::Value::from(get_env_value(e, key.as_str()?))),
    );
    ContextValue { source, value }
}

/// The views of a context.
pub open spec fn context_views(v: Seq<(String, ContextValue)>) -> Seq<(Seq<char>, ContextView)> {
    v.map_values(|e: (String, ContextValue)| (e.0@, e.1@))
}

/// Whether no name occurs twice in a context.
pub open spec fn distinct_names(context: Seq<(Seq<char>, ContextView)>) -> bool {
    forall|i: int, j: int|
        0 <= i < j < context.len() ==> (#[trigger] context[i]).0 != (#[trigger] context[j]).0
}

/// Whether a context holds documents and lookups only, so that what a
/// template renders to depends on nothing else.
pub open spec fn without_helper(context: Seq<(Seq<char>, ContextView)>) -> bool {
    forall|i: int| 0 <= i < context.len() ==> !((#[trigger] context[i]).1 is Helper)
}

/// What a template renders to in a context without helpers: the text, or
/// the message with which the renderer gave up.
pub uninterp spec fn rendered(template: Seq<char>, context: Seq<(Seq<char>, ContextView)>) -> Result<
    Seq<char>,
    Seq<char>,
>;

/// What the renderer returns, as a mathematical value.
pub open spec fn text_view(r: Result<String, String>) -> Result<Seq<char>, Seq<char>> {
    match r {
        Ok(s) => Ok(s@),
        Err(e) => Err(e@),
    }
}

/// Calls `minijinja::Environment::render_str` in a new environment, with
/// the context as a map from its names to its values. In a context without
/// helpers the result is a function of the template and the context.
#[verifier::external_body]
fn render_str(template: &str, context: Vec<(String, ContextValue)>) -> (r: Result<String, String>)
    requires
        distinct_names(context_views(context@)),
    ensures
        without_helper(context_views(context@)) ==> text_view(r) == rendered(
            template@,
            context_views(context@),
        ),
{
    let ctx: std::collections::BTreeMap<String, minijinja::Value> =
        context.into_iter().map(|e| (e.0, e.1.value)).collect();
    minijinja::Environment::new().render_str(template, ctx).map_err(|e| e.to_string())
}

/// What a template sees: the helper under `Docker`, where there is one,
/// the values document under `Value`, and the environment under `Env`.
pub open spec fn template_context(
    values: Seq<char>,
    env: Seq<(Seq<char>, Seq<char>)>,
    docker: Option<ContextView>,
) -> Seq<(Seq<char>, ContextView)> {
    (match docker {
        Some(d) => seq![(CONTEXT_DOCKER@, d)],
        None => Seq::empty(),
    }) + seq![
        (CONTEXT_VALUE@, ContextView::Document(values)),
        (CONTEXT_ENV@, ContextView::Lookup(env)),
    ]
}

/// The view of a context value that may be absent.
pub open spec fn helper_view(docker: Option<ContextValue>) -> Option<ContextView> {
    match docker {
        Some(d) => Some(d@),
        None => None,
    }
}

/// Builds what a template sees from the values document, the global
/// environment and the helper of the program, where it has one.
pub fn create_context(values: &Values, env: &Vec<(String, String)>, docker: Option<ContextValue>) -> (r:
    Vec<(String, ContextValue)>)
    ensures
        context_views(r@) == template_context(values@, string_pairs(env@), helper_view(docker)),
        distinct_names(context_views(r@)),
{
    proof {
        reveal_strlit("Value");
        reveal_strlit("Env");
        reveal_strlit("Docker");
        assert("Value"@.len() == 5 && "Env"@.len() == 3 && "Docker"@.len() == 6);
    }
    let mut r: Vec<(String, ContextValue)> = Vec::new();
    if let Some(d) = docker {
        r.push((CONTEXT_DOCKER.to_owned(), d));
    }
    r.push((CONTEXT_VALUE.to_owned(), document_value(values)));
    r.push((CONTEXT_ENV.to_owned(), lookup_value(clone_entries(env))));
    proof {
        assert(context_views(r@) =~= template_context(
            values@,
            string_pairs(env@),
            helper_view(docker),
        ));
    }
    r
}

/// What rendering a template that is given as text returns where the
/// program supplies no helper: the message of the parser where the values
/// are no YAML document, else what the template renders to with the
/// document under `Value` and the environment under `Env`.
pub open spec fn preview(
    template: Seq<char>,
    values: Seq<char>,
    env: Seq<(Seq<char>, Seq<char>)>,
) -> Result<Seq<char>, RenderErrorView> {
    match yaml_error(values) {
        Some(m) => Err(RenderErrorView::Values(m)),
        None => match rendered(template, template_context(values, env, None)) {
            Ok(t) => Ok(t),
            Err(m) => Err(RenderErrorView::Template(m)),
        },
    }
}

/// Renders a template that is given as text. `values` is the user's values
/// document, as YAML; `env` holds the global environment; `docker` is the
/// helper of the program, where it has one. Values that are no document
/// are refused before anything is rendered.
pub fn render_dynamic_tmpl(
    template_content: &str,
    values: &str,
    env: &Vec<(String, String)>,
    docker: Option<ContextValue>,
) -> (r: Result<String, RenderError>)
    ensures
        docker is None ==> render_view(r) == preview(template_content@, values@, string_pairs(env@)),
        yaml_error(values@) matches Some(m) ==> render_view(r) == Err::<
            Seq<char>,
            RenderErrorView,
        >(RenderErrorView::Values(m)),
        yaml_error(values@) is None ==> !(r matches Err(RenderError::Values(_))),
{
    let doc = match read_values(values) {
        Ok(doc) => doc,
        Err(e) => return Err(e),
    };
    let context = create_context(&doc, env, docker);
    match render_str(template_content, context) {
        Ok(text) => Ok(text),
        Err(m) => Err(RenderError::Template(m)),
    }
}

} // verus!
