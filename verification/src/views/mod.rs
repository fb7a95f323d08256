//! Pages rendered from named templates.
//!
//! The template engine is `tera`. This module keeps the engine and the
//! variables handed to it behind a small interface: templates are registered
//! by name, a page is a set of named fields, and rendering either gives the
//! page or says why not.
//!
//! The engine runs what a template says, and a template can say a great
//! deal. The service accepts the templates of one small kind (see
//! [`plain`]) and hands no other to the engine.

pub mod error;
pub mod footer;
pub mod header;
pub mod index;
pub mod not_found;
pub mod plain;

use vstd::prelude::*;
use crate::utils::text::chars_of;

verus! {

/// The template engine of `tera`, carried as it is.
#[verifier::external_type_specification]
#[verifier::external_body]
pub struct ExTera(tera::Tera);

/// The variables that `tera` renders a template with, carried as they are.
#[verifier::external_type_specification]
#[verifier::external_body]
pub struct ExContext(tera::Context);

/// The error of `String::from_utf8`, carried as it is.
#[verifier::external_type_specification]
#[verifier::external_body]
pub struct ExFromUtf8Error(std::string::FromUtf8Error);

/// The value of one template variable.
#[derive(Clone, Debug)]
pub enum Field {
    Text(String),
    Number(u64),
    Flag(bool),
    Missing,
}

/// The value of one template variable, as contracts see it.
pub enum FieldValue {
    Text(Seq<char>),
    Number(u64),
    Flag(bool),
    Missing,
}

impl View for Field {
    type V = FieldValue;

    open spec fn view(&self) -> FieldValue {
        match self {
            Field::Text(text) => FieldValue::Text(text@),
            Field::Number(n) => FieldValue::Number(*n),
            Field::Flag(flag) => FieldValue::Flag(*flag),
            Field::Missing => FieldValue::Missing,
        }
    }
}

/// A template variable: its name and its value.
#[derive(Clone, Debug)]
pub struct Entry {
    pub name: String,
    pub value: Field,
}

impl View for Entry {
    type V = (Seq<char>, FieldValue);

    open spec fn view(&self) -> (Seq<char>, FieldValue) {
        (self.name@, self.value@)
    }
}

/// The entries of a list, each as contracts see it.
pub open spec fn views_of(entries: Seq<Entry>) -> Seq<(Seq<char>, FieldValue)> {
    entries.map_values(|entry: Entry| entry@)
}

/// The sources that an engine holds, by the names under which they were
/// registered.
pub uninterp spec fn template_sources(engine: tera::Tera) -> Map<Seq<char>, Seq<char>>;

/// Every template that the engine holds is one that the service accepts
/// (see [`plain::plain`]).
pub uninterp spec fn only_plain(engine: tera::Tera) -> bool;

/// The variables that a context holds, by name.
pub uninterp spec fn context_fields(context: tera::Context) -> Map<Seq<char>, FieldValue>;

/// What the engine's parser says of an accepted source that is to be
/// registered under a name: nothing where the source is well formed, else
/// the words of its refusal.
pub uninterp spec fn parse_failure(name: Seq<char>, source: Seq<char>) -> Option<Seq<char>>;

/// What the engine makes of an accepted template with these variables: the
/// page, or the words of its failure. The name counts, because the engine
/// escapes by it and speaks of it in its failures.
pub uninterp spec fn rendered_page(
    name: Seq<char>,
    source: Seq<char>,
    fields: Map<Seq<char>, FieldValue>,
) -> Result<Seq<char>, Seq<char>>;

/// The variables that a list of entries defines. A later entry replaces an
/// earlier one of the same name.
pub open spec fn fields_of(entries: Seq<(Seq<char>, FieldValue)>) -> Map<Seq<char>, FieldValue>
    decreases entries.len(),
{
    if entries.len() == 0 {
        Map::empty()
    } else {
        fields_of(entries.drop_last()).insert(entries.last().0, entries.last().1)
    }
}

/// No sources.
pub open spec fn no_sources() -> Map<Seq<char>, Seq<char>> {
    Map::empty()
}

/// No variables.
pub open spec fn no_fields() -> Map<Seq<char>, FieldValue> {
    Map::empty()
}

/// The name of the variable that tells a template whether it is rendered
/// during development.
pub open spec fn env_is_dev_name() -> Seq<char> {
    "env_is_dev"@
}

/// The variables that the engine is given for a page with these entries:
/// the entries themselves and `env_is_dev`, which no entry can override.
pub open spec fn fields_for(entries: Seq<(Seq<char>, FieldValue)>, is_dev: bool) -> Map<
    Seq<char>,
    FieldValue,
> {
    fields_of(entries).insert(env_is_dev_name(), FieldValue::Flag(is_dev))
}

/// What the engine says of a name under which it holds nothing.
pub open spec fn missing_text(name: Seq<char>) -> Seq<char> {
    "Template '"@ + name + "' not found"@
}

/// The engine's answer for a name under which it holds nothing.
pub open spec fn no_such_template(name: Seq<char>) -> Result<Seq<char>, Seq<char>> {
    Err(missing_text(name))
}

/// What rendering the template of this name gives, among these sources and
/// with these variables: what the engine makes of the source registered
/// under the name, or its word that there is none.
pub open spec fn page_spec(
    sources: Map<Seq<char>, Seq<char>>,
    name: Seq<char>,
    fields: Map<Seq<char>, FieldValue>,
) -> Result<Seq<char>, Seq<char>> {
    if sources.dom().contains(name) {
        rendered_page(name, sources[name], fields)
    } else {
        no_such_template(name)
    }
}

/// An answer of the engine, as contracts see it.
pub open spec fn answer_view(answer: Result<String, String>) -> Result<Seq<char>, Seq<char>> {
    match answer {
        Ok(page) => Ok(page@),
        Err(text) => Err(text@),
    }
}

/// Calls `Tera::default`: an engine that holds no template.
#[verifier::external_body]
fn engine_new() -> (engine: tera::Tera)
    ensures
        template_sources(engine) == no_sources(),
        only_plain(engine),
{
    tera::Tera::default()
}

/// Calls `Tera::add_raw_template` with a source that the service accepts,
/// on an engine that holds such sources only, and hands out a failure in
/// the words of its `Display`. The parser alone decides: an accepted source
/// names no other template, so nothing else can fail. A source that is
/// well formed is held under its name afterwards, in place of what was
/// held under it; any other leaves the engine as it was.
#[verifier::external_body]
fn engine_add(engine: &mut tera::Tera, name: &str, source: &str) -> (r: Result<(), String>)
    requires
        only_plain(*old(engine)),
        plain::plain(source@),
    ensures
        only_plain(*final(engine)),
        parse_failure(name@, source@) is None ==> r is Ok && template_sources(*final(engine))
            == template_sources(*old(engine)).insert(name@, source@),
        parse_failure(name@, source@) is Some ==> r is Err && r->Err_0@ == parse_failure(
            name@,
            source@,
        )->0 && template_sources(*final(engine)) == template_sources(*old(engine)),
    no_unwind
{
    engine.add_raw_template(name, source).map_err(|error| error.to_string())
}

/// Calls `Tera::render` on an engine that holds accepted sources only, and
/// hands out a failure in the words of its `Display`. A name that the
/// engine does not hold is an error that says so.
///
/// The engine runs what a template says. A template of the accepted kind
/// says no more than to write text, to write the value of a variable, and
/// to choose by a variable between parts nested at most
/// [`plain::MAX_NESTING`] deep: it names no other template, calls no
/// function, filter, test or macro, and holds no number. On such a template
/// the engine comes back, and what it comes back with rests on the name,
/// the source and the variables alone.
#[verifier::external_body]
fn engine_render(engine: &tera::Tera, name: &str, context: &tera::Context) -> (r: Result<
    String,
    String,
>)
    requires
        only_plain(*engine),
    ensures
        template_sources(*engine).dom().contains(name@) ==> answer_view(r) == rendered_page(
            name@,
            template_sources(*engine)[name@],
            context_fields(*context),
        ),
        !template_sources(*engine).dom().contains(name@) ==> answer_view(r) == no_such_template(
            name@,
        ),
{
    engine.render(name, context).map_err(|error| error.to_string())
}

/// Calls `Context::new`: a context without variables.
#[verifier::external_body]
fn context_new() -> (context: tera::Context)
    ensures
        context_fields(context) == no_fields(),
{
    tera::Context::new()
}

/// Calls `Context::insert` with the value of the field: a text, a number, a
/// flag, or the unit value, which the engine sees as `null`. The variable
/// takes the place of an earlier one of the same name.
#[verifier::external_body]
fn context_insert(context: &mut tera::Context, name: &str, value: &Field)
    ensures
        context_fields(*final(context)) == context_fields(*old(context)).insert(name@, value@),
{
    match value {
        Field::Text(text) => context.insert(name, text),
        Field::Number(n) => context.insert(name, n),
        Field::Flag(flag) => context.insert(name, flag),
        Field::Missing => context.insert(name, &()),
    }
}

/// The switches of a minifier that the service asks for.
#[derive(Clone, Copy, Debug, PartialEq, Eq, Structural)]
pub struct MinifyConfig {
    pub do_not_minify_doctype: bool,
    pub minify_js: bool,
    pub minify_css: bool,
    pub keep_comments: bool,
}

/// Why a page could not be rendered.
#[derive(Debug)]
pub enum RenderError {
    /// The engine refused the template or failed while rendering it. The
    /// text is the engine's own description.
    Engine(String),
    /// The minified page was not valid UTF-8.
    Encoding,
    /// The source is not one that the service accepts. It never reached
    /// the engine.
    Refused,
}

/// What is said of a failure that has no words of its own.
pub open spec fn encoding_text() -> Seq<char> {
    "The minified page is not valid UTF-8"@
}

/// What is said of a source that was refused.
pub open spec fn refused_text() -> Seq<char> {
    "The source of the template is not of the accepted kind"@
}

impl RenderError {
    /// The failure in words: the engine's own, or the fixed ones.
    pub open spec fn description(&self) -> Seq<char> {
        match self {
            RenderError::Engine(text) => text@,
            RenderError::Encoding => encoding_text(),
            RenderError::Refused => refused_text(),
        }
    }

    /// Says what failed.
    pub fn to_string(&self) -> (text: String)
        ensures
            text@ == self.description(),
    {
        match self {
            RenderError::Engine(text) => text.clone(),
            RenderError::Encoding => "The minified page is not valid UTF-8".to_owned(),
            RenderError::Refused => {
                "The source of the template is not of the accepted kind".to_owned()
            },
        }
    }
}

/// A rendered page, and what is still to be done with it: outside
/// development it is to be minified, with these switches, before it is
/// sent. The minifier is the caller's to run.
#[derive(Debug)]
pub struct Page {
    pub text: String,
    pub minify: Option<MinifyConfig>,
}

/// The switches that the service sets: the document type is left alone,
/// scripts and styles are minified, comments are dropped.
pub open spec fn service_switches() -> MinifyConfig {
    MinifyConfig {
        do_not_minify_doctype: true,
        minify_js: true,
        minify_css: true,
        keep_comments: false,
    }
}

/// What is to be done with a page: nothing in development, minifying with
/// the switches of the service elsewhere.
pub open spec fn minify_for(is_dev: bool) -> Option<MinifyConfig> {
    if is_dev {
        None
    } else {
        Some(service_switches())
    }
}

/// `r` is what rendering gives where the engine answers with `answer`: the
/// engine's page with what is to be done with it, or the engine's failure in
/// the engine's words.
pub open spec fn renders(
    r: Result<Page, RenderError>,
    answer: Result<Seq<char>, Seq<char>>,
    is_dev: bool,
) -> bool {
    match answer {
        Ok(page) => r is Ok && r->Ok_0.text@ == page && r->Ok_0.minify == minify_for(is_dev),
        Err(text) => r is Err && r->Err_0 is Engine && r->Err_0->Engine_0@ == text,
    }
}

/// The templates of the service, and whether it runs in development.
pub struct Templates {
    engine: tera::Tera,
    is_dev: bool,
}

impl Templates {
    /// The engine holds accepted sources only.
    #[verifier::type_invariant]
    closed spec fn accepted_only(&self) -> bool {
        only_plain(self.engine)
    }

    /// The sources of the registered templates, by name.
    pub closed spec fn sources(&self) -> Map<Seq<char>, Seq<char>> {
        template_sources(self.engine)
    }

    /// The names under which templates are registered.
    pub open spec fn names(&self) -> Set<Seq<char>> {
        self.sources().dom()
    }

    /// Whether pages are rendered for development.
    pub closed spec fn dev(&self) -> bool {
        self.is_dev
    }

    /// What rendering the template of this name gives with these entries.
    pub open spec fn page(&self, name: Seq<char>, entries: Seq<(Seq<char>, FieldValue)>) -> Result<
        Seq<char>,
        Seq<char>,
    > {
        page_spec(self.sources(), name, fields_for(entries, self.dev()))
    }

    /// No templates yet.
    pub fn new(is_dev: bool) -> (templates: Templates)
        ensures
            templates.sources() == no_sources(),
            templates.dev() == is_dev,
    {
        Templates { engine: engine_new(), is_dev }
    }

    /// Registers `source` under `name`, in place of an earlier template of
    /// that name. A source that is not of the accepted kind is refused. An
    /// accepted source that the engine's parser finds ill formed is
    /// refused in the parser's words. A refusal changes nothing.
    pub fn add(&mut self, name: &str, source: &str) -> (r: Result<(), RenderError>)
        ensures
            final(self).dev() == old(self).dev(),
            !plain::plain(source@) ==> r == Err::<(), RenderError>(RenderError::Refused)
                && final(self).sources() == old(self).sources(),
            plain::plain(source@) && parse_failure(name@, source@) is None ==> r is Ok && final(self).sources() == old(self).sources().insert(name@, source@),
            plain::plain(source@) && parse_failure(name@, source@) is Some ==> r is Err
                && r->Err_0 is Engine && r->Err_0->Engine_0@ == parse_failure(name@, source@)->0
                && final(self).sources() == old(self).sources(),
    {
        let text = chars_of(source);
        if !plain::is_plain(&text) {
            return Err(RenderError::Refused);
        }
        proof {
            use_type_invariant(&*self);
        }
        match engine_add(&mut self.engine, name, source) {
            Ok(()) => Ok(()),
            Err(words) => Err(RenderError::Engine(words)),
        }
    }

    /// Whether pages are rendered for development.
    pub fn is_dev(&self) -> (r: bool)
        ensures
            r == self.dev(),
    {
        self.is_dev
    }
}

/// The context that the engine is given for a page with these entries.
fn context_of(entries: &Vec<Entry>, is_dev: bool) -> (context: tera::Context)
    ensures
        context_fields(context) == fields_for(views_of(entries@), is_dev),
{
    let mut context = context_new();
    let mut i: usize = 0;
    while i < entries.len()
        invariant
            i <= entries.len(),
            context_fields(context) == fields_of(views_of(entries@).take(i as int)),
        decreases entries.len() - i,
    {
        context_insert(&mut context, entries[i].name.as_str(), &entries[i].value);
        proof {
            assert(views_of(entries@).take(i + 1).drop_last() =~= views_of(entries@).take(
                i as int,
            ));
        }
        i = i + 1;
    }
    proof {
        assert(views_of(entries@).take(i as int) =~= views_of(entries@));
    }
    context_insert(&mut context, "env_is_dev", &Field::Flag(is_dev));
    context
}

/// The switches that the service sets: the document type is left alone,
/// scripts and styles are minified, comments are dropped.
pub fn minify_config() -> (config: MinifyConfig)
    ensures
        config == service_switches(),
{
    MinifyConfig {
        do_not_minify_doctype: true,
        minify_js: true,
        minify_css: true,
        keep_comments: false,
    }
}

/// What becomes of the engine's answer: its page with what is still to be
/// done with it, or its failure in its own words.
pub fn page_of(rendered: Result<String, String>, is_dev: bool) -> (r: Result<Page, RenderError>)
    ensures
        renders(r, answer_view(rendered), is_dev),
        rendered is Ok ==> r->Ok_0.text == rendered->Ok_0,
        rendered is Err ==> r->Err_0 == RenderError::Engine(rendered->Err_0),
{
    match rendered {
        Ok(text) => {
            let minify = if is_dev {
                None
            } else {
                Some(minify_config())
            };
            Ok(Page { text, minify })
        },
        Err(words) => Err(RenderError::Engine(words)),
    }
}

/// What becomes of the minifier's answer: its page, or the report that the
/// page was not valid UTF-8.
pub fn minified_page(minified: Result<String, std::string::FromUtf8Error>) -> (r: Result<
    String,
    RenderError,
>)
    ensures
        minified is Ok ==> r == Ok::<String, RenderError>(minified->Ok_0),
        minified is Err ==> r == Err::<String, RenderError>(RenderError::Encoding),
{
    match minified {
        Ok(page) => Ok(page),
        Err(_) => Err(RenderError::Encoding),
    }
}

/// Renders the template registered under `path` with the given entries and
/// the flag of development. The result is the engine's: its page, marked
/// for the minifier outside development, or its failure.
pub fn render_internal(templates: &Templates, path: &str, entries: &Vec<Entry>) -> (r: Result<
    Page,
    RenderError,
>)
    ensures
        renders(r, templates.page(path@, views_of(entries@)), templates.dev()),
{
    proof {
        use_type_invariant(templates);
    }
    let context = context_of(entries, templates.is_dev);
    page_of(engine_render(&templates.engine, path, &context), templates.is_dev)
}

/// A page: the variables that its template reads. A type that lists them
/// can be rendered.
pub trait AppTemplate: Sized {
    /// The variables of the page, in the order in which they are defined.
    spec fn entries(&self) -> Seq<(Seq<char>, FieldValue)>;

    /// Lists the variables of the page.
    fn to_entries(&self) -> (entries: Vec<Entry>)
        ensures
            views_of(entries@) == self.entries(),
    ;

    /// Renders the page with the template registered under `path`.
    fn render(self, templates: &Templates, path: &str) -> (r: Result<Page, RenderError>)
        ensures
            renders(r, templates.page(path@, self.entries()), templates.dev()),
    {
        let entries = self.to_entries();
        render_internal(templates, path, &entries)
    }
}

/// A name under which nothing is registered gives the engine's word that
/// there is no such template, whatever the entries.
pub proof fn lemma_missing_template(
    templates: Templates,
    name: Seq<char>,
    entries: Seq<(Seq<char>, FieldValue)>,
)
    requires
        !templates.names().contains(name),
    ensures
        templates.page(name, entries) == Err::<Seq<char>, Seq<char>>(missing_text(name)),
{
}

} // verus!
