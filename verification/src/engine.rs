//! The compiled-template store: a minijinja environment behind a verified
//! facade. Every call into minijinja goes through a trusted wrapper here, and
//! the store's contents are modelled as a map from template name to the
//! source text the template was compiled from.

use vstd::prelude::*;
use crate::text::str_views;

verus! {

#[verifier::external_type_specification]
#[verifier::external_body]
pub struct ExEnvironment<'a>(minijinja::Environment<'a>);

/// The environment type as this crate holds it: template sources are owned.
pub type TemplateEnv = minijinja::Environment<'static>;

#[verifier::external_type_specification]
#[verifier::external_body]
pub struct ExError(minijinja::Error);

#[verifier::external_type_specification]
#[verifier::external_body]
pub struct ExValue(serde_json::Value);

/// The set of undeclared variable paths that a template source reads, as
/// minijinja's static analysis reports them (dotted attribute chains
/// included): a function of the source text alone.
pub uninterp spec fn template_vars(source: Seq<char>) -> Set<Seq<char>>;

/// Whether minijinja's template compilation accepts a source text: under this
/// crate's fixed default syntax configuration, a deterministic function of
/// the source text alone.
pub uninterp spec fn source_compiles(source: Seq<char>) -> bool;

/// Relies on minijinja's `Environment::new`: a fresh environment stores no
/// templates, which is what a new [`Engine`]'s empty model claims of it.
#[verifier::external_body]
fn env_new() -> TemplateEnv {
    minijinja::Environment::new()
}

/// Relies on minijinja's `Environment::set_undefined_behavior`: it only sets
/// a rendering configuration flag and leaves the template store untouched.
#[verifier::external_body]
fn env_set_strict(env: &mut TemplateEnv) {
    env.set_undefined_behavior(minijinja::UndefinedBehavior::Strict);
}

/// Relies on minijinja's `Display` implementation for `Error`: the
/// human-readable message of an engine error.
#[verifier::external_body]
pub(crate) fn error_text(e: &minijinja::Error) -> (r: String) {
    e.to_string()
}

/// The compiled-template store. Its view is the map from template name to the
/// source text it was compiled from; templates enter it only through
/// compilation. Rendering is strict: an undefined variable at render time is
/// a render error.
pub struct Engine {
    env: TemplateEnv,
    templates: Ghost<Map<Seq<char>, Seq<char>>>,
}

impl View for Engine {
    type V = Map<Seq<char>, Seq<char>>;

    closed spec fn view(&self) -> Map<Seq<char>, Seq<char>> {
        self.templates@
    }
}

impl Engine {
    /// A fresh engine holding no compiled templates.
    pub fn new() -> (r: Engine)
        ensures
            r@ == Map::<Seq<char>, Seq<char>>::empty(),
    {
        let mut env = env_new();
        env_set_strict(&mut env);
        Engine { env, templates: Ghost(Map::empty()) }
    }

    /// Relies on minijinja's `Environment::add_template_owned`: it succeeds
    /// exactly when the source compiles — a deterministic parse of the source
    /// text under the environment's fixed default syntax configuration. On
    /// success the compiled template is stored under `name`, replacing any
    /// previous entry of that name; on a compile error it returns the
    /// engine's error and leaves the store unchanged (templates only ever
    /// enter this environment as owned strings, so its owned store is the
    /// whole store).
    #[verifier::external_body]
    pub(crate) fn add_template(&mut self, name: &String, source: &String) -> (r: Result<
        (),
        minijinja::Error,
    >)
        ensures
            r is Ok <==> source_compiles(source@),
            r is Ok ==> final(self)@ == old(self)@.insert(name@, source@),
            r is Err ==> final(self)@ == old(self)@,
    {
        self.env.add_template_owned(name.clone(), source.clone())
    }

    /// Relies on minijinja's `Environment::remove_template`: the entry stored
    /// under `name`, if any, is removed.
    #[verifier::external_body]
    pub(crate) fn remove_template(&mut self, name: &String)
        ensures
            final(self)@ == old(self)@.remove(name@),
    {
        self.env.remove_template(name);
    }

    /// Relies on minijinja's `Environment::get_template`: with no template
    /// loader configured it succeeds exactly for the stored names.
    #[verifier::external_body]
    pub(crate) fn has_template(&self, name: &String) -> (r: bool)
        ensures
            r == self@.contains_key(name@),
    {
        self.env.get_template(name).is_ok()
    }

    /// Relies on minijinja's `Environment::get_template` (which succeeds for
    /// a stored name) and `Template::undeclared_variables` with nesting
    /// enabled, a deterministic static analysis of the stored source text
    /// alone; the set is handed back in an unspecified order.
    #[verifier::external_body]
    pub(crate) fn undeclared_variables(&self, name: &String) -> (r: Vec<String>)
        requires
            self@.contains_key(name@),
        ensures
            str_views(r@).to_set() == template_vars(self@[name@]),
    {
        let tmpl = self.env.get_template(name).unwrap();
        tmpl.undeclared_variables(true).into_iter().collect()
    }

    /// Relies on minijinja's `Environment::get_template` (which succeeds for
    /// a stored name) and `Template::render`: the rendered text, or the
    /// engine's error. Nothing is promised of either outcome.
    #[verifier::external_body]
    pub(crate) fn try_render(&self, name: &String, context: &serde_json::Value) -> (r: Result<
        String,
        minijinja::Error,
    >)
        requires
            self@.contains_key(name@),
    {
        let tmpl = self.env.get_template(name).unwrap();
        tmpl.render(context)
    }
}

} // verus!
