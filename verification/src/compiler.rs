//! The template compiler: registers each submitted source with the engine,
//! extracts the variable paths it reads, and authorizes every one of them
//! against the template's declared components.

use vstd::prelude::*;
use vstd::string::StringExecFns;
use crate::engine::{Engine, template_vars, source_compiles, error_text};
use crate::errors::{CompileError, CompileErrorType, missing_deps_of, parse_missing_dependencies};
use crate::registry::Registry;
use crate::resolver::{var_is_authorized, unauthorized_message, validate_template_variables};
use crate::schema::Schema;
use crate::text::str_views;

verus! {

/// One submitted template: a unique name, its source text, and the names of
/// the components it declares as its data sources — the only data it is
/// permitted to read at render time.
#[derive(Clone)]
pub struct TemplateSource {
    pub name: String,
    pub source: String,
    pub components: Vec<String>,
}

/// The template store after the sources `ts` have been added in order: a
/// later source of the same name overwrites an earlier one.
pub open spec fn add_all(m: Map<Seq<char>, Seq<char>>, ts: Seq<TemplateSource>) -> Map<
    Seq<char>,
    Seq<char>,
>
    decreases ts.len(),
{
    if ts.len() == 0 {
        m
    } else {
        add_all(m, ts.drop_last()).insert(ts.last().name@, ts.last().source@)
    }
}

/// Every variable path the template's source reads is authorized by its
/// declared components.
pub open spec fn template_ok(reg: Map<Seq<char>, Schema>, t: TemplateSource) -> bool {
    forall|v: Seq<char>|
        #[trigger] template_vars(t.source@).contains(v) ==> var_is_authorized(
            reg,
            t.components@,
            v,
        )
}

/// The message of a compile error caused by the unauthorized variable `v`.
pub open spec fn validation_error_message(v: Seq<char>) -> Seq<char> {
    "Template validation error: "@ + unauthorized_message(v)
}

/// What holds of the store and the returned error when compilation fails at
/// the submitted source of index `k`: every earlier source compiled and was
/// authorized. An authorization failure strikes a source that compiles,
/// names an unauthorized variable, and leaves no template of that name
/// stored; a compile failure strikes exactly a source the engine does not
/// accept, leaves the store as it was before that source, and is classified
/// as a missing dependency exactly when its message reports names as not
/// found, and as a parse error otherwise.
pub open spec fn compile_failed_at(
    reg: Map<Seq<char>, Schema>,
    m0: Map<Seq<char>, Seq<char>>,
    m1: Map<Seq<char>, Seq<char>>,
    ts: Seq<TemplateSource>,
    e: CompileError,
    k: int,
) -> bool {
    &&& 0 <= k < ts.len()
    &&& (forall|j: int| 0 <= j < k ==> source_compiles(ts[j].source@) && template_ok(reg, ts[j]))
    &&& if e.error_type is SchemaValidationError {
        &&& source_compiles(ts[k].source@)
        &&& !template_ok(reg, ts[k])
        &&& (exists|v: Seq<char>|
            {
                &&& #[trigger] template_vars(ts[k].source@).contains(v)
                &&& !var_is_authorized(reg, ts[k].components@, v)
                &&& e.message@ == validation_error_message(v)
            })
        &&& e.missing_dependencies is None
        &&& m1 == add_all(m0, ts.take(k)).remove(ts[k].name@)
    } else {
        &&& !source_compiles(ts[k].source@)
        &&& (match e.missing_dependencies {
            Some(d) => e.error_type is MissingDependency && missing_deps_of(e.message@) == Some(
                str_views(d@),
            ),
            None => e.error_type is ParseError && missing_deps_of(e.message@) is None,
        })
        &&& m1 == add_all(m0, ts.take(k))
    }
}

/// Compiles each submitted template, in the order submitted: registers its
/// source with the engine, extracts the variable paths it reads, and checks
/// each against the declared components. The first failure aborts the batch
/// with a structured error; templates compiled before the failing one remain
/// stored, and a template whose variables fail authorization is not stored.
pub fn compile_templates(
    registry: &Registry,
    engine: &mut Engine,
    templates: &Vec<TemplateSource>,
) -> (r: Result<(), CompileError>)
    ensures
        r is Ok ==> final(engine)@ == add_all(old(engine)@, templates@),
        r is Ok ==> (forall|i: int|
            0 <= i < templates@.len() ==> source_compiles(templates@[i].source@) && template_ok(
                registry@,
                templates@[i],
            )),
        r matches Err(e) ==> (exists|k: int|
            compile_failed_at(registry@, old(engine)@, final(engine)@, templates@, e, k)),
{
    let mut idx: usize = 0;
    while idx < templates.len()
        invariant
            0 <= idx <= templates@.len(),
            engine@ == add_all(old(engine)@, templates@.take(idx as int)),
            forall|j: int|
                0 <= j < idx ==> source_compiles(templates@[j].source@) && template_ok(
                    registry@,
                    templates@[j],
                ),
        decreases templates@.len() - idx,
    {
        let t = &templates[idx];
        match engine.add_template(&t.name, &t.source) {
            Ok(()) => {
                let vars = engine.undeclared_variables(&t.name);
                let ghost vset = template_vars(t.source@);
                proof {
                    assert(engine@[t.name@] == t.source@);
                    assert(str_views(vars@).to_set() == vset);
                }
                match validate_template_variables(registry, &t.components, &vars) {
                    Ok(()) => {
                        proof {
                            assert forall|v: Seq<char>| #[trigger]
                                vset.contains(v) implies var_is_authorized(
                                registry@,
                                t.components@,
                                v,
                            ) by {
                                assert(str_views(vars@).contains(v));
                                let i = choose|i: int|
                                    0 <= i < str_views(vars@).len() && str_views(vars@)[i] == v;
                                assert(vars@[i]@ == v);
                            };
                            assert(templates@.take(idx + 1 as int).drop_last() =~= templates@.take(
                                idx as int,
                            ));
                            assert(templates@.take(idx + 1 as int).last() == templates@[idx as int]);
                        }
                        idx = idx + 1;
                    },
                    Err(msg) => {
                        engine.remove_template(&t.name);
                        let mut full = String::from_str("Template validation error: ");
                        full.append(msg.as_str());
                        let e = CompileError {
                            error_type: CompileErrorType::SchemaValidationError,
                            message: full,
                            missing_dependencies: None,
                        };
                        proof {
                            let k = choose|k: int|
                                {
                                    &&& 0 <= k < vars@.len()
                                    &&& !var_is_authorized(registry@, t.components@, vars@[k]@)
                                    &&& (forall|j: int|
                                        0 <= j < k ==> var_is_authorized(
                                            registry@,
                                            t.components@,
                                            vars@[j]@,
                                        ))
                                    &&& msg@ == unauthorized_message(vars@[k]@)
                                };
                            let v = vars@[k]@;
                            assert(str_views(vars@)[k] == v);
                            assert(str_views(vars@).contains(v));
                            assert(vset.contains(v));
                            assert(e.message@ =~= validation_error_message(v));
                            assert(engine@ =~= add_all(
                                old(engine)@,
                                templates@.take(idx as int),
                            ).remove(t.name@));
                            assert(compile_failed_at(
                                registry@,
                                old(engine)@,
                                engine@,
                                templates@,
                                e,
                                idx as int,
                            ));
                        }
                        return Err(e);
                    },
                }
            },
            Err(err) => {
                let text = error_text(&err);
                let deps = parse_missing_dependencies(text.as_str());
                let e = match deps {
                    Some(d) => CompileError {
                        error_type: CompileErrorType::MissingDependency,
                        message: text,
                        missing_dependencies: Some(d),
                    },
                    None => CompileError {
                        error_type: CompileErrorType::ParseError,
                        message: text,
                        missing_dependencies: None,
                    },
                };
                proof {
                    assert(compile_failed_at(
                        registry@,
                        old(engine)@,
                        engine@,
                        templates@,
                        e,
                        idx as int,
                    ));
                }
                return Err(e);
            },
        }
    }
    proof {
        assert(templates@.take(templates@.len() as int) =~= templates@);
    }
    Ok(())
}

/// A template whose variables failed authorization is absent from the store
/// its failed batch leaves behind, so rendering its name afterwards finds no
/// compiled template — just as a name never submitted is found in no store
/// that never had it added.
pub proof fn lemma_failed_compilation_not_stored(
    reg: Map<Seq<char>, Schema>,
    m0: Map<Seq<char>, Seq<char>>,
    m1: Map<Seq<char>, Seq<char>>,
    ts: Seq<TemplateSource>,
    e: CompileError,
    k: int,
)
    requires
        compile_failed_at(reg, m0, m1, ts, e, k),
        e.error_type is SchemaValidationError,
    ensures
        !m1.contains_key(ts[k].name@),
{
}

/// Compiling the same template name twice replaces the first compilation:
/// submitting both sources leaves the store exactly as submitting only the
/// second would, and the second source is the one a later lookup — and so
/// rendering — sees under that name.
pub proof fn lemma_recompile_overwrites(
    m: Map<Seq<char>, Seq<char>>,
    t1: TemplateSource,
    t2: TemplateSource,
)
    requires
        t1.name@ == t2.name@,
    ensures
        add_all(m, seq![t1, t2]) == add_all(m, seq![t2]),
        add_all(m, seq![t1, t2])[t2.name@] == t2.source@,
{
    assert(seq![t1, t2].drop_last() =~= seq![t1]);
    assert(seq![t1].drop_last() =~= Seq::<TemplateSource>::empty());
    assert(seq![t2].drop_last() =~= Seq::<TemplateSource>::empty());
    assert(seq![t1, t2].last() == t2);
    assert(seq![t1].last() == t1);
    assert(seq![t2].last() == t2);
    assert(add_all(m, Seq::<TemplateSource>::empty()) == m);
    assert(add_all(m, seq![t1]) == m.insert(t1.name@, t1.source@));
    assert(add_all(m, seq![t1, t2]) == m.insert(t1.name@, t1.source@).insert(
        t2.name@,
        t2.source@,
    ));
    assert(add_all(m, seq![t2]) == m.insert(t2.name@, t2.source@));
    assert(m.insert(t1.name@, t1.source@).insert(t2.name@, t2.source@) =~= m.insert(
        t2.name@,
        t2.source@,
    ));
}

} // verus!
