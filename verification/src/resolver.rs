//! The variable path resolver: decides whether the dotted variable paths a
//! template reads are reachable through the `properties` nesting of its
//! declared components' schemas.

use vstd::prelude::*;
use vstd::string::StringExecFns;
use crate::registry::Registry;
use crate::schema::{Schema, Property, lookup_prop, schema_authorizes, authorized_by_any};
use crate::text::{split_str, split_on, str_views};

verus! {

/// The separator of a dotted variable path.
pub open spec fn path_separator() -> Seq<char> {
    "."@
}

/// The schemas of the declared components that are present in the registry,
/// in declaration order; a component name not found in the registry is
/// skipped rather than failing.
pub open spec fn resolved_schemas(reg: Map<Seq<char>, Schema>, components: Seq<String>) -> Seq<
    Schema,
>
    decreases components.len(),
{
    if components.len() == 0 {
        Seq::empty()
    } else {
        let rest = resolved_schemas(reg, components.drop_last());
        if reg.contains_key(components.last()@) {
            rest.push(reg[components.last()@])
        } else {
            rest
        }
    }
}

/// Whether the dotted variable path `v` is authorized by the components
/// `components` under the registered schemas `reg`.
pub open spec fn var_is_authorized(
    reg: Map<Seq<char>, Schema>,
    components: Seq<String>,
    v: Seq<char>,
) -> bool {
    authorized_by_any(split_on(v, path_separator()), resolved_schemas(reg, components))
}

/// The message naming an unauthorized variable.
pub open spec fn unauthorized_message(v: Seq<char>) -> Seq<char> {
    "Variable '"@ + v + "' is not allowed by schema"@
}

proof fn lemma_lookup_prop_skip(props: Seq<Property>, key: Seq<char>, i: int)
    requires
        0 <= i <= props.len(),
        forall|j: int| 0 <= j < i ==> props[j].key@ != key,
    ensures
        lookup_prop(props, key) == lookup_prop(props.skip(i), key),
    decreases i,
{
    if i == 0 {
        assert(props.skip(0) =~= props);
    } else {
        assert(props.drop_first().skip(i - 1) =~= props.skip(i));
        lemma_lookup_prop_skip(props.drop_first(), key, i - 1);
    }
}

/// The first property of `props` named `key`, if any.
fn find_property<'a>(props: &'a Vec<Property>, key: &String) -> (r: Option<&'a Property>)
    ensures
        match r {
            Some(p) => lookup_prop(props@, key@) == Some(p.schema),
            None => lookup_prop(props@, key@) is None,
        },
{
    let mut i: usize = 0;
    while i < props.len()
        invariant
            0 <= i <= props@.len(),
            forall|j: int| 0 <= j < i ==> props@[j].key@ != key@,
        decreases props@.len() - i,
    {
        if props[i].key.eq(key) {
            proof {
                lemma_lookup_prop_skip(props@, key@, i as int);
                assert(props@.skip(i as int)[0] == props@[i as int]);
            }
            return Some(&props[i]);
        }
        i = i + 1;
    }
    proof {
        lemma_lookup_prop_skip(props@, key@, props@.len() as int);
        assert(props@.skip(props@.len() as int) =~= Seq::<Property>::empty());
    }
    None
}

/// Whether the segments of `path` from index `from` on are reachable through
/// nested `properties` of `s`.
fn path_in_schema(s: &Schema, path: &Vec<String>, from: usize) -> (r: bool)
    requires
        from < path@.len(),
    ensures
        r == schema_authorizes(*s, str_views(path@).subrange(from as int, path@.len() as int)),
    decreases path@.len() - from,
{
    let ghost p = str_views(path@).subrange(from as int, path@.len() as int);
    proof {
        assert(p[0] == path@[from as int]@);
    }
    match s {
        Schema::Leaf => false,
        Schema::Object { properties } => {
            let n = path.len();
            match find_property(properties, &path[from]) {
                None => false,
                Some(prop) => {
                    if from + 1 == n {
                        true
                    } else {
                        let r = path_in_schema(&prop.schema, path, from + 1);
                        proof {
                            assert(str_views(path@).subrange(
                                from + 1 as int,
                                path@.len() as int,
                            ) =~= p.drop_first());
                        }
                        r
                    }
                },
            }
        },
    }
}

/// Whether `path` is reachable through the `properties` nesting of at least
/// one of `schemas`: a logical OR across the candidate schemas.
pub fn is_authorized(path: &Vec<String>, schemas: &Vec<Schema>) -> (r: bool)
    ensures
        r == authorized_by_any(str_views(path@), schemas@),
{
    if path.len() == 0 {
        proof {
            assert(forall|j: int|
                0 <= j < schemas@.len() ==> !schema_authorizes(schemas@[j], str_views(path@)));
        }
        return false;
    }
    let mut i: usize = 0;
    while i < schemas.len()
        invariant
            0 <= i <= schemas@.len(),
            path@.len() > 0,
            forall|j: int| 0 <= j < i ==> !schema_authorizes(schemas@[j], str_views(path@)),
        decreases schemas@.len() - i,
    {
        let hit = path_in_schema(&schemas[i], path, 0);
        proof {
            assert(str_views(path@).subrange(0, path@.len() as int) =~= str_views(path@));
        }
        if hit {
            return true;
        }
        i = i + 1;
    }
    false
}

/// A component of `components` whose registered schema authorizes `path`
/// makes the whole declaration authorize it.
proof fn lemma_component_authorizes(
    reg: Map<Seq<char>, Schema>,
    components: Seq<String>,
    path: Seq<Seq<char>>,
    i: int,
)
    requires
        0 <= i < components.len(),
        reg.contains_key(components[i]@),
        schema_authorizes(reg[components[i]@], path),
    ensures
        authorized_by_any(path, resolved_schemas(reg, components)),
    decreases components.len(),
{
    let rest = components.drop_last();
    let rs = resolved_schemas(reg, rest);
    if i == components.len() - 1 {
        assert(resolved_schemas(reg, components)[rs.len() as int] == reg[components[i]@]);
    } else {
        assert(rest[i] == components[i]);
        lemma_component_authorizes(reg, rest, path, i);
        let j = choose|j: int| 0 <= j < rs.len() && schema_authorizes(rs[j], path);
        if reg.contains_key(components.last()@) {
            assert(resolved_schemas(reg, components)[j] == rs[j]);
        }
    }
}

/// A variable path reachable through the nested `properties` of the schema
/// registered under a component name is authorized by a declaration of that
/// component alone.
pub proof fn lemma_registered_component_authorizes(
    reg: Map<Seq<char>, Schema>,
    c: String,
    v: Seq<char>,
)
    requires
        reg.contains_key(c@),
        schema_authorizes(reg[c@], split_on(v, path_separator())),
    ensures
        var_is_authorized(reg, seq![c], v),
{
    assert(seq![c][0] == c);
    lemma_component_authorizes(reg, seq![c], split_on(v, path_separator()), 0);
}

/// Authorization is a logical OR over the declared components: a variable
/// path authorized under a declaration of `b` alone stays authorized when a
/// template declares `a` and `b` together, whether or not `a` authorizes it.
pub proof fn lemma_declared_components_or(
    reg: Map<Seq<char>, Schema>,
    a: String,
    b: String,
    v: Seq<char>,
)
    requires
        var_is_authorized(reg, seq![b], v),
    ensures
        var_is_authorized(reg, seq![a, b], v),
{
    let path = split_on(v, path_separator());
    let rb = resolved_schemas(reg, seq![b]);
    let j = choose|j: int| 0 <= j < rb.len() && schema_authorizes(rb[j], path);
    assert(seq![b].drop_last() =~= Seq::<String>::empty());
    assert(seq![b].last() == b);
    assert(resolved_schemas(reg, Seq::<String>::empty()) =~= Seq::<Schema>::empty());
    assert(reg.contains_key(b@));
    assert(rb[j] == reg[b@]);
    assert(seq![a, b][1] == b);
    lemma_component_authorizes(reg, seq![a, b], path, 1);
}

/// Whether the dotted path `path` (already split into segments) is authorized
/// by `components` under the schemas registered in `registry`.
fn var_authorized(registry: &Registry, components: &Vec<String>, path: &Vec<String>) -> (r: bool)
    ensures
        r == authorized_by_any(str_views(path@), resolved_schemas(registry@, components@)),
{
    let ghost p = str_views(path@);
    if path.len() == 0 {
        proof {
            let rs = resolved_schemas(registry@, components@);
            assert(forall|j: int| 0 <= j < rs.len() ==> !schema_authorizes(rs[j], p));
        }
        return false;
    }
    let mut i: usize = 0;
    while i < components.len()
        invariant
            0 <= i <= components@.len(),
            path@.len() > 0,
            p == str_views(path@),
            !authorized_by_any(p, resolved_schemas(registry@, components@.take(i as int))),
        decreases components@.len() - i,
    {
        let mut hit = false;
        match registry.lookup(&components[i]) {
            Some(schema) => {
                hit = path_in_schema(schema, path, 0);
                proof {
                    assert(str_views(path@).subrange(0, path@.len() as int) =~= p);
                }
            },
            None => {},
        }
        if hit {
            proof {
                lemma_component_authorizes(registry@, components@, p, i as int);
            }
            return true;
        }
        proof {
            assert(components@.take(i + 1 as int).drop_last() =~= components@.take(i as int));
            let rs = resolved_schemas(registry@, components@.take(i as int));
            let full = resolved_schemas(registry@, components@.take(i + 1 as int));
            if registry@.contains_key(components@[i as int]@) {
                assert forall|j: int| 0 <= j < full.len() implies !schema_authorizes(
                    full[j],
                    p,
                ) by {
                    if j < rs.len() {
                        assert(full[j] == rs[j]);
                        assert(!schema_authorizes(rs[j], p));
                    } else {
                        assert(full[j] == registry@[components@[i as int]@]);
                    }
                }
            } else {
                assert(full =~= rs);
            }
        }
        i = i + 1;
    }
    proof {
        assert(components@.take(components@.len() as int) =~= components@);
    }
    false
}

/// Checks every variable path of `vars` against the declared `components`:
/// returns `Ok` exactly when each one is authorized, and otherwise an error
/// naming the first unauthorized variable, in the order `vars` stand.
pub fn validate_template_variables(
    registry: &Registry,
    components: &Vec<String>,
    vars: &Vec<String>,
) -> (r: Result<(), String>)
    ensures
        r is Ok <==> (forall|i: int|
            0 <= i < vars@.len() ==> var_is_authorized(registry@, components@, vars@[i]@)),
        r matches Err(m) ==> (exists|k: int|
            {
                &&& 0 <= k < vars@.len()
                &&& !var_is_authorized(registry@, components@, vars@[k]@)
                &&& (forall|j: int|
                    0 <= j < k ==> var_is_authorized(registry@, components@, vars@[j]@))
                &&& m@ == unauthorized_message(vars@[k]@)
            }),
{
    let mut i: usize = 0;
    while i < vars.len()
        invariant
            0 <= i <= vars@.len(),
            forall|j: int| 0 <= j < i ==> var_is_authorized(registry@, components@, vars@[j]@),
        decreases vars@.len() - i,
    {
        let var = &vars[i];
        proof {
            reveal_strlit(".");
        }
        let path = split_str(var.as_str(), ".");
        if !var_authorized(registry, components, &path) {
            let mut m = String::from_str("Variable '");
            m.append(var.as_str());
            m.append("' is not allowed by schema");
            proof {
                assert(m@ =~= unauthorized_message(vars@[i as int]@));
            }
            return Err(m);
        }
        i = i + 1;
    }
    Ok(())
}

} // verus!
