//! Component schemas, reduced to the shape that authorization reads.

use vstd::prelude::*;

verus! {

/// A schema node: either an object carrying a `properties` map, or any other
/// kind of node (a leaf as far as path authorization is concerned).
pub enum Schema {
    Object { properties: Vec<Property> },
    Leaf,
}

/// One entry of a `properties` map: a property name and its schema.
pub struct Property {
    pub key: String,
    pub schema: Schema,
}

/// The schema of the first property named `key` among `props`, if any.
pub open spec fn lookup_prop(props: Seq<Property>, key: Seq<char>) -> Option<Schema>
    decreases props.len(),
{
    if props.len() == 0 {
        None
    } else if props[0].key@ == key {
        Some(props[0].schema)
    } else {
        lookup_prop(props.drop_first(), key)
    }
}

/// Whether `path` is a key chain reachable through nested `properties` of `s`:
/// every segment must name a property of the current object node, descending
/// into that property's schema, until the final segment, which only needs to
/// be present as a key (its own schema may have any shape).
pub open spec fn schema_authorizes(s: Schema, path: Seq<Seq<char>>) -> bool
    decreases path.len(),
{
    path.len() > 0 && match s {
        Schema::Object { properties } => match lookup_prop(properties@, path[0]) {
            Some(child) => path.len() == 1 || schema_authorizes(child, path.drop_first()),
            None => false,
        },
        Schema::Leaf => false,
    }
}

/// Whether at least one schema among `schemas` authorizes `path`.
pub open spec fn authorized_by_any(path: Seq<Seq<char>>, schemas: Seq<Schema>) -> bool {
    exists|i: int| 0 <= i < schemas.len() && schema_authorizes(schemas[i], path)
}

/// A path reachable through one schema's nested `properties` is authorized
/// when that schema is the only candidate.
pub proof fn lemma_reachable_path_is_authorized(s: Schema, path: Seq<Seq<char>>)
    requires
        schema_authorizes(s, path),
    ensures
        authorized_by_any(path, seq![s]),
{
    assert(seq![s][0] == s);
}

/// Authorization is a logical OR over the candidate schemas: a path authorized
/// by any one schema of the list is authorized for the whole list.
pub proof fn lemma_authorization_is_or(path: Seq<Seq<char>>, schemas: Seq<Schema>, i: int)
    requires
        0 <= i < schemas.len(),
        schema_authorizes(schemas[i], path),
    ensures
        authorized_by_any(path, schemas),
{
}

} // verus!
