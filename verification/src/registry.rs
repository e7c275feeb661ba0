//! The component schema registry: a process-wide mapping from component name
//! to its declared schema, owned by the caller and passed to every operation.

use vstd::prelude::*;
use crate::schema::Schema;

verus! {

/// One registered component: its name and its declared schema.
pub struct RegistryEntry {
    pub name: String,
    pub schema: Schema,
}

/// The mapping that a sequence of registrations denotes: a later registration
/// of the same name overwrites an earlier one.
pub open spec fn entries_map(s: Seq<RegistryEntry>) -> Map<Seq<char>, Schema>
    decreases s.len(),
{
    if s.len() == 0 {
        Map::empty()
    } else {
        entries_map(s.drop_last()).insert(s.last().name@, s.last().schema)
    }
}

/// The component schema registry. Pure storage and lookup: components are
/// registered for the lifetime of the registry and never removed.
pub struct Registry {
    entries: Vec<RegistryEntry>,
}

impl View for Registry {
    type V = Map<Seq<char>, Schema>;

    closed spec fn view(&self) -> Map<Seq<char>, Schema> {
        entries_map(self.entries@)
    }
}

proof fn lemma_entries_map_match(s: Seq<RegistryEntry>, name: Seq<char>, i: int)
    requires
        0 <= i < s.len(),
        s[i].name@ == name,
        forall|j: int| i < j < s.len() ==> s[j].name@ != name,
    ensures
        entries_map(s).contains_key(name),
        entries_map(s)[name] == s[i].schema,
    decreases s.len(),
{
    if i < s.len() - 1 {
        lemma_entries_map_match(s.drop_last(), name, i);
    }
}

proof fn lemma_entries_map_no_match(s: Seq<RegistryEntry>, name: Seq<char>)
    requires
        forall|j: int| 0 <= j < s.len() ==> s[j].name@ != name,
    ensures
        !entries_map(s).contains_key(name),
    decreases s.len(),
{
    if s.len() > 0 {
        lemma_entries_map_no_match(s.drop_last(), name);
    }
}

impl Registry {
    /// An empty registry.
    pub fn new() -> (r: Registry)
        ensures
            r@ == Map::<Seq<char>, Schema>::empty(),
    {
        Registry { entries: Vec::new() }
    }

    /// Looks up the schema registered under `name`, if any. A pure read.
    pub fn lookup(&self, name: &String) -> (r: Option<&Schema>)
        ensures
            match r {
                Some(schema) => self@.contains_key(name@) && *schema == self@[name@],
                None => !self@.contains_key(name@),
            },
    {
        let n = self.entries.len();
        let mut i: usize = n;
        while i > 0
            invariant
                i <= n,
                n == self.entries@.len(),
                forall|j: int| i <= j < n ==> self.entries@[j].name@ != name@,
            decreases i,
        {
            i = i - 1;
            if self.entries[i].name.eq(name) {
                proof {
                    lemma_entries_map_match(self.entries@, name@, i as int);
                }
                return Some(&self.entries[i].schema);
            }
        }
        proof {
            lemma_entries_map_no_match(self.entries@, name@);
        }
        None
    }
}

/// Structural validation of a schema before registration. Every schema of the
/// [`Schema`] shape is structurally valid, so this accepts all of them; it is
/// the seam where a richer structural validator would sit.
fn validate_schema(schema: &Schema) -> (r: Result<(), String>)
    ensures
        r is Ok,
{
    let _ = schema;
    Ok(())
}

/// Registers `schema` under `name`, overwriting any earlier registration of
/// the same name. An invalid schema would leave the registry unchanged and
/// return the validation message; every structurally well-formed schema is
/// accepted.
pub fn register_component(registry: &mut Registry, name: String, schema: Schema) -> (r: Result<
    (),
    String,
>)
    ensures
        r is Ok,
        final(registry)@ == old(registry)@.insert(name@, schema),
{
    match validate_schema(&schema) {
        Ok(()) => {
            let ghost entries0 = registry.entries@;
            registry.entries.push(RegistryEntry { name, schema });
            proof {
                assert(registry.entries@.drop_last() =~= entries0);
            }
            Ok(())
        },
        Err(e) => Err(e),
    }
}

} // verus!
