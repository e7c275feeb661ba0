//! The error taxonomy of compilation and rendering, and the adapter that
//! classifies an engine message as an unresolved-reference error.

use vstd::prelude::*;
use crate::text::{find_pat_from, split_str, trim_str, split_on, trim_spec, contains_pat, str_views};

verus! {

/// What went wrong while compiling a template.
#[derive(Clone, Copy, PartialEq, Eq, Structural, Debug)]
pub enum CompileErrorType {
    /// The template syntax could not be parsed (and the engine's message
    /// names no missing reference).
    ParseError,
    /// The template references targets the engine reported as not found.
    MissingDependency,
    /// Any other engine-reported compile failure.
    CompileError,
    /// A variable the template reads is not authorized by its components.
    SchemaValidationError,
}

/// A structured compile error.
#[derive(Debug)]
pub struct CompileError {
    pub error_type: CompileErrorType,
    pub message: String,
    /// The names the engine reported as unresolved, when `error_type` is
    /// `MissingDependency`.
    pub missing_dependencies: Option<Vec<String>>,
}

/// What went wrong while rendering a template.
#[derive(Clone, Copy, PartialEq, Eq, Structural, Debug)]
pub enum RenderErrorType {
    /// No compiled template of the requested name exists.
    TemplateNotFound,
    /// The supplied context could not be deserialized.
    ParseError,
    /// The engine failed during substitution.
    RenderError,
}

/// A structured render error.
#[derive(Debug)]
pub struct RenderError {
    pub error_type: RenderErrorType,
    pub message: String,
}

/// The marker by which the engine's message reveals an unresolved reference.
pub open spec fn not_found_marker() -> Seq<char> {
    "not found"@
}

/// The pieces of a message around the marker, trimmed, with empty pieces
/// dropped: the names reported missing.
pub open spec fn kept_pieces(pieces: Seq<Seq<char>>) -> Seq<Seq<char>>
    decreases pieces.len(),
{
    if pieces.len() == 0 {
        Seq::empty()
    } else {
        let rest = kept_pieces(pieces.drop_last());
        let t = trim_spec(pieces.last());
        if t.len() > 0 {
            rest.push(t)
        } else {
            rest
        }
    }
}

/// The missing-dependency names carried by an engine message: present exactly
/// when the message holds the marker, and then the trimmed non-empty pieces
/// of the message split on the marker.
pub open spec fn missing_deps_of(msg: Seq<char>) -> Option<Seq<Seq<char>>> {
    if contains_pat(msg, not_found_marker()) {
        Some(kept_pieces(split_on(msg, not_found_marker())))
    } else {
        None
    }
}

/// Classifies an engine compile message: when it holds the marker, the names
/// it reports as unresolved; otherwise nothing. This pins the exact
/// substring-splitting behaviour of the adapter.
pub fn parse_missing_dependencies(message: &str) -> (r: Option<Vec<String>>)
    ensures
        match r {
            Some(deps) => missing_deps_of(message@) == Some(str_views(deps@)),
            None => missing_deps_of(message@) is None,
        },
{
    proof {
        reveal_strlit("not found");
    }
    match find_pat_from(message, "not found", 0) {
        None => None,
        Some(_) => {
            let pieces = split_str(message, "not found");
            let mut deps: Vec<String> = Vec::new();
            let mut i: usize = 0;
            while i < pieces.len()
                invariant
                    0 <= i <= pieces@.len(),
                    str_views(deps@) == kept_pieces(str_views(pieces@).take(i as int)),
                    str_views(pieces@) == split_on(message@, not_found_marker()),
                decreases pieces@.len() - i,
            {
                let t = trim_str(pieces[i].as_str());
                proof {
                    assert(str_views(pieces@).take(i + 1 as int).drop_last() =~= str_views(
                        pieces@,
                    ).take(i as int));
                    assert(str_views(pieces@).take(i + 1 as int).last() == pieces@[i as int]@);
                }
                if t.as_str().unicode_len() > 0 {
                    proof {
                        assert(str_views(deps@.push(t)) =~= str_views(deps@).push(t@));
                    }
                    deps.push(t);
                }
                i = i + 1;
            }
            proof {
                assert(str_views(pieces@).take(pieces@.len() as int) =~= str_views(pieces@));
            }
            Some(deps)
        },
    }
}

} // verus!
