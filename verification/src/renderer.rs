//! The renderer: a thin pass-through that looks a compiled template up by
//! name and asks the engine to substitute a runtime context into it.

use vstd::prelude::*;
use vstd::string::StringExecFns;
use crate::engine::{Engine, error_text};
use crate::errors::{RenderError, RenderErrorType};

verus! {

/// The prefix that a substitution failure's message carries before the
/// engine's own text.
pub open spec fn render_failure_prefix() -> Seq<char> {
    "Failed to render template: "@
}

/// Renders the compiled template stored under `name` against `context`.
/// `TemplateNotFound` comes exactly when no compiled template of that name is
/// stored — a name never compiled, or whose compilation failed; otherwise the
/// result is the engine's output text, or its substitution failure (an
/// undefined variable under strict rendering, a type mismatch) as a render
/// error. No re-validation against component schemas happens here.
pub fn render_template(engine: &Engine, name: &String, context: &serde_json::Value) -> (r: Result<
    String,
    RenderError,
>)
    ensures
        !engine@.contains_key(name@) <==> (r matches Err(e) && e.error_type
            is TemplateNotFound),
        !engine@.contains_key(name@) ==> (r matches Err(e) && e.message@ == "Template not found"@),
        r matches Err(e) ==> (e.error_type is TemplateNotFound || e.error_type is RenderError),
        r matches Err(e) ==> (e.error_type is RenderError ==> (exists|t: Seq<char>|
            e.message@ == render_failure_prefix() + t)),
{
    if !engine.has_template(name) {
        Err(
            RenderError {
                error_type: RenderErrorType::TemplateNotFound,
                message: String::from_str("Template not found"),
            },
        )
    } else {
        match engine.try_render(name, context) {
            Ok(text) => Ok(text),
            Err(err) => {
                let engine_message = error_text(&err);
                let mut m = String::from_str("Failed to render template: ");
                m.append(engine_message.as_str());
                proof {
                    assert(m@ == render_failure_prefix() + engine_message@);
                }
                Err(RenderError { error_type: RenderErrorType::RenderError, message: m })
            },
        }
    }
}

} // verus!
