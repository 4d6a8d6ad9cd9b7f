//! Prompt rendering: a named template string is rendered against one
//! placeholder/value pair, and a templating failure degrades to the empty
//! string rather than aborting the flow.

use vstd::prelude::*;

use crate::text::spec_contains;

verus! {

#[verifier::external_type_specification]
#[verifier::external_body]
pub struct ExTeraError(tera::Error);

/// What rendering `template` against the single binding `key = value`
/// produces: the rendered text, or `None` on a templating error. Defined
/// only up to what the trusted renderer states of it.
pub uninterp spec fn rendered_of(template: Seq<char>, key: Seq<char>, value: Seq<char>) -> Option<
    Seq<char>,
>;

/// The rendering, with a templating error collapsed to the empty string.
pub open spec fn spec_rendered_or_empty(
    template: Seq<char>,
    key: Seq<char>,
    value: Seq<char>,
) -> Seq<char> {
    match rendered_of(template, key, value) {
        Some(s) => s,
        None => Seq::<char>::empty(),
    }
}

/// A template whose text never names the environment-reading template
/// function renders the same way on every machine.
pub open spec fn spec_self_contained_template(template: Seq<char>) -> bool {
    !spec_contains(template, "get_env"@)
}

/// Relies on tera::Tera::one_off: parses and renders the template against
/// a one-entry context. The time- and randomness-backed template functions
/// are not compiled in, so for a template that does not name `get_env` the
/// outcome depends on the template, key and value alone.
#[verifier::external_body]
pub fn format_prompt(template: &str, key: &str, value: &str) -> (r: Result<String, tera::Error>)
    ensures
        spec_self_contained_template(template@) ==> (match r {
            Ok(s) => rendered_of(template@, key@, value@) == Some(s@),
            Err(_) => rendered_of(template@, key@, value@) is None,
        }),
{
    let mut context = tera::Context::new();
    context.insert(key, value);
    tera::Tera::one_off(template, &context, false)
}

/// Renders the template, treating a templating failure as the empty
/// string: a degraded prompt, never an abort.
pub fn format_prompt_or_empty(template: &str, key: &str, value: &str) -> (r: String)
    ensures
        spec_self_contained_template(template@) ==> r@ == spec_rendered_or_empty(
            template@,
            key@,
            value@,
        ),
{
    match format_prompt(template, key, value) {
        Ok(s) => s,
        Err(_) => String::new(),
    }
}

} // verus!
