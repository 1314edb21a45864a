//! The handlebars engine, as far as this library relies on it.
//!
//! Nothing in this file is proved. Each item states what the `handlebars`
//! crate does, and the rest of the library is verified against these
//! statements.

use crate::note::{Note, NoteView};
use crate::partials::includes_partial;
use handlebars::{to_json, Handlebars, JsonValue};
use std::collections::BTreeMap;
use vstd::prelude::*;

verus! {

/// `handlebars::Handlebars`, the registry of compiled templates.
#[verifier::external_type_specification]
#[verifier::external_body]
pub struct ExHandlebars<'reg>(handlebars::Handlebars<'reg>);

/// `handlebars::TemplateError`, raised when a template does not compile.
#[verifier::external_type_specification]
#[verifier::external_body]
pub struct ExTemplateError(handlebars::TemplateError);

/// `handlebars::RenderError`, raised when rendering fails.
#[verifier::external_type_specification]
#[verifier::external_body]
pub struct ExRenderError(handlebars::RenderError);

/// The templates a registry holds: each registered name with the source text
/// it was compiled from.
pub uninterp spec fn registry_templates(registry: Handlebars<'static>) -> Map<Seq<char>, Seq<char>>;

/// Whether a registry is set up as `Handlebars::new` leaves it: the built-in
/// helpers and the `inline` decorator, HTML escaping, and strict mode, dev
/// mode and indent prevention all off.
pub uninterp spec fn has_default_setup(registry: Handlebars<'static>) -> bool;

/// Whether `source` is a template as handlebars reads it: its grammar takes
/// the text, every block closes under the name it was opened with, and every
/// literal parameter is valid JSON. This is a matter of the text alone.
/// Compiling is not: the parser also gives up where it finds too little stack
/// left, or a call budget used up, and then turns down a source that is a
/// template.
pub uninterp spec fn is_well_formed(source: Seq<char>) -> bool;

/// The text a registry in its default setup renders from the template
/// compiled from `source`, for a note handed over as a JSON object with the
/// members `template`, `filename`, `title`, `content` (strings) and `tags` (an
/// array of strings). `None` where rendering fails. Only meant for a `source`
/// that is well-formed and includes no partial.
pub uninterp spec fn rendered_text(source: Seq<char>, note: NoteView) -> Option<Seq<char>>;

/// `Handlebars::new`: a registry with no template in it, in its default
/// setup.
#[verifier::external_body]
pub(crate) fn new_registry() -> (registry: Handlebars<'static>)
    ensures
        forall|name: Seq<char>| !registry_templates(registry).contains_key(name),
        has_default_setup(registry),
{
    Handlebars::new()
}

/// `Handlebars::register_template_string`: compiles `source` and, where that
/// succeeds, stores it under `name`, replacing what was there. It succeeds
/// only on a source that is a template by the grammar; that it succeeds on
/// every such source is not claimed. On failure the registry is as it was.
/// The setup is never touched.
#[verifier::external_body]
pub(crate) fn register_template_string(
    registry: &mut Handlebars<'static>,
    name: &str,
    source: &str,
) -> (outcome: Result<(), handlebars::TemplateError>)
    ensures
        outcome is Ok ==> is_well_formed(source@),
        outcome is Ok ==> registry_templates(*final(registry)) == registry_templates(
            *old(registry),
        ).insert(name@, source@),
        outcome is Err ==> registry_templates(*final(registry)) == registry_templates(
            *old(registry),
        ),
        has_default_setup(*final(registry)) == has_default_setup(*old(registry)),
{
    registry.register_template_string(name, source)
}

/// `Handlebars::render`: renders the template registered under `name` on the
/// fields of `note`. It fails where no template has that name. Otherwise the
/// outcome is a function of the template's source and the note's fields:
/// with no partial included, rendering reaches no other template.
///
/// A template that includes a partial is kept out: handlebars follows an
/// include that leads back to where it stands without end, be it to an
/// inline partial or to the template itself from inside or after a block.
/// How deep a template may nest before the stack runs out is the machine's
/// matter and not stated.
#[verifier::external_body]
pub(crate) fn render_registered(
    registry: &Handlebars<'static>,
    name: &str,
    note: &Note,
) -> (outcome: Result<String, handlebars::RenderError>)
    requires
        has_default_setup(*registry),
        registry_templates(*registry).contains_key(name@) ==> !includes_partial(
            registry_templates(*registry)[name@],
        ),
    ensures
        !registry_templates(*registry).contains_key(name@) ==> outcome is Err,
        registry_templates(*registry).contains_key(name@) ==> match outcome {
            Ok(text) => rendered_text(registry_templates(*registry)[name@], note@) == Some(text@),
            Err(_) => rendered_text(registry_templates(*registry)[name@], note@) is None,
        },
{
    let members = [
        ("template", to_json(&note.template)),
        ("filename", to_json(&note.filename)),
        ("title", to_json(&note.title)),
        ("content", to_json(&note.content)),
        ("tags", to_json(&note.tags)),
    ];
    let data: BTreeMap<&str, JsonValue> = members.into_iter().collect();
    registry.render(name, &data)
}

} // verus!
