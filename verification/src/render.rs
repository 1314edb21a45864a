//! Rendering a settled note through its own template.

use crate::engine::{
    is_well_formed, new_registry, register_template_string, render_registered, rendered_text,
};
use crate::note::{Note, NoteView};
use crate::partials::{includes_partial, uses_partials};
use vstd::prelude::*;

verus! {

/// Why a note could not be rendered.
#[derive(Debug, Clone, Copy, PartialEq, Eq, Structural)]
pub enum RenderFailure {
    /// The template includes a partial. With the note's template alone in
    /// the engine, an include finds nothing, or leads to an inline partial or
    /// back to the template, and may then never end.
    PartialInclude,
    /// The template did not compile: it is not well-formed handlebars, or
    /// the parser gave up on it.
    InvalidTemplate,
    /// The template compiled, and rendering it failed.
    RenderFailed,
}

/// What rendering a note comes to where the parser sees the template
/// through to its end: the text, or the reason there is none.
pub open spec fn render_outcome(note: NoteView) -> Result<Seq<char>, RenderFailure> {
    if includes_partial(note.template) {
        Err(RenderFailure::PartialInclude)
    } else if !is_well_formed(note.template) {
        Err(RenderFailure::InvalidTemplate)
    } else {
        match rendered_text(note.template, note) {
            Some(text) => Ok(text),
            None => Err(RenderFailure::RenderFailed),
        }
    }
}

/// The outcome is a failure, for the reason given.
pub open spec fn failed_as<T>(outcome: Result<T, RenderFailure>, reason: RenderFailure) -> bool {
    match outcome {
        Ok(_) => false,
        Err(why) => why == reason,
    }
}

/// What one render of a note may come to.
///
/// A template that includes a partial is refused as such, and one that is
/// not well-formed as invalid. Any other either comes to `render_outcome`,
/// or is turned down as invalid by a parser that gave up on it.
pub open spec fn renders_to(note: NoteView, outcome: Result<Seq<char>, RenderFailure>) -> bool {
    if includes_partial(note.template) {
        failed_as(outcome, RenderFailure::PartialInclude)
    } else if !is_well_formed(note.template) {
        failed_as(outcome, RenderFailure::InvalidTemplate)
    } else {
        outcome == render_outcome(note) || failed_as(outcome, RenderFailure::InvalidTemplate)
    }
}

/// The text of an outcome, where it has one.
pub open spec fn outcome_text(outcome: Result<String, RenderFailure>) -> Result<
    Seq<char>,
    RenderFailure,
> {
    match outcome {
        Ok(text) => Ok(text@),
        Err(reason) => Err(reason),
    }
}

/// The body a note gets from an outcome: the rendered text, and nothing at
/// all where rendering failed.
pub open spec fn body_of(outcome: Result<Seq<char>, RenderFailure>) -> Seq<char> {
    match outcome {
        Ok(text) => text,
        Err(_) => Seq::empty(),
    }
}

/// What the body of a note may be after one render: the body of
/// `render_outcome`, or nothing where the parser gave up.
pub open spec fn is_body_of(note: NoteView, body: Seq<char>) -> bool {
    body == body_of(render_outcome(note)) || body == Seq::<char>::empty()
}

/// Renders `note.template` with the note's fields bound to `template`,
/// `filename`, `title`, `content` and `tags`.
///
/// The template is compiled afresh on every call. It is refused where it
/// includes a partial or does not compile. Rendering may still fail after
/// that, as it does on a helper that is not defined.
pub fn render_note_template(note: &Note) -> (outcome: Result<String, RenderFailure>)
    ensures
        includes_partial(note@.template) ==> failed_as(outcome, RenderFailure::PartialInclude),
        !includes_partial(note@.template) && !is_well_formed(note@.template) ==> failed_as(
            outcome,
            RenderFailure::InvalidTemplate,
        ),
        !includes_partial(note@.template) && is_well_formed(note@.template) ==> failed_as(
            outcome,
            RenderFailure::InvalidTemplate,
        ) || outcome_text(outcome) == render_outcome(note@),
        renders_to(note@, outcome_text(outcome)),
{
    if uses_partials(note.template.as_str()) {
        return Err(RenderFailure::PartialInclude);
    }
    let mut registry = new_registry();
    match register_template_string(&mut registry, "note", note.template.as_str()) {
        Err(_) => Err(RenderFailure::InvalidTemplate),
        Ok(()) => match render_registered(&registry, "note", note) {
            Ok(text) => Ok(text),
            Err(_) => Err(RenderFailure::RenderFailed),
        },
    }
}

/// Settles the body of a note once rendering is over: a failed render
/// leaves the note empty instead of stopping its creation.
pub fn note_body(outcome: Result<String, RenderFailure>) -> (body: String)
    ensures
        body@ == body_of(outcome_text(outcome)),
{
    match outcome {
        Ok(text) => text,
        Err(_) => String::new(),
    }
}

/// Two renders of notes with the same fields agree in kind and in text,
/// unless the parser gave up in one of them: where both return a text it is
/// the same text, and where both fail without the parser giving up, they
/// fail for the same reason.
pub proof fn render_is_deterministic(
    first: NoteView,
    second: NoteView,
    first_outcome: Result<Seq<char>, RenderFailure>,
    second_outcome: Result<Seq<char>, RenderFailure>,
)
    requires
        first == second,
        renders_to(first, first_outcome),
        renders_to(second, second_outcome),
    ensures
        first_outcome is Ok && second_outcome is Ok ==> first_outcome == second_outcome,
        first_outcome == second_outcome || failed_as(first_outcome, RenderFailure::InvalidTemplate)
            || failed_as(second_outcome, RenderFailure::InvalidTemplate),
{
}

/// The body after a render is the body of what the render came to: with
/// `note_body` on top of `render_note_template`, a note gets its rendered
/// text or nothing.
pub proof fn body_follows_render(note: NoteView, outcome: Result<Seq<char>, RenderFailure>)
    requires
        renders_to(note, outcome),
    ensures
        is_body_of(note, body_of(outcome)),
        outcome is Err ==> body_of(outcome) == Seq::<char>::empty(),
{
}

/// A note whose template includes a partial, or is not well-formed, or
/// fails to render, gets the empty body from every render.
pub proof fn failed_render_gives_empty_body(note: NoteView, body: Seq<char>)
    requires
        render_outcome(note) is Err,
        is_body_of(note, body),
    ensures
        body == Seq::<char>::empty(),
{
}

/// A template that is not well-formed never renders: the outcome is a
/// failure and the body is empty.
pub proof fn invalid_template_gives_empty_body(
    note: NoteView,
    outcome: Result<Seq<char>, RenderFailure>,
)
    requires
        !is_well_formed(note.template),
        renders_to(note, outcome),
    ensures
        outcome is Err,
        body_of(outcome) == Seq::<char>::empty(),
{
}

} // verus!
