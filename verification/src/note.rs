//! The three records a note passes through, and the merge that turns a
//! request into a note ready for rendering.

use vstd::prelude::*;

verus! {

/// What the caller asks for. A field left `None` takes the default.
#[derive(Debug, Clone, PartialEq, Eq)]
pub struct NewNote {
    pub template: Option<String>,
    pub title: Option<String>,
    pub content: Option<String>,
    pub tags: Option<Vec<String>>,
}

/// The fallback for every field a request may leave out.
#[derive(Debug, Clone, PartialEq, Eq)]
pub struct DefaultNote {
    pub template: String,
    pub title: String,
    pub content: String,
    pub tags: Vec<String>,
}

/// A note with every field settled, as the renderer sees it.
#[derive(Debug, Clone, PartialEq, Eq)]
pub struct Note {
    pub template: String,
    pub filename: String,
    pub title: String,
    pub content: String,
    pub tags: Vec<String>,
}

/// A request as plain text values.
pub ghost struct NewNoteView {
    pub template: Option<Seq<char>>,
    pub title: Option<Seq<char>>,
    pub content: Option<Seq<char>>,
    pub tags: Option<Seq<Seq<char>>>,
}

/// Defaults as plain text values.
pub ghost struct DefaultNoteView {
    pub template: Seq<char>,
    pub title: Seq<char>,
    pub content: Seq<char>,
    pub tags: Seq<Seq<char>>,
}

/// A settled note as plain text values.
pub ghost struct NoteView {
    pub template: Seq<char>,
    pub filename: Seq<char>,
    pub title: Seq<char>,
    pub content: Seq<char>,
    pub tags: Seq<Seq<char>>,
}

/// The text of an optional string.
pub open spec fn text_of(field: Option<String>) -> Option<Seq<char>> {
    match field {
        Some(text) => Some(text@),
        None => None,
    }
}

/// The texts of an optional list of strings, in order.
pub open spec fn texts_of(field: Option<Vec<String>>) -> Option<Seq<Seq<char>>> {
    match field {
        Some(items) => Some(items.deep_view()),
        None => None,
    }
}

impl View for NewNote {
    type V = NewNoteView;

    open spec fn view(&self) -> NewNoteView {
        NewNoteView {
            template: text_of(self.template),
            title: text_of(self.title),
            content: text_of(self.content),
            tags: texts_of(self.tags),
        }
    }
}

impl View for DefaultNote {
    type V = DefaultNoteView;

    open spec fn view(&self) -> DefaultNoteView {
        DefaultNoteView {
            template: self.template@,
            title: self.title@,
            content: self.content@,
            tags: self.tags.deep_view(),
        }
    }
}

impl View for Note {
    type V = NoteView;

    open spec fn view(&self) -> NoteView {
        NoteView {
            template: self.template@,
            filename: self.filename@,
            title: self.title@,
            content: self.content@,
            tags: self.tags.deep_view(),
        }
    }
}

impl NewNote {
    /// A request holding exactly the four fields given.
    pub fn new(
        template: Option<String>,
        title: Option<String>,
        content: Option<String>,
        tags: Option<Vec<String>>,
    ) -> (note: Self)
        ensures
            note.template == template,
            note.title == title,
            note.content == content,
            note.tags == tags,
    {
        Self { template, title, content, tags }
    }
}

/// The defaults of a notebox that sets none of its own.
pub open spec fn default_note() -> DefaultNoteView {
    DefaultNoteView {
        template: "# {{title}}\n\n{{content}}\n\n{{#if tags}}{{#each tags}}#[[{{this}}]] {{/each}}{{/if}}"@,
        title: "New zettle"@,
        content: "New note content"@,
        tags: seq!["fleeting"@],
    }
}

/// The request that asks for nothing, so that every field takes its default.
pub open spec fn empty_request() -> NewNoteView {
    NewNoteView { template: None, title: None, content: None, tags: None }
}

impl DefaultNote {
    /// The built-in defaults: a heading with the title, the content, and a
    /// line of tag links where there are tags; one tag, `fleeting`.
    pub fn new() -> (default: Self)
        ensures
            default@ == default_note(),
    {
        let default = Self {
            template: String::from_str(
                "# {{title}}\n\n{{content}}\n\n{{#if tags}}{{#each tags}}#[[{{this}}]] {{/each}}{{/if}}",
            ),
            title: String::from_str("New zettle"),
            content: String::from_str("New note content"),
            tags: vec![String::from_str("fleeting")],
        };
        proof {
            assert(default.tags.deep_view() == seq!["fleeting"@]);
        }
        default
    }
}

impl Default for DefaultNote {
    fn default() -> (default: Self)
        ensures
            default@ == default_note(),
    {
        Self::new()
    }
}

/// The field a request settles on: its own value where it has one, the
/// default otherwise.
pub open spec fn chosen<T>(requested: Option<T>, fallback: T) -> T {
    match requested {
        Some(value) => value,
        None => fallback,
    }
}

/// The note that `note` and `default` resolve to under the file name `name`.
pub open spec fn resolved_note(
    name: Seq<char>,
    note: NewNoteView,
    default: DefaultNoteView,
) -> NoteView {
    NoteView {
        template: chosen(note.template, default.template),
        filename: name,
        title: chosen(note.title, default.title),
        content: chosen(note.content, default.content),
        tags: chosen(note.tags, default.tags),
    }
}

/// Fills every field the request leaves out from the defaults, one field at a
/// time, and gives the note the file name `name`.
pub fn resolve_note_defaults(name: &str, note: &NewNote, default: &DefaultNote) -> (resolved: Note)
    ensures
        resolved@.filename == name@,
        resolved@.template == chosen(note@.template, default@.template),
        resolved@.title == chosen(note@.title, default@.title),
        resolved@.content == chosen(note@.content, default@.content),
        resolved@.tags == chosen(note@.tags, default@.tags),
        resolved@ == resolved_note(name@, note@, default@),
{
    Note {
        template: note.template.clone().unwrap_or(default.template.clone()),
        filename: name.to_string(),
        title: note.title.clone().unwrap_or(default.title.clone()),
        content: note.content.clone().unwrap_or(default.content.clone()),
        tags: note.tags.clone().unwrap_or(default.tags.clone()),
    }
}

} // verus!
