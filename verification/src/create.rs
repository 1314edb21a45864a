//! Creating a note: name it, settle its fields, render its body. What comes
//! out is the file to write; writing it is the caller's part.

use crate::engine::is_well_formed;
use crate::name::{generate, is_generated_name};
use crate::note::{
    default_note, empty_request, resolve_note_defaults, resolved_note, DefaultNote,
    DefaultNoteView, NewNote, NewNoteView,
};
use crate::render::{body_of, is_body_of, note_body, render_note_template, render_outcome};
use vstd::prelude::*;

verus! {

/// The extension every note file has.
pub open spec fn extension() -> Seq<char> {
    ".md"@
}

/// A note as it goes to disk: the name of its file inside the notebox, and
/// the full text of that file.
#[derive(Debug, Clone, PartialEq, Eq)]
pub struct NoteFile {
    pub name: String,
    pub content: String,
}

/// A note file as plain text values.
pub ghost struct NoteFileView {
    pub name: Seq<char>,
    pub content: Seq<char>,
}

impl View for NoteFile {
    type V = NoteFileView;

    open spec fn view(&self) -> NoteFileView {
        NoteFileView { name: self.name@, content: self.content@ }
    }
}

/// What a file written under `name` may hold for a request: the body of the
/// note resolved under that very name, which is what the note renders to, or
/// nothing where the render fails.
pub open spec fn is_content_of(
    content: Seq<char>,
    name: Seq<char>,
    note: NewNoteView,
    default: DefaultNoteView,
) -> bool {
    is_body_of(resolved_note(name, note, default), content)
}

/// `file` is a file that a request comes to under the base name `base`: it
/// is named `base` with the extension, and holds the content of the request
/// under that name.
pub open spec fn is_note_file_of(
    file: NoteFileView,
    base: Seq<char>,
    note: NewNoteView,
    default: DefaultNoteView,
) -> bool {
    &&& file.name == base + extension()
    &&& is_content_of(file.content, file.name, note, default)
}

/// The name of a note file is its base name with the extension, and it is the
/// file name its note is resolved under, whatever the request and the
/// defaults hold.
pub proof fn file_name_depends_on_base_alone(
    base: Seq<char>,
    file: NoteFileView,
    note: NewNoteView,
    default: DefaultNoteView,
    other_file: NoteFileView,
    other_note: NewNoteView,
    other_default: DefaultNoteView,
)
    requires
        is_note_file_of(file, base, note, default),
        is_note_file_of(other_file, base, other_note, other_default),
    ensures
        file.name == base + extension(),
        file.name == other_file.name,
        resolved_note(file.name, note, default).filename == base + extension(),
{
}

/// A request with an explicitly empty tag list comes to the same files as
/// one that leaves its tags out over defaults that have none: the default
/// tags play no part once the request names its own.
pub proof fn empty_tags_render_as_no_tags(
    file: NoteFileView,
    base: Seq<char>,
    note: NewNoteView,
    default: DefaultNoteView,
)
    requires
        note.tags == Some(Seq::<Seq<char>>::empty()),
    ensures
        is_note_file_of(file, base, note, default) == is_note_file_of(
            file,
            base,
            NewNoteView { tags: None, ..note },
            DefaultNoteView { tags: Seq::empty(), ..default },
        ),
{
    assert(resolved_note(file.name, note, default) == resolved_note(
        file.name,
        NewNoteView { tags: None, ..note },
        DefaultNoteView { tags: Seq::empty(), ..default },
    ));
}

/// A request whose note fails to render comes to an empty file under the
/// name it would have had.
pub proof fn failed_render_gives_empty_file(
    file: NoteFileView,
    base: Seq<char>,
    note: NewNoteView,
    default: DefaultNoteView,
)
    requires
        is_note_file_of(file, base, note, default),
        render_outcome(resolved_note(base + extension(), note, default)) is Err,
    ensures
        file.name == base + extension(),
        file.content == Seq::<char>::empty(),
{
}

/// A request whose template is not well-formed comes to an empty file under
/// the name it would have had.
pub proof fn invalid_template_gives_empty_file(
    file: NoteFileView,
    base: Seq<char>,
    note: NewNoteView,
    default: DefaultNoteView,
)
    requires
        is_note_file_of(file, base, note, default),
        !is_well_formed(resolved_note(base + extension(), note, default).template),
    ensures
        file.name == base + extension(),
        file.content == Seq::<char>::empty(),
{
}

/// Two files of one request under one base name have the same name, and the
/// same content unless one of them is empty.
pub proof fn files_of_one_request_agree(
    file: NoteFileView,
    other_file: NoteFileView,
    base: Seq<char>,
    note: NewNoteView,
    default: DefaultNoteView,
)
    requires
        is_note_file_of(file, base, note, default),
        is_note_file_of(other_file, base, note, default),
    ensures
        file.name == other_file.name,
        file.content == other_file.content || file.content == Seq::<char>::empty()
            || other_file.content == Seq::<char>::empty(),
{
}

/// The name of the file for a note with the base name `base_name`.
pub fn note_file_name(base_name: String) -> (name: String)
    ensures
        name@ == base_name@ + extension(),
{
    base_name.concat(".md")
}

/// The text of the file `note_name` for a request: the request is settled
/// against the defaults under that name and rendered, and a failed render
/// leaves the text empty.
pub fn note_content(note_name: &str, note: &NewNote, default: &DefaultNote) -> (content: String)
    ensures
        is_content_of(content@, note_name@, note@, default@),
        render_outcome(resolved_note(note_name@, note@, default@)) is Err ==> content@
            == Seq::<char>::empty(),
        content@ == Seq::<char>::empty() || content@ == body_of(
            render_outcome(resolved_note(note_name@, note@, default@)),
        ),
{
    let resolved = resolve_note_defaults(note_name, note, default);
    note_body(render_note_template(&resolved))
}

/// Makes the file for a request under a base name that is already chosen.
pub fn named_note_file(base_name: String, note: &NewNote, default: &DefaultNote) -> (file: NoteFile)
    ensures
        file@.name == base_name@ + extension(),
        is_content_of(file@.content, file@.name, note@, default@),
        is_note_file_of(file@, base_name@, note@, default@),
{
    let name = note_file_name(base_name);
    let content = note_content(name.as_str(), note, default);
    NoteFile { name, content }
}

/// Makes the file for a request, named by one call of `name_generator`.
///
/// The file name is what the generator returned with the extension added,
/// whatever the request and the defaults hold.
pub fn new_note_file<G: Fn() -> String>(
    name_generator: G,
    note: &NewNote,
    default: &DefaultNote,
) -> (file: NoteFile)
    requires
        name_generator.requires(()),
    ensures
        exists|base: String|
            name_generator.ensures((), base) && file@.name == base@ + extension()
                && #[trigger] is_note_file_of(file@, base@, note@, default@),
{
    let base_name = name_generator();
    named_note_file(base_name, note, default)
}

/// Makes the file for a note that asks for nothing, under a freshly
/// generated name: the built-in defaults, rendered by their own template.
pub fn create() -> (file: NoteFile)
    ensures
        exists|base: Seq<char>|
            is_generated_name(base) && file@.name == base + extension()
                && #[trigger] is_note_file_of(file@, base, empty_request(), default_note()),
{
    let note = NewNote::new(None, None, None, None);
    let default = DefaultNote::new();
    let file = new_note_file(generate, &note, &default);
    proof {
        let base = choose|base: String|
            call_ensures(generate, (), base) && file@.name == base@ + extension()
                && #[trigger] is_note_file_of(file@, base@, note@, default@);
        assert(is_generated_name(base@));
        assert(is_note_file_of(file@, base@, empty_request(), default_note()));
    }
    file
}

} // verus!
