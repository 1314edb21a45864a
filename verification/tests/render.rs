use ztr::note::Note;
use ztr::partials::uses_partials;
use ztr::render::{note_body, render_note_template, RenderFailure};

fn note_with(template: &str) -> Note {
    Note {
        template: String::from(template),
        filename: String::from("test.md"),
        title: String::from("a title"),
        content: String::from("some content"),
        tags: vec![String::from("one"), String::from("two")],
    }
}

#[test]
fn every_field_is_bound_by_its_name() {
    let note = note_with("{{filename}}|{{title}}|{{content}}|{{#each tags}}{{this}},{{/each}}");

    assert_eq!(
        render_note_template(&note),
        Ok(String::from("test.md|a title|some content|one,two,"))
    );
}

#[test]
fn plain_text_renders_as_it_stands() {
    assert_eq!(render_note_template(&note_with("> quoted\n")), Ok(String::from("> quoted\n")));
    assert_eq!(render_note_template(&note_with("")), Ok(String::new()));
}

#[test]
fn tags_come_out_in_their_order() {
    let mut note = note_with("{{#each tags}}{{@index}}={{this}};{{/each}}");
    note.tags = vec![String::from("b"), String::from("a"), String::from("c")];

    assert_eq!(render_note_template(&note), Ok(String::from("0=b;1=a;2=c;")));
}

#[test]
fn double_braces_escape_html_and_triple_braces_do_not() {
    let mut note = note_with("{{title}} {{{title}}}");
    note.title = String::from("a & b");

    assert_eq!(render_note_template(&note), Ok(String::from("a &amp; b a & b")));
}

#[test]
fn the_template_is_a_field_like_the_others() {
    assert_eq!(render_note_template(&note_with("[{{{template}}}]")), Ok(String::from("[[{{{template}}}]]")));
}

#[test]
fn rendering_twice_gives_the_same_text() {
    let note = note_with("{{#if tags}}{{#each tags}}#[[{{this}}]] {{/each}}{{/if}}{{title}}");

    let first = render_note_template(&note);
    let second = render_note_template(&note);

    assert_eq!(first, Ok(String::from("#[[one]] #[[two]] a title")));
    assert_eq!(first, second);
}

#[test]
fn unclosed_section_is_an_invalid_template() {
    assert_eq!(
        render_note_template(&note_with("{{#if tags}}never closed")),
        Err(RenderFailure::InvalidTemplate)
    );
    assert_eq!(
        render_note_template(&note_with("{{#if tags}}x{{/each}}")),
        Err(RenderFailure::InvalidTemplate)
    );
    assert_eq!(render_note_template(&note_with("{{title")), Err(RenderFailure::InvalidTemplate));
}

#[test]
fn unknown_helper_fails_the_render() {
    assert_eq!(
        render_note_template(&note_with("{{frobnicate title}}")),
        Err(RenderFailure::RenderFailed)
    );
}

#[test]
fn partial_includes_are_refused() {
    assert_eq!(render_note_template(&note_with("{{> other}}")), Err(RenderFailure::PartialInclude));
    assert_eq!(render_note_template(&note_with("{{> note}}")), Err(RenderFailure::PartialInclude));
    assert_eq!(
        render_note_template(&note_with("{{#*inline \"a\"}}x{{> a}}{{/inline}}{{> a}}")),
        Err(RenderFailure::PartialInclude)
    );
    assert_eq!(
        render_note_template(&note_with("{{#> a}}x{{/a}}")),
        Err(RenderFailure::PartialInclude)
    );
}

#[test]
fn partial_tags_are_spotted() {
    assert!(uses_partials("{{> a}}"));
    assert!(uses_partials("{{>a}}"));
    assert!(uses_partials("text {{~> a}} text"));
    assert!(uses_partials("{{#> a}}x{{/a}}"));
    assert!(uses_partials("{{ \t\r\n > a}}"));
    assert!(uses_partials("{{{> a}}"));
    assert!(uses_partials("{ {{>"));
}

#[test]
fn other_text_is_not_taken_for_a_partial() {
    assert!(!uses_partials(""));
    assert!(!uses_partials("> quote"));
    assert!(!uses_partials("{> a}"));
    assert!(!uses_partials("{ {> a}}"));
    assert!(!uses_partials("{{title}} > {{content}}"));
    assert!(!uses_partials("{{#if tags}}>{{/if}}"));
    assert!(!uses_partials("{{a > b}}"));
    assert!(!uses_partials("{{{title}}}>"));
    assert!(!uses_partials("{{"));
    assert!(!uses_partials("{{ ~#"));
}

#[test]
fn rendered_text_is_the_body() {
    assert_eq!(note_body(Ok(String::from("text"))), "text");
    assert_eq!(note_body(Ok(String::new())), "");
}

#[test]
fn failed_render_leaves_the_body_empty() {
    assert_eq!(note_body(Err(RenderFailure::InvalidTemplate)), "");
    assert_eq!(note_body(Err(RenderFailure::RenderFailed)), "");
    assert_eq!(note_body(Err(RenderFailure::PartialInclude)), "");
}
