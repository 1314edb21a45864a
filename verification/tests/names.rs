use ztr::create::create;
use ztr::name::{generate, name_from_draws, ALPHABET_SIZE, NAME_LENGTH};

fn is_symbol(c: char) -> bool {
    ('a'..='z').contains(&c) || ('0'..='9').contains(&c)
}

#[test]
fn draws_spell_symbols_in_alphabet_order() {
    assert_eq!(name_from_draws(&vec![0, 1, 25, 26, 27, 35]), "abz019");
    assert_eq!(name_from_draws(&vec![7, 7, 7]), "hhh");
    assert_eq!(name_from_draws(&vec![]), "");
}

#[test]
fn every_draw_has_its_symbol() {
    let all: Vec<usize> = (0..ALPHABET_SIZE).collect();

    assert_eq!(name_from_draws(&all), "abcdefghijklmnopqrstuvwxyz0123456789");
}

#[test]
fn sizes_are_ten_of_thirty_six() {
    assert_eq!(NAME_LENGTH, 10);
    assert_eq!(ALPHABET_SIZE, 36);
}

#[test]
fn generated_names_have_ten_symbols() {
    for _ in 0..200 {
        let name = generate();
        assert_eq!(name.chars().count(), 10);
        assert!(name.chars().all(is_symbol));
    }
}

#[test]
fn created_note_is_the_default_note_under_a_fresh_name() {
    let file = create();

    assert_eq!(file.name.len(), 13);
    assert!(file.name.ends_with(".md"));
    assert!(file.name[..10].chars().all(is_symbol));
    assert_eq!(file.content, "# New zettle\n\nNew note content\n\n#[[fleeting]] ");
}
