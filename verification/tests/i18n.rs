use randobooru::i18n::I18n;

#[test]
fn loads_language_from_locale_file() {
    let i18n = I18n::load("fr").expect("fr locale should exist");

    assert_eq!(
        i18n.could_not_find_image("test"),
        "Impossible de trouver une image : test"
    );
}

#[test]
fn rejects_unknown_language() {
    assert!(I18n::load("missing-language").is_err());
}

#[test]
fn language_names_are_trimmed_and_case_insensitive() {
    assert!(I18n::load("  EN ").is_ok());
    match I18n::load(" Xx ") {
        Err(e) => assert_eq!(e, "unsupported app_lang xx"),
        Ok(_) => panic!("unexpected language"),
    }
    assert_eq!(I18n::available_languages(), vec!["en", "fr"]);
}

#[test]
fn fills_numbers_into_art_history_summaries() {
    let i18n = I18n::load("en").unwrap();
    assert_eq!(
        i18n.art_history_showing_all(10, 3),
        "Only 3 of the 10 requested links exist; showing all of them."
    );
    assert_eq!(i18n.art_history_showing_count(5), "Showing the last 5 links.");
}
