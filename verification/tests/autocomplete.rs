use initiative_core::app::NullDataStore;

#[test]
fn partial_input_matches_by_case_insensitive_prefix() {
    let app = initiative_core::app(NullDataStore::default());
    let suggestions = app.autocomplete("s");

    assert_eq!(
        vec![
            ("Shield".to_string(), "SRD spell".to_string()),
            ("Shield".to_string(), "SRD item".to_string()),
            ("Shields".to_string(), "SRD item category".to_string()),
            ("spells".to_string(), "SRD index".to_string()),
        ],
        suggestions,
    );
}

#[test]
fn shared_label_appears_once_per_category_hint() {
    let app = initiative_core::app(NullDataStore::default());
    let suggestions = app.autocomplete("shield");

    let hints: Vec<&str> = suggestions
        .iter()
        .filter(|(label, _)| label == "Shield")
        .map(|(_, hint)| hint.as_str())
        .collect();
    assert_eq!(vec!["SRD spell", "SRD item"], hints);
}

#[test]
fn results_are_capped_at_ten_and_sorted() {
    let app = initiative_core::app(NullDataStore::default());
    let suggestions = app.autocomplete("");

    assert_eq!(10, suggestions.len());
    for window in suggestions.windows(2) {
        assert!(window[0].0 <= window[1].0, "{:?}", suggestions);
    }
}

#[test]
fn every_label_starts_with_the_partial_input() {
    let app = initiative_core::app(NullDataStore::default());
    for input in ["s", "SR", "d", "w", "ma"] {
        for (label, _) in app.autocomplete(input) {
            assert!(
                label.to_lowercase().starts_with(&input.to_lowercase()),
                "{} does not start with {}",
                label,
                input,
            );
        }
    }
}

#[test]
fn generated_people_join_the_vocabulary() {
    let mut app = initiative_core::app(NullDataStore::default());
    app.command("human").expect("creating a person must succeed");

    let name = app.meta.world.npcs[0]
        .1
        .name
        .get()
        .expect("a generated person has a name")
        .clone();
    let suggestions = app.autocomplete(&name);
    assert!(
        suggestions
            .iter()
            .any(|(label, hint)| label == &name && hint == "person"),
        "{:?} missing from {:?}",
        name,
        suggestions,
    );
}

#[test]
fn no_match_yields_no_suggestions() {
    let app = initiative_core::app(NullDataStore::default());
    assert!(app.autocomplete("qqq").is_empty());
}
