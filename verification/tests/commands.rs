use initiative_core::app::{Command, DataStore, NullDataStore, Resolution};
use initiative_core::reference::{Item, ItemCategory, MagicItem, ReferenceCommand, Spell};
use initiative_core::world::WorldCommand;

#[test]
fn display_test() {
    let commands = vec![
        ReferenceCommand::Spell(Spell::Shield),
        ReferenceCommand::Spells,
        ReferenceCommand::Item(Item::Shield),
        ReferenceCommand::ItemCategory(ItemCategory::Shields),
        ReferenceCommand::MagicItem(MagicItem::DeckOfManyThings),
        ReferenceCommand::OpenGameLicense,
    ];

    for command in commands {
        let command_string = command.display();
        assert_ne!("", command_string.as_str());

        assert_eq!(
            (Some(command), Vec::new()),
            ReferenceCommand::parse_input(command_string.as_str()),
            "{}",
            command_string,
        );

        assert_eq!(
            (Some(command), Vec::new()),
            ReferenceCommand::parse_input(&command_string.to_uppercase()),
            "{}",
            command_string.to_uppercase(),
        );
    }
}

#[test]
fn srd_spells_resolves_exactly_case_insensitively() {
    let (exact, fuzzy) = ReferenceCommand::parse_input("SRD SPELLS");
    assert_eq!(Some(ReferenceCommand::Spells), exact);
    assert!(fuzzy.is_empty());

    match Command::parse_input_irrefutable("SRD SPELLS") {
        Resolution::ExactMatch(c) => {
            assert_eq!(Command::Reference(ReferenceCommand::Spells), c)
        }
        other => panic!("expected an exact match, got {:?}", other),
    }
}

#[test]
fn bare_token_surfaces_every_reading() {
    let (exact, fuzzy) = ReferenceCommand::parse_input("Shield");
    assert_eq!(None, exact);
    assert_eq!(
        vec![
            ReferenceCommand::Spell(Spell::Shield),
            ReferenceCommand::Item(Item::Shield),
        ],
        fuzzy,
    );

    match Command::parse_input_irrefutable("shield") {
        Resolution::Ambiguous(list) => assert_eq!(2, list.len()),
        other => panic!("expected ambiguity, got {:?}", other),
    }
}

#[test]
fn unknown_input_reports_no_match() {
    match Command::parse_input_irrefutable("xyzzy") {
        Resolution::NoMatch => {}
        other => panic!("expected no match, got {:?}", other),
    }

    let mut app = initiative_core::app(NullDataStore::default());
    let result = app.command("xyzzy");
    assert_eq!(Err("Unknown command: xyzzy".to_string()), result);
}

#[test]
fn world_phrases_resolve_exactly() {
    match Command::parse_input_irrefutable("NPC") {
        Resolution::ExactMatch(c) => {
            assert_eq!(Command::World(WorldCommand::Npc { race: None }), c)
        }
        other => panic!("expected an exact match, got {:?}", other),
    }
}

#[test]
fn reference_lookup_renders_exact_output() {
    let mut app = initiative_core::app(NullDataStore::default());
    let output = app.command("srd spells").expect("lookup must succeed");
    assert_eq!(
        "# Spells\n\n* Fireball\n* Magic Missile\n* Shield\n\n*This listing is \
         Open Game Content subject to the `Open Game License`.*",
        output,
    );

    let spell = app.command("srd spell fireball").expect("lookup must succeed");
    assert!(spell.starts_with("**Fireball**"));
    assert!(spell.contains("8d6"));
}

#[test]
fn several_candidates_come_back_as_a_menu() {
    let mut app = initiative_core::app(NullDataStore::default());
    let message = app.command("shield").expect_err("two candidates cannot be auto-picked");
    assert_eq!(
        "Did you mean one of the following?\n* srd spell Shield\n* srd item Shield",
        message,
    );
}

#[test]
fn single_fuzzy_candidate_is_picked_irrefutably() {
    let mut app = initiative_core::app(NullDataStore::default());
    let output = app.command("torch").expect("a single candidate must run");
    assert!(output.starts_with("**Torch**"));
}

#[test]
fn init_warns_exactly_when_storage_is_disabled() {
    let mut without_storage = initiative_core::app(NullDataStore::default());
    let message = without_storage.init();
    assert!(message.contains("Local storage is not available"));

    let mut with_storage =
        initiative_core::app(initiative_core::app::MemoryDataStore::default());
    let message = with_storage.init();
    assert!(!message.contains("Local storage is not available"));
}

#[test]
fn memory_data_store_round_trips() {
    let mut store = initiative_core::app::MemoryDataStore::default();
    assert!(store.is_enabled());
    assert!(store.save_thing(7, "seven".to_string()));
    assert!(store.save_thing(7, "seven again".to_string()));
    assert_eq!(Some("seven again".to_string()), store.load_thing(7));
    assert_eq!(None, store.load_thing(8));
}
