use initiative_core::app::NullDataStore;
use initiative_core::field::Field;
use initiative_core::npc::race::Race;
use initiative_core::place::{GeographicalType, GeographyType};
use initiative_core::world::{World, ROOT_UUID};

#[test]
fn field_lifecycle() {
    let mut field: Field<u32> = Field::new();
    assert_eq!(None, field.get());
    assert!(field.is_unlocked());

    field.replace(1);
    assert_eq!(Some(&1), field.get());
    assert!(field.is_unlocked());

    field.set(2);
    assert_eq!(Some(&2), field.get());
    assert!(field.is_locked());

    field.replace(3);
    assert_eq!(Some(&2), field.get(), "a locked field must not be replaced");

    field.unlock();
    field.replace(3);
    assert_eq!(Some(&3), field.get());

    field.clear();
    assert_eq!(None, field.get());
    assert!(field.is_unlocked());
}

#[test]
fn geographical_emoji() {
    assert_eq!(Some("🏖"), GeographicalType::Beach.get_emoji());
    assert_eq!(Some("🏞"), GeographicalType::Canyon.get_emoji());
    assert_eq!(Some("⛰"), GeographicalType::Ridge.get_emoji());
    assert_eq!(None, GeographicalType::Cave.get_emoji());
    assert_eq!(None, GeographicalType::Rift.get_emoji());
}

#[test]
fn geography_emoji() {
    assert_eq!(Some("🏝"), GeographyType::Archipelago.get_emoji());
    assert_eq!(Some("❄"), GeographyType::Tundra.get_emoji());
    assert_eq!(Some("🌐"), GeographyType::World.get_emoji());
    assert_eq!(None, GeographyType::Swamp.get_emoji());
}

#[test]
fn worlds_start_with_the_root_region() {
    let world = World::new();
    assert_eq!(1, world.regions.len());
    assert_eq!(ROOT_UUID, world.regions[0].0);
    assert!(world.npcs.is_empty());
    assert!(world.locations.is_empty());

    let other = World::new();
    assert_ne!(world.uuid, other.uuid);
}

#[test]
fn creating_entities_registers_them() {
    let mut app = initiative_core::app(NullDataStore::default());

    let description = app.command("warforged").expect("creation must succeed");
    assert!(description.contains("warforged"), "{}", description);
    assert_eq!(1, app.meta.world.npcs.len());
    let npc = &app.meta.world.npcs[0].1;
    assert!(npc.uuid.is_some());

    app.command("location").expect("creation must succeed");
    assert_eq!(1, app.meta.world.locations.len());
    let location = &app.meta.world.locations[0].1;
    assert_eq!(Some(ROOT_UUID), location.region);
    assert!(location.name.get().is_some());
    assert!(location.subtype.get().is_some());
}

#[test]
fn lineage_names_round_trip() {
    for race in [Race::Human, Race::Warforged] {
        assert_eq!(Some(race), Race::parse(race.name().as_str()));
        assert_eq!(Some(race), Race::parse(&race.name().to_uppercase()));
    }
    assert_eq!(None, Race::parse("elf"));
}
