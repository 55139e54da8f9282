use initiative_core::demographics::{ConfigurationError, Demographics};
use initiative_core::npc::race::Race;
use initiative_core::npc::Npc;
use initiative_core::rng::RandomSource;

#[test]
fn generate_populates_every_field() {
    let mut rng = RandomSource::seeded(7);
    let demographics = Demographics::default();
    let npc = Npc::generate(&mut rng, &demographics).expect("generation must succeed");
    assert!(npc.name.get().is_some());
    assert!(npc.gender.get().is_some());
    assert!(npc.age.get().is_some());
    assert!(npc.size.get().is_some());
    assert!(npc.race.get().is_some());
}

#[test]
fn locked_name_survives_regeneration() {
    let mut rng = RandomSource::unseeded();
    let demographics = Demographics::default();
    let mut npc = Npc::generate(&mut rng, &demographics).expect("generation must succeed");

    npc.name.lock();
    let name_before = npc.name.get().cloned();

    npc.regenerate(&mut rng, &demographics)
        .expect("regeneration must succeed");

    assert_eq!(name_before, npc.name.get().cloned());
    assert!(npc.gender.get().is_some());
    assert!(npc.age.get().is_some());
    assert!(npc.size.get().is_some());
}

#[test]
fn locked_fields_are_stable_across_repeated_passes() {
    let mut rng = RandomSource::seeded(11);
    let demographics = Demographics::default();
    let mut npc = Npc::generate(&mut rng, &demographics).expect("generation must succeed");

    npc.name.lock();
    npc.size.lock();
    let name = npc.name.get().cloned();
    let size = npc.size.get().copied();

    npc.regenerate(&mut rng, &demographics).expect("regeneration must succeed");
    npc.regenerate(&mut rng, &demographics).expect("regeneration must succeed");

    assert_eq!(name, npc.name.get().cloned());
    assert_eq!(size, npc.size.get().copied());
}

#[test]
fn same_seed_gives_identical_output() {
    let demographics = Demographics::default();

    let mut rng_a = RandomSource::seeded(42);
    let a = Npc::generate(&mut rng_a, &demographics).expect("generation must succeed");

    let mut rng_b = RandomSource::seeded(42);
    let b = Npc::generate(&mut rng_b, &demographics).expect("generation must succeed");

    assert_eq!(a.name.get(), b.name.get());
    assert_eq!(a.gender.get(), b.gender.get());
    assert_eq!(a.age.get(), b.age.get());
    assert_eq!(a.size.get(), b.size.get());
    assert_eq!(a.race.get(), b.race.get());
}

#[test]
fn locked_race_forces_the_strategy() {
    let mut rng = RandomSource::seeded(3);
    let demographics = Demographics::default();
    let mut npc = Npc::new();
    npc.race.set(Race::Warforged);
    npc.regenerate(&mut rng, &demographics)
        .expect("regeneration must succeed");
    assert_eq!(Some(&Race::Warforged), npc.race.get());
    assert!(npc.name.get().is_some());
}

#[test]
fn zero_weight_table_is_a_configuration_error() {
    let mut demographics = Demographics::new();
    demographics.add_race_weight(Race::Human, 0);
    demographics.add_race_weight(Race::Warforged, 0);

    let mut rng = RandomSource::seeded(1);
    assert_eq!(
        Err(ConfigurationError),
        demographics.weighted_choice(&mut rng, None),
    );

    let result = Npc::generate(&mut rng, &demographics);
    assert_eq!(Err(ConfigurationError), result.map(|_| ()));
}

#[test]
fn weighted_choice_returns_a_positive_weight_category() {
    let mut demographics = Demographics::new();
    demographics.add_race_weight(Race::Human, 0);
    demographics.add_race_weight(Race::Warforged, 1);

    let mut rng = RandomSource::seeded(9);
    for _ in 0..20 {
        assert_eq!(
            Ok(Race::Warforged),
            demographics.weighted_choice(&mut rng, None),
        );
    }
}

#[test]
fn region_table_overrides_the_fallback() {
    let mut demographics = Demographics::new();
    demographics.add_race_weight(Race::Human, 1);
    demographics.set_region_table(99, vec![(Race::Warforged, 1)]);

    let mut rng = RandomSource::seeded(5);
    assert_eq!(Ok(Race::Human), demographics.weighted_choice(&mut rng, None));
    assert_eq!(
        Ok(Race::Warforged),
        demographics.weighted_choice(&mut rng, Some(99)),
    );
    assert_eq!(
        Ok(Race::Human),
        demographics.weighted_choice(&mut rng, Some(42)),
    );
}

#[test]
fn draws_stay_below_their_bound() {
    let mut rng = RandomSource::unseeded();
    for _ in 0..100 {
        assert!(rng.next_below(5) < 5);
    }
}
