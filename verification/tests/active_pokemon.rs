use pokedata::domain::model::ability::Ability;
use pokedata::domain::model::active_pokemon::ActivePokemon;
use pokedata::domain::model::active_pokemon::MissingStat;
use pokedata::domain::model::pokemon::Pokemon;
use pokedata::domain::model::pokemon::PokemonStat;
use pokedata::domain::model::stats::StatName;
use pokedata::domain::model::status::StatusCondition;

fn create_test_pokemon() -> Pokemon {
    Pokemon {
        id: 1,
        name: "Testmon".to_string(),
        abilities: vec![],
        forms: vec![],
        moves: vec![],
        species: None,
        stats: vec![
            PokemonStat { stat: StatName::Hp, effort: 0, base_stat: 100 },
            PokemonStat { stat: StatName::Attack, effort: 0, base_stat: 50 },
            PokemonStat { stat: StatName::Defense, effort: 0, base_stat: 40 },
            PokemonStat { stat: StatName::SpecialAttack, effort: 0, base_stat: 60 },
            PokemonStat { stat: StatName::SpecialDefense, effort: 0, base_stat: 55 },
            PokemonStat { stat: StatName::Speed, effort: 0, base_stat: 70 },
        ],
        types: vec![],
    }
}

fn create_test_ability() -> Ability {
    Ability {
        id: 1,
        name: "Test-Ability".to_string(),
        effect_entries: vec![],
        flavor_text_entries: vec![],
        names: vec![],
    }
}

#[test]
fn test_new_active_pokemon() {
    let pokemon = create_test_pokemon();
    let ability = create_test_ability();
    let active_pokemon = ActivePokemon::new(&pokemon, &ability);

    assert_eq!(active_pokemon.name, "Testmon");
    assert_eq!(active_pokemon.max_hp, 100);
    assert_eq!(active_pokemon.current_hp, 100);
    assert_eq!(active_pokemon.attack, 50);
    assert_eq!(active_pokemon.speed, 70);
    assert_eq!(active_pokemon.attack_rank, 0);
    assert!(active_pokemon.status.is_none());
    assert_eq!(active_pokemon.active_ability.name, "Test-Ability");
}

#[test]
fn test_take_damage() {
    let pokemon = create_test_pokemon();
    let ability = create_test_ability();
    let mut active_pokemon = ActivePokemon::new(&pokemon, &ability);

    active_pokemon.take_damage(30);
    assert_eq!(active_pokemon.current_hp, 70);
    assert!(!active_pokemon.is_fainted());
}

#[test]
fn test_take_fatal_damage() {
    let pokemon = create_test_pokemon();
    let ability = create_test_ability();
    let mut active_pokemon = ActivePokemon::new(&pokemon, &ability);

    active_pokemon.take_damage(120);
    assert_eq!(active_pokemon.current_hp, 0);
    assert!(active_pokemon.is_fainted());
}

#[test]
fn test_set_status() {
    let pokemon = create_test_pokemon();
    let ability = create_test_ability();
    let mut active_pokemon = ActivePokemon::new(&pokemon, &ability);

    assert!(active_pokemon.status.is_none());
    active_pokemon.set_status(StatusCondition::Poison);
    assert_eq!(active_pokemon.status, Some(StatusCondition::Poison));
}

#[test]
fn new_active_pokemon_takes_every_stat_and_starts_at_rest() {
    let active = ActivePokemon::new(&create_test_pokemon(), &create_test_ability());
    assert_eq!(active.defense, 40);
    assert_eq!(active.special_attack, 60);
    assert_eq!(active.special_defense, 55);
    assert_eq!(active.defense_rank, 0);
    assert_eq!(active.special_attack_rank, 0);
    assert_eq!(active.special_defense_rank, 0);
    assert_eq!(active.speed_rank, 0);
    assert_eq!(active.accuracy_rank, 0);
    assert_eq!(active.evasion_rank, 0);
    assert_eq!(active.active_ability, create_test_ability());
}

#[test]
fn try_new_agrees_with_new_on_a_complete_pokemon() {
    let pokemon = create_test_pokemon();
    let ability = create_test_ability();
    assert_eq!(
        ActivePokemon::try_new(&pokemon, &ability),
        Ok(ActivePokemon::new(&pokemon, &ability))
    );
}

#[test]
fn try_new_names_the_first_missing_stat() {
    let mut pokemon = create_test_pokemon();
    pokemon.stats.remove(4);
    pokemon.stats.remove(2);
    assert_eq!(
        ActivePokemon::try_new(&pokemon, &create_test_ability()),
        Err(MissingStat { stat: StatName::Defense })
    );
    pokemon.stats.clear();
    assert_eq!(
        ActivePokemon::try_new(&pokemon, &create_test_ability()),
        Err(MissingStat { stat: StatName::Hp })
    );
}

#[test]
fn base_stat_takes_the_first_entry_of_a_stat() {
    let mut pokemon = create_test_pokemon();
    pokemon.stats.push(PokemonStat { stat: StatName::Attack, effort: 1, base_stat: 999 });
    assert_eq!(pokemon.base_stat(StatName::Attack), Some(50));
    assert!(!pokemon.has_distinct_stats());
    assert!(create_test_pokemon().has_distinct_stats());
    pokemon.stats.clear();
    assert_eq!(pokemon.base_stat(StatName::Attack), None);
    assert!(pokemon.has_distinct_stats());
}

#[test]
fn damage_equal_to_the_hit_points_leaves_none() {
    let mut active = ActivePokemon::new(&create_test_pokemon(), &create_test_ability());
    active.take_damage(0);
    assert_eq!(active.current_hp, 100);
    active.take_damage(99);
    assert_eq!(active.current_hp, 1);
    assert!(!active.is_fainted());
    active.take_damage(1);
    assert_eq!(active.current_hp, 0);
    assert!(active.is_fainted());
    active.take_damage(u32::MAX);
    assert_eq!(active.current_hp, 0);
    assert_eq!(active.max_hp, 100);
}

#[test]
fn a_new_status_replaces_the_old_one() {
    let mut active = ActivePokemon::new(&create_test_pokemon(), &create_test_ability());
    active.set_status(StatusCondition::Burn);
    active.set_status(StatusCondition::Sleep);
    assert_eq!(active.status, Some(StatusCondition::Sleep));
    assert_eq!(active.current_hp, 100);
}
