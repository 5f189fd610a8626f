use pokedata::decode::decode;
use pokedata::domain::model::ability::Ability;
use pokedata::domain::model::common::FlavorText;
use pokedata::domain::model::common::Language;
use pokedata::domain::model::common::VersionGroup;
use pokedata::domain::model::item::Item;
use pokedata::domain::model::moves::Move;
use pokedata::domain::model::pokemon_species::PokemonSpecies;
use pokedata::filter::retain;
use pokedata::filter::trim_all;
use pokedata::filter::Entry;
use pokedata::filter::FilterConfig;
use pokedata::filter::Trim;

fn texts(names: &[&str]) -> Vec<String> {
    names.iter().map(|s| s.to_string()).collect()
}

fn flavor(text: &str, language: &str, group: &str) -> FlavorText {
    FlavorText::new(
        text.to_string(),
        Language::new(language.to_string()),
        VersionGroup::new(group.to_string()),
    )
}

const ABILITY: &str = r#"{"id": 1, "name": "stench",
    "effect_entries": [
        {"effect": "a", "short_effect": "a", "language": {"name": "de"}},
        {"effect": "b", "short_effect": "b", "language": {"name": "en"}},
        {"effect": "c", "short_effect": "c", "language": {"name": "ja"}}
    ],
    "flavor_text_entries": [
        {"flavor_text": "1", "language": {"name": "en"}, "version_group": {"name": "x-y"}},
        {"flavor_text": "2", "language": {"name": "de"}, "version_group": {"name": "scarlet-violet"}},
        {"flavor_text": "3", "language": {"name": "en"}, "version_group": {"name": "scarlet-violet"}}
    ],
    "names": [
        {"name": "Stench", "language": {"name": "en"}},
        {"name": "Duftnote", "language": {"name": "de"}}
    ]}"#;

#[test]
fn the_reference_configuration_allows_two_languages_and_three_names() {
    let config = FilterConfig::scarlet_violet();
    assert_eq!(config.allowed_language_codes, texts(&["ja", "en"]));
    assert_eq!(
        config.allowed_version_or_group_names,
        texts(&["scarlet-violet", "scarlet", "violet"])
    );
    assert!(config.allows_language("ja"));
    assert!(config.allows_language("en"));
    assert!(!config.allows_language("fr"));
    assert!(!config.allows_language("EN"));
    assert!(!config.allows_language(""));
    assert!(config.allows_version("scarlet-violet"));
    assert!(config.allows_version("scarlet"));
    assert!(config.allows_version("violet"));
    assert!(!config.allows_version("sword-shield"));
    assert_eq!(config.clone(), config);
}

#[test]
fn the_configuration_is_what_it_is_given() {
    let config = FilterConfig::new(texts(&["fr"]), texts(&["x-y"]));
    assert!(config.allows_language("fr"));
    assert!(!config.allows_language("en"));
    assert!(config.allows_version("x-y"));
    assert!(!config.allows_version("scarlet-violet"));
    let nothing = FilterConfig::new(vec![], vec![]);
    assert!(!nothing.allows_language("en"));
    assert!(!nothing.allows_version("scarlet"));
}

#[test]
fn an_entry_is_kept_when_language_and_version_are_both_allowed() {
    let config = FilterConfig::scarlet_violet();
    assert!(flavor("t", "en", "scarlet-violet").is_kept(&config));
    assert!(!flavor("t", "fr", "scarlet-violet").is_kept(&config));
    assert!(!flavor("t", "en", "red-blue").is_kept(&config));
    assert!(!flavor("t", "fr", "red-blue").is_kept(&config));
}

#[test]
fn retain_keeps_the_allowed_entries_in_their_order() {
    let config = FilterConfig::scarlet_violet();
    let entries = vec![
        flavor("1", "ja", "scarlet-violet"),
        flavor("2", "de", "scarlet-violet"),
        flavor("3", "en", "scarlet-violet"),
        flavor("4", "en", "x-y"),
        flavor("5", "en", "scarlet-violet"),
    ];
    let kept: Vec<String> = retain(entries, &config).into_iter().map(|e| e.flavor_text).collect();
    assert_eq!(kept, texts(&["1", "3", "5"]));
    assert!(retain(Vec::<FlavorText>::new(), &config).is_empty());
}

#[test]
fn trimming_twice_gives_what_trimming_once_gives() {
    let config = FilterConfig::scarlet_violet();
    let ability: Ability = decode(ABILITY, "ability").unwrap();
    let once = ability.trim(&config);
    let twice = once.clone().trim(&config);
    assert_eq!(twice, once);
    assert_eq!(once.effect_entries.len(), 2);
    assert_eq!(once.flavor_text_entries.len(), 1);
    assert_eq!(once.flavor_text_entries[0].flavor_text, "3");
    assert_eq!(once.names.len(), 1);
    assert_eq!(once.id, 1);
    assert_eq!(once.name, "stench");
}

#[test]
fn trimming_a_list_twice_gives_what_trimming_it_once_gives() {
    let config = FilterConfig::new(texts(&["de"]), texts(&["scarlet-violet"]));
    let abilities: Vec<Ability> =
        vec![decode(ABILITY, "ability").unwrap(), decode(ABILITY, "ability").unwrap()];
    let once = trim_all(abilities, &config);
    let twice = trim_all(once.clone(), &config);
    assert_eq!(once, twice);
    assert_eq!(once.len(), 2);
    assert_eq!(once[0].flavor_text_entries[0].flavor_text, "2");
}

#[test]
fn a_record_whose_collections_become_empty_is_still_kept() {
    let nothing = FilterConfig::new(vec![], vec![]);
    let abilities: Vec<Ability> = vec![decode(ABILITY, "ability").unwrap()];
    let trimmed = trim_all(abilities, &nothing);
    assert_eq!(trimmed.len(), 1);
    assert!(trimmed[0].effect_entries.is_empty());
    assert!(trimmed[0].flavor_text_entries.is_empty());
    assert!(trimmed[0].names.is_empty());
    assert_eq!(trimmed[0].name, "stench");
}

#[test]
fn a_move_loses_only_flavor_texts() {
    let text = r#"{"id": 1, "name": "pound", "accuracy": 100,
        "damage_class": {"name": "physical"}, "effect_chance": null,
        "effect_entries": [{"effect": "e", "short_effect": "s", "language": {"name": "de"}}],
        "flavor_text_entries": [
            {"flavor_text": "a", "language": {"name": "de"}, "version_group": {"name": "scarlet-violet"}},
            {"flavor_text": "b", "language": {"name": "ja"}, "version_group": {"name": "scarlet-violet"}}
        ],
        "names": [{"name": "Pfund", "language": {"name": "de"}}],
        "power": 40, "pp": 35, "priority": 1, "stat_changes": [],
        "target": {"name": "selected-pokemon"}, "type": {"name": "normal"}}"#;
    let m: Move = decode(text, "move").unwrap();
    let trimmed = m.trim(&FilterConfig::scarlet_violet());
    assert_eq!(trimmed.flavor_text_entries, vec![flavor("b", "ja", "scarlet-violet")]);
    assert_eq!(trimmed.effect_entries.len(), 1);
    assert_eq!(trimmed.names.len(), 1);
    assert_eq!(trimmed.power.value(), Some(40));
    assert!(trimmed.priority.is_high_priority());
    let again = trimmed.clone().trim(&FilterConfig::scarlet_violet());
    assert_eq!(again, trimmed);
}

#[test]
fn a_species_loses_only_descriptions_of_other_versions() {
    let text = r#"{"id": 1, "name": "bulbasaur", "color": {"name": "green"},
        "egg_groups": [{"name": "monster"}],
        "flavor_text_entries": [
            {"flavor_text": "a", "version": {"name": "red"}},
            {"flavor_text": "b", "version": {"name": "violet"}}
        ],
        "names": [{"name": "Bisasam"}]}"#;
    let s: PokemonSpecies = decode(text, "pokemon-species").unwrap();
    let trimmed = s.trim(&FilterConfig::scarlet_violet());
    assert_eq!(trimmed.flavor_text_entries.len(), 1);
    assert_eq!(trimmed.flavor_text_entries[0].flavor_text, "b");
    assert_eq!(trimmed.names.len(), 1);
    let again = trimmed.clone().trim(&FilterConfig::scarlet_violet());
    assert_eq!(again, trimmed);
}

#[test]
fn an_item_is_left_as_it_is() {
    let text = r#"{"id": 4, "name": "poke-ball", "cost": 200,
        "effect_entries": [{"effect": "e", "short_effect": "s", "language": {"name": "de"}}],
        "flavor_text_entries": [], "names": []}"#;
    let item: Item = decode(text, "item").unwrap();
    let trimmed = item.clone().trim(&FilterConfig::new(vec![], vec![]));
    assert_eq!(trimmed, item);
}
