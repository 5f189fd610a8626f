use pokedata::decode::decode;
use pokedata::decode::FromJson;
use pokedata::domain::model::ability::Ability;
use pokedata::domain::model::item::Item;
use pokedata::domain::model::moves::DamageClass;
use pokedata::domain::model::moves::Move;
use pokedata::domain::model::moves::MoveTarget;
use pokedata::domain::model::poke_type::PokeType;
use pokedata::domain::model::pokemon::Pokemon;
use pokedata::domain::model::pokemon::PokemonStat;
use pokedata::domain::model::pokemon_species::PokemonColor;
use pokedata::domain::model::pokemon_species::PokemonSpecies;
use pokedata::domain::model::stats::StatName;
use pokedata::error::FailureKind;
use pokedata::error::ParseError;
use pokedata::json::JsonKind;
use pokedata::json::JsonValue;

#[test]
fn test_deserialize_ability() {
    let json_data = r#"
        {
            "id": 1,
            "name": "stench",
            "effect_entries": [],
            "flavor_text_entries": [],
            "names": []
        }
        "#;

    let ability: Ability = decode(json_data, "ability").unwrap();
    assert_eq!(ability.id, 1);
    assert_eq!(ability.name, "stench");
}

#[test]
fn test_deserialize_item() {
    let json_data = r#"
        {
            "id": 1,
            "name": "master-ball",
            "cost": 0,
            "effect_entries": [],
            "flavor_text_entries": [],
            "names": []
        }
        "#;

    let item: Item = decode(json_data, "item").unwrap();
    assert_eq!(item.id, 1);
    assert_eq!(item.name, "master-ball");
}

#[test]
fn test_deserialize_move() {
    let json_data = r#"
        {
            "id": 1,
            "name": "pound",
            "accuracy": 100,
            "damage_class": { "name": "physical", "url": "" },
            "effect_chance": null,
            "effect_entries": [],
            "flavor_text_entries": [],
            "names": [],
            "power": 40,
            "pp": 35,
            "priority": 0,
            "stat_changes": [],
            "target": { "name": "selected-pokemon", "url": "" },
            "type": { "name": "normal", "url": "" }
        }
        "#;

    let move_obj: Move = decode(json_data, "move").unwrap();
    assert_eq!(move_obj.id, 1);
    assert_eq!(move_obj.name, "pound");
    assert_eq!(move_obj.damage_class, DamageClass::Physical);
    assert_eq!(move_obj.target, MoveTarget::SelectedPokemon);
    assert_eq!(move_obj.type_info.name, "normal");
    assert_eq!(move_obj.power.value(), Some(40));
    assert_eq!(move_obj.pp.value(), 35);
    assert_eq!(move_obj.priority.value(), 0);
}

#[test]
fn test_deserialize_status_move() {
    let json_data = r#"
        {
            "id": 45,
            "name": "growl",
            "accuracy": 100,
            "damage_class": { "name": "status", "url": "" },
            "effect_chance": null,
            "effect_entries": [],
            "flavor_text_entries": [],
            "names": [],
            "power": null,
            "pp": 40,
            "priority": 0,
            "stat_changes": [],
            "target": { "name": "all-opponents", "url": "" },
            "type": { "name": "normal", "url": "" }
        }
        "#;

    let move_obj: Move = decode(json_data, "move").unwrap();
    assert_eq!(move_obj.id, 45);
    assert_eq!(move_obj.name, "growl");
    assert_eq!(move_obj.damage_class, DamageClass::Status);
    assert_eq!(move_obj.target, MoveTarget::AllOpponents);
    assert_eq!(move_obj.type_info.name, "normal");
    assert_eq!(move_obj.power.value(), None); // Status moves have no power
    assert_eq!(move_obj.pp.value(), 40);
    assert_eq!(move_obj.priority.value(), 0);
}

#[test]
fn test_deserialize_poke_type() {
    let json_data = r#"
        {
            "id": 10,
            "name": "fire",
            "damage_relations": {
                "no_damage_to": [],
                "half_damage_to": [],
                "double_damage_to": [],
                "no_damage_from": [],
                "half_damage_from": [],
                "double_damage_from": []
            },
            "names": []
        }
        "#;

    let poke_type: PokeType = decode(json_data, "type").unwrap();
    assert_eq!(poke_type.id, 10);
    assert_eq!(poke_type.name, "fire");
}

#[test]
fn test_deserialize_pokemon() {
    let json_data = r#"
        {
            "id": 1,
            "name": "bulbasaur",
            "abilities": [
                {
                    "ability": {
                        "name": "overgrow",
                        "url": "https://pokeapi.co/api/v2/ability/65/"
                    },
                    "is_hidden": false,
                    "slot": 1
                }
            ],
            "forms": [],
            "moves": [
                {
                    "move": {
                        "name": "tackle",
                        "url": "https://pokeapi.co/api/v2/move/33/"
                    }
                }
            ],
            "species": {
                "name": "bulbasaur",
                "url": "https://pokeapi.co/api/v2/pokemon-species/1/"
            },
            "stats": [
                {
                    "base_stat": 45,
                    "effort": 0,
                    "stat": {
                        "name": "hp",
                        "url": "https://pokeapi.co/api/v2/stat/1/"
                    }
                },
                {
                    "base_stat": 49,
                    "effort": 0,
                    "stat": {
                        "name": "attack",
                        "url": "https://pokeapi.co/api/v2/stat/2/"
                    }
                }
            ],
            "types": [
                {
                    "slot": 1,
                    "type": {
                        "name": "grass",
                        "url": "https://pokeapi.co/api/v2/type/12/"
                    }
                }
            ]
        }
        "#;

    let pokemon: Pokemon = decode(json_data, "pokemon").unwrap();
    assert_eq!(pokemon.id, 1);
    assert_eq!(pokemon.name, "bulbasaur");
    assert_eq!(pokemon.abilities.len(), 1);
    assert_eq!(pokemon.abilities[0].ability.name, "overgrow");
    assert_eq!(pokemon.moves.len(), 1);
    assert_eq!(pokemon.moves[0].move_name.name, "tackle");
    assert_eq!(pokemon.species, Some("bulbasaur".to_string()));
    assert_eq!(pokemon.stats.len(), 2);
    assert_eq!(pokemon.stats[0].stat, StatName::Hp);
    assert_eq!(pokemon.stats[0].base_stat, 45);
    assert_eq!(pokemon.stats[1].stat, StatName::Attack);
    assert_eq!(pokemon.stats[1].base_stat, 49);
    assert_eq!(pokemon.types.len(), 1);
    assert_eq!(pokemon.types[0].type_info.name, "grass");
}

#[test]
fn test_deserialize_pokemon_species() {
    let json_data = r#"
        {
            "id": 1,
            "name": "bulbasaur",
            "color": {
                "name": "green",
                "url": "https://pokeapi.co/api/v2/pokemon-color/5/"
            },
            "egg_groups": [],
            "flavor_text_entries": [],
            "names": []
        }
        "#;

    let species: PokemonSpecies = decode(json_data, "pokemon-species").unwrap();
    assert_eq!(species.id, 1);
    assert_eq!(species.name, "bulbasaur");
}

const FULL_MOVE: &str = r#"{
    "id": 45, "name": "growl", "accuracy": 100,
    "damage_class": {"name": "status", "url": "https://pokeapi.co/api/v2/move-damage-class/1/"},
    "effect_chance": 30,
    "effect_entries": [{"effect": "Lowers Attack.", "short_effect": "Atk -1",
                        "language": {"name": "en", "url": "u"}}],
    "flavor_text_entries": [
        {"flavor_text": "old", "language": {"name": "en", "url": "u"},
         "version_group": {"name": "red-blue", "url": "u"}},
        {"flavor_text": "new", "language": {"name": "en", "url": "u"},
         "version_group": {"name": "scarlet-violet", "url": "u"}}
    ],
    "names": [{"name": "Growl", "language": {"name": "en", "url": "u"}},
              {"name": "なきごえ", "language": {"name": "ja", "url": "u"}}],
    "power": null, "pp": 40, "priority": -3,
    "stat_changes": [{"change": -1, "stat": {"name": "attack", "url": "u"}}],
    "target": {"name": "all-opponents", "url": "u"},
    "type": {"name": "normal", "url": "u"},
    "generation": {"name": "generation-i", "url": "u"}
}"#;

#[test]
fn a_move_is_decoded_field_by_field() {
    let m: Move = decode(FULL_MOVE, "move").unwrap();
    assert_eq!(m.accuracy, Some(100));
    assert_eq!(m.effect_chance, Some(30));
    assert_eq!(m.effect_entries.len(), 1);
    assert_eq!(m.effect_entries[0].effect, "Lowers Attack.");
    assert_eq!(m.effect_entries[0].short_effect, "Atk -1");
    assert_eq!(m.flavor_text_entries.len(), 2);
    assert_eq!(m.flavor_text_entries[0].flavor_text, "old");
    assert_eq!(m.flavor_text_entries[0].language.code, "en");
    assert_eq!(m.flavor_text_entries[0].version_group.name, "red-blue");
    assert_eq!(m.flavor_text_entries[1].version_group.name, "scarlet-violet");
    assert_eq!(m.names.len(), 2);
    assert_eq!(m.names[0].name, "Growl");
    assert_eq!(m.names[1].name, "なきごえ");
    assert!(m.power.is_none());
    assert_eq!(m.priority.value(), -3);
    assert!(m.priority.is_low_priority());
    assert!(!m.priority.is_high_priority());
    assert!(!m.priority.is_normal_priority());
    assert_eq!(m.stat_changes.len(), 1);
    assert_eq!(m.stat_changes[0].change, -1);
    assert_eq!(m.stat_changes[0].stat, StatName::Attack);
    assert!(m.damage_class.is_status());
    assert!(!m.damage_class.is_physical());
    assert!(!m.damage_class.is_special());
}

#[test]
fn an_item_is_decoded_field_by_field() {
    let item: Item = decode(
        r#"{"id": 4, "name": "poke-ball", "cost": 200,
            "effect_entries": [{"effect": "Catches.", "short_effect": "Catch",
                                "language": {"name": "en", "url": "u"}}],
            "flavor_text_entries": [{"text": "A device.", "language": {"name": "ja", "url": "u"},
                                     "version_group": {"name": "sword-shield", "url": "u"}}],
            "names": [{"name": "Poké Ball", "language": {"name": "fr", "url": "u"}}]}"#,
        "item",
    )
    .unwrap();
    assert_eq!(item.cost, Some(200));
    assert_eq!(item.effect_entries[0].effect, "Catches.");
    assert_eq!(item.effect_entries[0].short_effect, "Catch");
    assert_eq!(item.effect_entries[0].language.code, "en");
    assert_eq!(item.flavor_text_entries[0].flavor_text, "A device.");
    assert_eq!(item.flavor_text_entries[0].language.code, "ja");
    assert_eq!(item.flavor_text_entries[0].version_group.name, "sword-shield");
    assert_eq!(item.names[0].name, "Poké Ball");
    assert_eq!(item.names[0].language.code, "fr");
}

#[test]
fn an_absent_cost_and_a_null_cost_are_no_cost_and_zero_is_a_cost() {
    let absent: Item = decode(
        r#"{"id": 1, "name": "x", "effect_entries": [], "flavor_text_entries": [], "names": []}"#,
        "item",
    )
    .unwrap();
    assert_eq!(absent.cost, None);
    let null: Item = decode(
        r#"{"id": 1, "name": "x", "cost": null, "effect_entries": [],
            "flavor_text_entries": [], "names": []}"#,
        "item",
    )
    .unwrap();
    assert_eq!(null.cost, None);
    let zero: Item = decode(
        r#"{"id": 1, "name": "x", "cost": 0, "effect_entries": [],
            "flavor_text_entries": [], "names": []}"#,
        "item",
    )
    .unwrap();
    assert_eq!(zero.cost, Some(0));
}

#[test]
fn a_type_keeps_the_names_of_its_damage_relations_in_order() {
    let t: PokeType = decode(
        r#"{"id": 10, "name": "fire",
            "damage_relations": {
                "no_damage_to": [],
                "half_damage_to": [{"name": "fire", "url": "u"}, {"name": "water", "url": "u"}],
                "double_damage_to": [{"name": "grass", "url": "u"}],
                "no_damage_from": [],
                "half_damage_from": [{"name": "steel"}],
                "double_damage_from": [{"name": "water", "url": null}, {"name": "ground", "url": "u"}]
            },
            "names": [{"name": "Feuer", "language": {"name": "de", "url": "u"}}]}"#,
        "type",
    )
    .unwrap();
    let names = |v: &Vec<pokedata::domain::model::common::PokemonTypeName>| -> Vec<String> {
        v.iter().map(|n| n.name.clone()).collect()
    };
    assert_eq!(names(&t.damage_relations.half_damage_to), vec!["fire", "water"]);
    assert_eq!(names(&t.damage_relations.double_damage_to), vec!["grass"]);
    assert_eq!(names(&t.damage_relations.half_damage_from), vec!["steel"]);
    assert_eq!(names(&t.damage_relations.double_damage_from), vec!["water", "ground"]);
    assert!(t.damage_relations.no_damage_to.is_empty());
    assert!(t.damage_relations.no_damage_from.is_empty());
    assert_eq!(t.names[0].name, "Feuer");
    assert_eq!(t.names[0].language.code, "de");
}

#[test]
fn a_species_is_decoded_field_by_field() {
    let s: PokemonSpecies = decode(
        r#"{"id": 1, "name": "bulbasaur", "color": {"name": "green", "url": "u"},
            "egg_groups": [{"name": "monster", "url": "u"}, {"name": "plant", "url": "u"}],
            "flavor_text_entries": [{"flavor_text": "A seed.", "language": {"name": "en"},
                                     "version": {"name": "scarlet", "url": "u"}}],
            "names": [{"name": "Bulbasaur", "language": {"name": "en"}}]}"#,
        "pokemon-species",
    )
    .unwrap();
    assert_eq!(s.color, PokemonColor::Green);
    assert_eq!(s.egg_groups, vec!["monster", "plant"]);
    assert_eq!(s.flavor_text_entries[0].flavor_text, "A seed.");
    assert_eq!(s.flavor_text_entries[0].version.name, "scarlet");
    assert_eq!(s.names[0].name, "Bulbasaur");
}

#[test]
fn an_ability_keeps_the_language_of_each_entry() {
    let a: Ability = decode(
        r#"{"id": 1, "name": "stench",
            "effect_entries": [{"effect": "e", "short_effect": "s", "language": {"name": "de"}}],
            "flavor_text_entries": [{"flavor_text": "f", "language": {"name": "en"},
                                     "version_group": {"name": "scarlet-violet"}}],
            "names": [{"name": "Stench", "language": {"name": "en"}}]}"#,
        "ability",
    )
    .unwrap();
    assert_eq!(a.effect_entries[0].language.code, "de");
    assert_eq!(a.flavor_text_entries[0].language.code, "en");
    assert_eq!(a.flavor_text_entries[0].version_group.name, "scarlet-violet");
    assert_eq!(a.names[0].language.code, "en");
}

#[test]
fn a_pokemon_without_a_species_has_none_but_must_mention_it() {
    let with_null: Pokemon = decode(
        r#"{"id": 1, "name": "x", "abilities": [], "forms": [{"name": "x", "url": "u"}],
            "moves": [], "species": null, "stats": [], "types": []}"#,
        "pokemon",
    )
    .unwrap();
    assert_eq!(with_null.species, None);
    assert_eq!(with_null.forms[0].name, "x");
    let silent: Result<Pokemon, ParseError> = decode(
        r#"{"id": 1, "name": "x", "abilities": [], "forms": [], "moves": [], "stats": [],
            "types": []}"#,
        "pokemon",
    );
    assert_eq!(silent, Err(ParseError::Missing { field: "species" }));
}

#[test]
fn a_move_that_does_not_mention_its_power_is_rejected() {
    let text = FULL_MOVE.replace("\"power\": null, ", "");
    let r: Result<Move, ParseError> = decode(&text, "move");
    assert_eq!(r, Err(ParseError::Missing { field: "power" }));
}

#[test]
fn text_that_is_no_json_is_a_syntax_failure_with_its_place() {
    let r: Result<Item, ParseError> = decode("{\"id\": 1,\n  \"name\": }", "item");
    assert_eq!(r, Err(ParseError::Syntax { line: 2, column: 11 }));
    assert_eq!(r.unwrap_err().kind(), FailureKind::SchemaParseFailure);
    let empty: Result<Item, ParseError> = decode("", "item");
    assert_eq!(empty, Err(ParseError::Syntax { line: 1, column: 0 }));
}

#[test]
fn a_missing_field_is_named() {
    let r: Result<Move, ParseError> = decode(r#"{"name": "bad"}"#, "move");
    assert_eq!(r, Err(ParseError::Missing { field: "id" }));
    let e = r.unwrap_err();
    assert_eq!(e.field(), Some("id"));
    assert_eq!(e.kind(), FailureKind::SchemaParseFailure);
}

#[test]
fn a_mistyped_field_is_named_with_the_kind_that_was_found() {
    let r: Result<Item, ParseError> = decode(
        r#"{"id": "1", "name": "x", "effect_entries": [], "flavor_text_entries": [], "names": []}"#,
        "item",
    );
    assert_eq!(r, Err(ParseError::Mistyped { field: "id", found: JsonKind::Text }));
    let r: Result<Item, ParseError> = decode(
        r#"{"id": 1.5, "name": "x", "effect_entries": [], "flavor_text_entries": [], "names": []}"#,
        "item",
    );
    assert_eq!(r, Err(ParseError::Mistyped { field: "id", found: JsonKind::Fraction }));
    let r: Result<Item, ParseError> = decode(
        r#"{"id": 1, "name": "x", "effect_entries": {}, "flavor_text_entries": [], "names": []}"#,
        "item",
    );
    assert_eq!(r, Err(ParseError::Mistyped { field: "effect_entries", found: JsonKind::Object }));
    let r: Result<Item, ParseError> = decode(
        r#"{"id": 1, "name": "x", "effect_entries": [7], "flavor_text_entries": [], "names": []}"#,
        "item",
    );
    assert_eq!(r, Err(ParseError::Mistyped { field: "effect_entries", found: JsonKind::Integer }));
    let r: Result<Item, ParseError> = decode("[1, 2]", "item");
    assert_eq!(r, Err(ParseError::Mistyped { field: "item", found: JsonKind::Array }));
    let r: Result<Item, ParseError> = decode("null", "item");
    assert_eq!(r, Err(ParseError::Mistyped { field: "item", found: JsonKind::Null }));
    let r: Result<Item, ParseError> = decode("true", "item");
    assert_eq!(r, Err(ParseError::Mistyped { field: "item", found: JsonKind::Bool }));
}

#[test]
fn a_number_out_of_range_is_named_with_its_value() {
    let r: Result<Item, ParseError> = decode(
        r#"{"id": 4294967296, "name": "x", "effect_entries": [], "flavor_text_entries": [],
            "names": []}"#,
        "item",
    );
    assert_eq!(r, Err(ParseError::OutOfRange { field: "id", number: 4294967296 }));
    let r: Result<Item, ParseError> = decode(
        r#"{"id": -1, "name": "x", "effect_entries": [], "flavor_text_entries": [], "names": []}"#,
        "item",
    );
    assert_eq!(r, Err(ParseError::OutOfRange { field: "id", number: -1 }));
    let top: Item = decode(
        r#"{"id": 4294967295, "name": "x", "effect_entries": [], "flavor_text_entries": [],
            "names": []}"#,
        "item",
    )
    .unwrap();
    assert_eq!(top.id, u32::MAX);
    let text = FULL_MOVE.replace("\"priority\": -3", "\"priority\": -2147483649");
    let r: Result<Move, ParseError> = decode(&text, "move");
    assert_eq!(r, Err(ParseError::OutOfRange { field: "priority", number: -2147483649 }));
    let text = FULL_MOVE.replace("\"priority\": -3", "\"priority\": -2147483648");
    let m: Move = decode(&text, "move").unwrap();
    assert_eq!(m.priority.value(), i32::MIN);
}

#[test]
fn an_unknown_name_in_a_closed_vocabulary_is_named_with_its_value() {
    let text = FULL_MOVE.replace("\"name\": \"status\"", "\"name\": \"psychic\"");
    let r: Result<Move, ParseError> = decode(&text, "move");
    assert_eq!(
        r,
        Err(ParseError::Unknown { field: "damage_class", value: "psychic".to_string() })
    );
    let e = r.unwrap_err();
    assert_eq!(e.kind(), FailureKind::EnumMappingFailure);
    assert_eq!(e.field(), Some("damage_class"));
    let text = FULL_MOVE.replace("\"name\": \"attack\"", "\"name\": \"luck\"");
    let r: Result<Move, ParseError> = decode(&text, "move");
    assert_eq!(r, Err(ParseError::Unknown { field: "stat", value: "luck".to_string() }));
    let text = FULL_MOVE.replace("all-opponents", "nobody");
    let r: Result<Move, ParseError> = decode(&text, "move");
    assert_eq!(r, Err(ParseError::Unknown { field: "target", value: "nobody".to_string() }));
}

#[test]
fn a_species_of_unknown_colour_is_no_species() {
    let r: Result<PokemonSpecies, ParseError> = decode(
        r#"{"id": 1, "name": "bulbasaur", "color": {"name": "mauve", "url": "u"},
            "egg_groups": [], "flavor_text_entries": [], "names": []}"#,
        "pokemon-species",
    );
    assert_eq!(r, Err(ParseError::Unknown { field: "color", value: "mauve".to_string() }));
}

#[test]
fn the_first_fault_in_the_order_of_the_fields_is_reported() {
    let r: Result<Item, ParseError> = decode(r#"{"name": 5, "cost": "free"}"#, "item");
    assert_eq!(r, Err(ParseError::Missing { field: "id" }));
    let r: Result<Item, ParseError> = decode(r#"{"id": 1, "name": 5, "cost": "free"}"#, "item");
    assert_eq!(r, Err(ParseError::Mistyped { field: "name", found: JsonKind::Integer }));
    let r: Result<Item, ParseError> = decode(r#"{"id": 1, "name": "x", "cost": "free"}"#, "item");
    assert_eq!(r, Err(ParseError::Mistyped { field: "cost", found: JsonKind::Text }));
}

#[test]
fn one_bad_element_fails_the_whole_record() {
    let r: Result<Pokemon, ParseError> = decode(
        r#"{"id": 1, "name": "x", "abilities": [], "forms": [], "moves": [], "species": null,
            "stats": [
                {"base_stat": 45, "effort": 0, "stat": {"name": "hp"}},
                {"base_stat": 45, "effort": 0, "stat": {"name": "charm"}},
                {"base_stat": "x", "effort": 0, "stat": {"name": "speed"}}
            ],
            "types": []}"#,
        "pokemon",
    );
    assert_eq!(r, Err(ParseError::Unknown { field: "stat", value: "charm".to_string() }));
}

#[test]
fn a_stat_entry_is_written_as_it_is_read() {
    let entry = PokemonStat { stat: StatName::SpecialDefense, effort: 2, base_stat: 65 };
    let json = entry.to_json();
    assert_eq!(
        json,
        JsonValue::Object(vec![
            (
                "stat".to_string(),
                JsonValue::Object(vec![
                    ("name".to_string(), JsonValue::Text("special-defense".to_string())),
                    ("url".to_string(), JsonValue::Text(String::new())),
                ])
            ),
            ("effort".to_string(), JsonValue::Number(Some(2))),
            ("base_stat".to_string(), JsonValue::Number(Some(65))),
        ])
    );
    assert_eq!(PokemonStat::from_json(&json, "stats"), Ok(entry));
    let largest = PokemonStat { stat: StatName::Hp, effort: u32::MAX, base_stat: u32::MAX };
    assert_eq!(PokemonStat::from_json(&largest.to_json(), "stats"), Ok(largest));
}
