use pokedata::application::usecase::load_static_data::LoadStaticDataUsecase;
use pokedata::domain::model::moves::MoveName;
use pokedata::domain::model::moves::Move;
use pokedata::domain::model::pokemon_species::PokemonSpecies;
use pokedata::domain::repository::AbilityRepository;
use pokedata::domain::repository::ItemRepository;
use pokedata::domain::repository::MoveRepository;
use pokedata::domain::repository::PokemonRepository;
use pokedata::domain::repository::PokemonSpeciesRepository;
use pokedata::domain::repository::TypeRepository;
use pokedata::error::ParseError;
use pokedata::filter::FilterConfig;
use pokedata::infrastructure::persistence::file_ability_repository::FileAbilityRepository;
use pokedata::infrastructure::persistence::file_item_repository::FileItemRepository;
use pokedata::infrastructure::persistence::file_move_repository::FileMoveRepository;
use pokedata::infrastructure::persistence::file_pokemon_repository::FilePokemonRepository;
use pokedata::infrastructure::persistence::file_pokemon_species_repository::FilePokemonSpeciesRepository;
use pokedata::infrastructure::persistence::file_type_repository::FileTypeRepository;
use pokedata::infrastructure::persistence::json_loader::load_json_from_directory;
use pokedata::infrastructure::persistence::json_loader::Diagnostic;
use pokedata::infrastructure::persistence::json_loader::Directory;
use pokedata::infrastructure::persistence::json_loader::DirectoryEntry;
use pokedata::infrastructure::persistence::json_loader::LoadReport;

fn file(directory: &str, name: &str, content: &str) -> DirectoryEntry {
    let extension = match name.rfind('.') {
        Some(dot) if dot > 0 => Some(name[dot + 1..].to_string()),
        _ => None,
    };
    DirectoryEntry {
        path: format!("{}{}", directory, name),
        is_file: true,
        extension,
        content: Some(content.to_string()),
    }
}

fn directory(path: &str, files: &[(&str, &str)]) -> Directory {
    let entries = files.iter().map(|(name, content)| file(path, name, content)).collect();
    Directory::with_entries(path.to_string(), entries)
}

const ITEM: &str = r#"{"id": 1, "name": "master-ball", "cost": 0, "effect_entries": [],
    "flavor_text_entries": [], "names": []}"#;

const POKEMON: &str = r#"{"id": 1, "name": "bulbasaur", "abilities": [], "forms": [], "moves": [],
    "species": {"name": "bulbasaur", "url": "u"}, "stats": [], "types": []}"#;

const TYPE: &str = r#"{"id": 10, "name": "fire", "damage_relations": {"no_damage_to": [],
    "half_damage_to": [], "double_damage_to": [], "no_damage_from": [], "half_damage_from": [],
    "double_damage_from": []}, "names": []}"#;

const ABILITY: &str = r#"{"id": 1, "name": "stench",
    "effect_entries": [
        {"effect": "Stinkt.", "short_effect": "stinkt", "language": {"name": "de", "url": "u"}},
        {"effect": "Stinks.", "short_effect": "stinks", "language": {"name": "en", "url": "u"}}
    ],
    "flavor_text_entries": [
        {"flavor_text": "old en", "language": {"name": "en", "url": "u"},
         "version_group": {"name": "sword-shield", "url": "u"}},
        {"flavor_text": "new fr", "language": {"name": "fr", "url": "u"},
         "version_group": {"name": "scarlet-violet", "url": "u"}},
        {"flavor_text": "new ja", "language": {"name": "ja", "url": "u"},
         "version_group": {"name": "scarlet-violet", "url": "u"}}
    ],
    "names": [
        {"name": "Stench", "language": {"name": "en", "url": "u"}},
        {"name": "Puanteur", "language": {"name": "fr", "url": "u"}},
        {"name": "あくしゅう", "language": {"name": "ja", "url": "u"}}
    ]}"#;

fn move_text(id: u32, name: &str) -> String {
    format!(
        r#"{{"id": {}, "name": "{}", "accuracy": 100,
            "damage_class": {{"name": "physical", "url": ""}}, "effect_chance": null,
            "effect_entries": [],
            "flavor_text_entries": [
                {{"flavor_text": "red", "language": {{"name": "en"}},
                  "version_group": {{"name": "red-blue"}}}},
                {{"flavor_text": "sv en", "language": {{"name": "en"}},
                  "version_group": {{"name": "scarlet-violet"}}}},
                {{"flavor_text": "sv ko", "language": {{"name": "ko"}},
                  "version_group": {{"name": "scarlet-violet"}}}},
                {{"flavor_text": "sv ja", "language": {{"name": "ja"}},
                  "version_group": {{"name": "scarlet-violet"}}}}
            ],
            "names": [], "power": 40, "pp": 35, "priority": 0, "stat_changes": [],
            "target": {{"name": "selected-pokemon", "url": ""}},
            "type": {{"name": "normal", "url": ""}}}}"#,
        id, name
    )
}

const SPECIES: &str = r#"{"id": 1, "name": "bulbasaur", "color": {"name": "green", "url": "u"},
    "egg_groups": [{"name": "monster", "url": "u"}],
    "flavor_text_entries": [
        {"flavor_text": "a", "language": {"name": "en"}, "version": {"name": "red"}},
        {"flavor_text": "b", "language": {"name": "en"}, "version": {"name": "scarlet"}},
        {"flavor_text": "c", "language": {"name": "fr"}, "version": {"name": "violet"}},
        {"flavor_text": "d", "language": {"name": "en"}, "version": {"name": "scarlet-violet"}}
    ],
    "names": [{"name": "Bulbasaur", "language": {"name": "en"}}]}"#;

#[test]
fn test_load_json_from_directory() {
    let test_dir = Directory::with_entries(
        "test_data_for_json_loader".to_string(),
        vec![
            file("test_data_for_json_loader/", "test1.json", "{\"name\": \"test1\"}"),
            file("test_data_for_json_loader/", "test2.json", "{\"name\": \"test2\"}"),
            file("test_data_for_json_loader/", "test3.txt", "some text"),
        ],
    );

    let report: LoadReport<MoveName> = load_json_from_directory(&test_dir, "test data");
    let mut result: Vec<String> = report.records.into_iter().map(|r| r.name).collect();
    result.sort();

    assert_eq!(result.len(), 2);
    assert_eq!(result[0], "test1".to_string());
    assert_eq!(result[1], "test2".to_string());
}

#[test]
fn test_load_from_non_existent_directory() {
    let missing = Directory::missing("non_existent_dir_for_test".to_string());
    let report: LoadReport<MoveName> = load_json_from_directory(&missing, "test data");
    assert!(report.records.is_empty());
}

#[test]
fn a_missing_directory_is_reported_once_and_is_no_failure() {
    let missing = Directory::missing("data/nowhere/".to_string());
    let report: LoadReport<Move> = load_json_from_directory(&missing, "moves");
    assert!(report.records.is_empty());
    assert_eq!(
        report.diagnostics,
        vec![Diagnostic::DirectoryMissing { directory: "data/nowhere/".to_string() }]
    );
    let repository = FileMoveRepository::new(
        Directory::missing("data/nowhere/".to_string()),
        FilterConfig::scarlet_violet(),
    );
    assert!(repository.find_all_moves().is_empty());
}

#[test]
fn an_empty_directory_gives_nothing_and_reports_nothing() {
    let empty = Directory::with_entries("data/move/".to_string(), vec![]);
    let report: LoadReport<Move> = load_json_from_directory(&empty, "moves");
    assert!(report.records.is_empty());
    assert!(report.diagnostics.is_empty());
}

#[test]
fn test_find_all_abilities() {
    let repository = FileAbilityRepository::new(
        directory("data/ability/", &[("1.json", ABILITY)]),
        FilterConfig::scarlet_violet(),
    );
    let abilities = repository.find_all_abilities();
    assert!(!abilities.is_empty());
}

#[test]
fn test_find_all_items() {
    let repository = FileItemRepository::new(directory("data/item/", &[("1.json", ITEM)]));
    let items = repository.find_all_items();
    assert!(!items.is_empty());
}

#[test]
fn test_find_all_moves() {
    let pound = move_text(1, "pound");
    let repository = FileMoveRepository::new(
        directory("data/move/", &[("1.json", &pound)]),
        FilterConfig::scarlet_violet(),
    );
    let moves = repository.find_all_moves();
    assert!(!moves.is_empty());
}

#[test]
fn test_find_all_pokemons() {
    let repository = FilePokemonRepository::new(directory("data/pokemon/", &[("1.json", POKEMON)]));
    let pokemons = repository.find_all_pokemons();
    assert!(!pokemons.is_empty());
}

#[test]
fn test_find_all_species() {
    let repository = FilePokemonSpeciesRepository::new(
        directory("data/pokemon-species/", &[("1.json", SPECIES)]),
        FilterConfig::scarlet_violet(),
    );
    let species = repository.find_all_species();
    assert!(!species.is_empty());
}

#[test]
fn test_find_all_types() {
    let repository = FileTypeRepository::new(directory("data/type/", &[("10.json", TYPE)]));
    let types = repository.find_all_types();
    assert!(!types.is_empty());
}

#[test]
fn test_load_static_data_usecase() {
    let pound = move_text(1, "pound");
    let item_repository = FileItemRepository::new(directory("data/item/", &[("1.json", ITEM)]));
    let pokemon_repository =
        FilePokemonRepository::new(directory("data/pokemon/", &[("1.json", POKEMON)]));
    let move_repository = FileMoveRepository::new(
        directory("data/move/", &[("1.json", &pound)]),
        FilterConfig::scarlet_violet(),
    );
    let pokemon_species_repository = FilePokemonSpeciesRepository::new(
        directory("data/pokemon-species/", &[("1.json", SPECIES)]),
        FilterConfig::scarlet_violet(),
    );
    let type_repository = FileTypeRepository::new(directory("data/type/", &[("10.json", TYPE)]));
    let ability_repository = FileAbilityRepository::new(
        directory("data/ability/", &[("1.json", ABILITY)]),
        FilterConfig::scarlet_violet(),
    );

    let usecase = LoadStaticDataUsecase::new(
        item_repository,
        pokemon_repository,
        move_repository,
        pokemon_species_repository,
        type_repository,
        ability_repository,
    );

    let loaded_data = usecase.execute();

    assert!(!loaded_data.items.is_empty());
    assert!(!loaded_data.pokemons.is_empty());
    assert!(!loaded_data.moves.is_empty());
    assert!(!loaded_data.pokemon_species.is_empty());
    assert!(!loaded_data.types.is_empty());
    assert!(!loaded_data.abilities.is_empty());
}

#[test]
fn the_snapshot_holds_what_each_repository_hands_out() {
    let pound = move_text(1, "pound");
    let usecase = LoadStaticDataUsecase::new(
        FileItemRepository::new(directory("data/item/", &[("1.json", ITEM), ("2.json", ITEM)])),
        FilePokemonRepository::new(Directory::missing("data/pokemon/".to_string())),
        FileMoveRepository::new(
            directory("data/move/", &[("1.json", &pound)]),
            FilterConfig::scarlet_violet(),
        ),
        FilePokemonSpeciesRepository::new(
            directory("data/pokemon-species/", &[("1.json", SPECIES)]),
            FilterConfig::scarlet_violet(),
        ),
        FileTypeRepository::new(directory("data/type/", &[("10.json", TYPE)])),
        FileAbilityRepository::new(
            directory("data/ability/", &[("1.json", ABILITY)]),
            FilterConfig::scarlet_violet(),
        ),
    );
    let data = usecase.execute();
    assert_eq!(data.items, usecase.item_repository.find_all_items());
    assert_eq!(data.pokemons, usecase.pokemon_repository.find_all_pokemons());
    assert_eq!(data.moves, usecase.move_repository.find_all_moves());
    assert_eq!(data.pokemon_species, usecase.pokemon_species_repository.find_all_species());
    assert_eq!(data.types, usecase.type_repository.find_all_types());
    assert_eq!(data.abilities, usecase.ability_repository.find_all_abilities());
    assert_eq!(data.items.len(), 2);
    assert!(data.pokemons.is_empty());
    assert_eq!(data.types[0].name, "fire");
}

#[test]
fn two_valid_moves_and_one_bad_file_give_two_moves_and_one_diagnostic() {
    let pound = move_text(1, "pound");
    let growl = move_text(45, "growl");
    let repository = FileMoveRepository::new(
        directory(
            "move/",
            &[("1.json", &pound), ("bad.json", r#"{"name": "bad"}"#), ("45.json", &growl)],
        ),
        FilterConfig::scarlet_violet(),
    );
    let report = repository.load();
    let ids: Vec<u32> = report.records.iter().map(|m| m.id).collect();
    assert_eq!(ids, vec![1, 45]);
    assert_eq!(
        report.diagnostics,
        vec![Diagnostic::Rejected {
            path: "move/bad.json".to_string(),
            error: ParseError::Missing { field: "id" },
        }]
    );
    for record in &report.records {
        let kept: Vec<&str> =
            record.flavor_text_entries.iter().map(|e| e.flavor_text.as_str()).collect();
        assert_eq!(kept, vec!["sv en", "sv ja"]);
        for entry in &record.flavor_text_entries {
            assert_eq!(entry.version_group.name, "scarlet-violet");
        }
    }
    assert_eq!(repository.find_all_moves(), report.records);
}

#[test]
fn a_species_of_unknown_colour_is_left_out_of_the_collection() {
    let mauve = SPECIES.replace("green", "mauve");
    let repository = FilePokemonSpeciesRepository::new(
        directory("data/pokemon-species/", &[("1.json", SPECIES), ("2.json", &mauve)]),
        FilterConfig::scarlet_violet(),
    );
    let report = repository.load();
    assert_eq!(report.records.len(), 1);
    assert_eq!(report.records[0].name, "bulbasaur");
    assert_eq!(
        report.diagnostics,
        vec![Diagnostic::Rejected {
            path: "data/pokemon-species/2.json".to_string(),
            error: ParseError::Unknown { field: "color", value: "mauve".to_string() },
        }]
    );
}

#[test]
fn n_valid_and_m_invalid_files_give_n_records_and_m_diagnostics() {
    let mut entries = Vec::new();
    for i in 0..7u32 {
        entries.push(file("d/", &format!("ok{}.json", i), &format!(r#"{{"name": "n{}"}}"#, i)));
        if i % 2 == 0 {
            entries.push(file("d/", &format!("bad{}.json", i), "{\"name\": 1}"));
        }
        if i % 3 == 0 {
            entries.push(file("d/", &format!("broken{}.json", i), "{"));
        }
    }
    let report: LoadReport<MoveName> =
        load_json_from_directory(&Directory::with_entries("d/".to_string(), entries), "names");
    assert_eq!(report.records.len(), 7);
    assert_eq!(report.diagnostics.len(), 4 + 3);
    let names: Vec<String> = report.records.into_iter().map(|r| r.name).collect();
    assert_eq!(names, vec!["n0", "n1", "n2", "n3", "n4", "n5", "n6"]);
}

#[test]
fn entries_that_are_no_json_files_are_passed_over_in_silence() {
    let entries = vec![
        file("d/", "notes.txt", "{\"name\": \"a\"}"),
        file("d/", "README", "{\"name\": \"b\"}"),
        file("d/", "upper.JSON", "{\"name\": \"c\"}"),
        file("d/", "data.json.bak", "{\"name\": \"d\"}"),
        DirectoryEntry {
            path: "d/sub.json".to_string(),
            is_file: false,
            extension: Some("json".to_string()),
            content: None,
        },
        file("d/", "real.json", "{\"name\": \"e\"}"),
    ];
    assert_eq!(
        entries.iter().map(|e| e.is_candidate()).collect::<Vec<bool>>(),
        vec![false, false, false, false, false, true]
    );
    let report: LoadReport<MoveName> =
        load_json_from_directory(&Directory::with_entries("d/".to_string(), entries), "names");
    assert_eq!(report.records, vec![MoveName::new("e".to_string())]);
    assert!(report.diagnostics.is_empty());
}

#[test]
fn a_file_that_could_not_be_read_is_dropped_with_a_diagnostic() {
    let entries = vec![
        file("d/", "a.json", "{\"name\": \"a\"}"),
        DirectoryEntry {
            path: "d/locked.json".to_string(),
            is_file: true,
            extension: Some("json".to_string()),
            content: None,
        },
        file("d/", "b.json", "{\"name\": \"b\"}"),
    ];
    let report: LoadReport<MoveName> =
        load_json_from_directory(&Directory::with_entries("d/".to_string(), entries), "names");
    assert_eq!(
        report.records,
        vec![MoveName::new("a".to_string()), MoveName::new("b".to_string())]
    );
    assert_eq!(
        report.diagnostics,
        vec![Diagnostic::FileUnreadable { path: "d/locked.json".to_string() }]
    );
}

#[test]
fn records_come_in_the_order_of_the_entries() {
    let report: LoadReport<MoveName> = load_json_from_directory(
        &directory(
            "d/",
            &[("z.json", r#"{"name": "z"}"#), ("a.json", r#"{"name": "a"}"#), ("m.json", r#"{"name": "m"}"#)],
        ),
        "names",
    );
    let names: Vec<String> = report.records.into_iter().map(|r| r.name).collect();
    assert_eq!(names, vec!["z", "a", "m"]);
}

#[test]
fn species_keep_the_descriptions_of_the_allowed_versions() {
    let repository = FilePokemonSpeciesRepository::new(
        directory("data/pokemon-species/", &[("1.json", SPECIES)]),
        FilterConfig::scarlet_violet(),
    );
    let species: Vec<PokemonSpecies> = repository.find_all_species();
    let kept: Vec<&str> =
        species[0].flavor_text_entries.iter().map(|e| e.flavor_text.as_str()).collect();
    assert_eq!(kept, vec!["b", "c", "d"]);
    assert_eq!(species[0].names.len(), 1);
    assert_eq!(species[0].egg_groups, vec!["monster"]);
}

#[test]
fn abilities_keep_the_entries_of_the_allowed_languages_and_versions() {
    let repository = FileAbilityRepository::new(
        directory("data/ability/", &[("1.json", ABILITY)]),
        FilterConfig::scarlet_violet(),
    );
    let abilities = repository.find_all_abilities();
    let ability = &abilities[0];
    assert_eq!(ability.effect_entries.len(), 1);
    assert_eq!(ability.effect_entries[0].effect, "Stinks.");
    assert_eq!(ability.flavor_text_entries.len(), 1);
    assert_eq!(ability.flavor_text_entries[0].flavor_text, "new ja");
    let names: Vec<&str> = ability.names.iter().map(|n| n.name.as_str()).collect();
    assert_eq!(names, vec!["Stench", "あくしゅう"]);
}

#[test]
fn items_pokemon_and_types_are_not_trimmed() {
    let text = r#"{"id": 4, "name": "poke-ball", "cost": 200,
        "effect_entries": [{"effect": "e", "short_effect": "s", "language": {"name": "de"}}],
        "flavor_text_entries": [{"text": "t", "language": {"name": "fr"},
                                 "version_group": {"name": "red-blue"}}],
        "names": [{"name": "n", "language": {"name": "ko"}}]}"#;
    let repository = FileItemRepository::new(directory("data/item/", &[("4.json", text)]));
    let items = repository.find_all_items();
    assert_eq!(items[0].effect_entries.len(), 1);
    assert_eq!(items[0].flavor_text_entries.len(), 1);
    assert_eq!(items[0].names.len(), 1);
}
