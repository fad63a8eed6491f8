use ferium_config::codec::{JsonForm, SchemaError};
use ferium_config::json::Json;
use ferium_config::order::sort_by_name;
use ferium_config::schema::{Mod, ModIdentifier, ModLoader, Profile};
use ferium_config::store::{load_profile, read_profile, write_profile, Opened, ReadError};

fn named(name: &str, id: i32) -> Mod {
    Mod { name: name.to_string(), identifier: ModIdentifier::CurseForgeProject(id) }
}

fn names(mods: &[Mod]) -> Vec<&str> {
    mods.iter().map(|m| m.name.as_str()).collect()
}

fn sample() -> Profile {
    Profile {
        output_dir: "/home/steve/.minecraft/mods".to_string(),
        game_versions: vec!["1.20.1".to_string(), "1.20".to_string()],
        mod_loaders: vec![ModLoader::Quilt, ModLoader::Fabric],
        mods: vec![
            Mod {
                name: "Sodium".to_string(),
                identifier: ModIdentifier::ModrinthProject("AANobbMI".to_string()),
            },
            named("just enough items", 238222),
            Mod {
                name: "Iris".to_string(),
                identifier: ModIdentifier::GitHubRepository(
                    "IrisShaders".to_string(),
                    "Iris".to_string(),
                ),
            },
        ],
        game_version: None,
        mod_loader: None,
    }
}

fn contents(text: &str) -> Opened<std::io::Error> {
    Opened::Contents(text.as_bytes().to_vec())
}

#[test]
fn sorting_ignores_case_and_keeps_ties_in_place() {
    let mods = vec![named("Zeta", 1), named("alpha", 2), named("Alpha", 3), named("beta", 4)];
    let sorted = sort_by_name(mods);
    assert_eq!(names(&sorted), vec!["alpha", "Alpha", "beta", "Zeta"]);
    assert_eq!(sorted[0].identifier, ModIdentifier::CurseForgeProject(2));
    assert_eq!(sorted[1].identifier, ModIdentifier::CurseForgeProject(3));
}

#[test]
fn sorting_keeps_every_tie_in_its_first_order() {
    let mods = vec![named("b", 1), named("B", 2), named("a", 3), named("A", 4), named("b", 5)];
    let sorted = sort_by_name(mods);
    assert_eq!(names(&sorted), vec!["a", "A", "b", "B", "b"]);
    let ids: Vec<ModIdentifier> = sorted.into_iter().map(|m| m.identifier).collect();
    assert_eq!(
        ids,
        vec![
            ModIdentifier::CurseForgeProject(3),
            ModIdentifier::CurseForgeProject(4),
            ModIdentifier::CurseForgeProject(1),
            ModIdentifier::CurseForgeProject(2),
            ModIdentifier::CurseForgeProject(5),
        ]
    );
}

#[test]
fn sorting_puts_a_prefix_first() {
    let sorted = sort_by_name(vec![named("Fabric API", 1), named("fabric", 2), named("", 3)]);
    assert_eq!(names(&sorted), vec!["", "fabric", "Fabric API"]);
}

#[test]
fn sorting_goes_by_the_codes_of_lowercase_characters() {
    let sorted = sort_by_name(vec![named("Éclair", 1), named("zebra", 2), named("ECLAIR", 3)]);
    assert_eq!(names(&sorted), vec!["ECLAIR", "zebra", "Éclair"]);
}

#[test]
fn sorting_nothing_gives_nothing() {
    assert!(sort_by_name(Vec::new()).is_empty());
    let one = sort_by_name(vec![named("Lithium", 7)]);
    assert_eq!(one, vec![named("Lithium", 7)]);
}

#[test]
fn a_missing_profile_is_no_profile() {
    let read = read_profile::<std::io::Error>(Opened::Missing);
    assert!(matches!(read, Ok(None)));
}

#[test]
fn a_profile_that_cannot_be_opened_is_an_error() {
    let cause = std::io::Error::new(std::io::ErrorKind::PermissionDenied, "locked");
    match read_profile(Opened::Failed(cause)) {
        Err(ReadError::Io(e)) => assert_eq!(e.kind(), std::io::ErrorKind::PermissionDenied),
        other => panic!("expected the cause, got {:?}", other),
    }
}

#[test]
fn a_corrupted_profile_is_an_error() {
    let read = read_profile(contents("{ \"output_dir\": \"mods\", \"mods\": ["));
    assert!(matches!(read, Err(ReadError::Syntax(_))));
    let read = read_profile(contents(""));
    assert!(matches!(read, Err(ReadError::Syntax(_))));
    let read = read_profile::<std::io::Error>(Opened::Contents(vec![0xff, 0xfe]));
    assert!(matches!(read, Err(ReadError::Syntax(_))));
}

#[test]
fn a_document_of_another_shape_is_an_error() {
    let read = read_profile(contents("[]"));
    assert!(matches!(read, Err(ReadError::Schema(SchemaError::WrongType))));
    let read = read_profile(contents("{\"mods\": []}"));
    assert!(matches!(read, Err(ReadError::Schema(SchemaError::MissingField))));
    let read = read_profile(contents("{\"output_dir\": \"mods\"}"));
    assert!(matches!(read, Err(ReadError::Schema(SchemaError::MissingField))));
    let read = read_profile(contents("{\"output_dir\": \"mods\", \"mods\": null}"));
    assert!(matches!(read, Err(ReadError::Schema(SchemaError::WrongType))));
    let read = read_profile(contents(
        "{\"output_dir\": \"mods\", \"mods\": [], \"mod_loaders\": [\"Rift\"]}",
    ));
    assert!(matches!(read, Err(ReadError::Schema(SchemaError::UnknownVariant))));
    let read = read_profile(contents(
        "{\"output_dir\": \"mods\", \"mods\": [{\"name\": \"JEI\", \"identifier\": {\"CurseForgeProject\": 2147483648}}]}",
    ));
    assert!(matches!(read, Err(ReadError::Schema(SchemaError::OutOfRange))));
}

#[test]
fn a_written_profile_is_read_back_with_its_mods_in_order() {
    let profile = sample();
    let bytes = write_profile(&profile).unwrap();
    let read = read_profile::<std::io::Error>(Opened::Contents(bytes)).unwrap().unwrap();
    assert_eq!(names(&read.mods), vec!["Iris", "just enough items", "Sodium"]);
    let mut expected = sample();
    expected.mods = vec![sample().mods[2].clone(), sample().mods[1].clone(), sample().mods[0].clone()];
    assert_eq!(read, expected);
    let again = write_profile(&read).unwrap();
    let read_again = read_profile::<std::io::Error>(Opened::Contents(again)).unwrap().unwrap();
    assert_eq!(read_again, expected);
}

#[test]
fn a_profile_is_written_with_its_fields_in_order() {
    let profile = Profile {
        output_dir: "mods".to_string(),
        game_versions: vec!["1.21".to_string()],
        mod_loaders: vec![ModLoader::NeoForge],
        mods: vec![named("JEI", 238222)],
        game_version: Some("1.12.2".to_string()),
        mod_loader: Some(ModLoader::Forge),
    };
    let text = String::from_utf8(write_profile(&profile).unwrap()).unwrap();
    let expected = "{
  \"output_dir\": \"mods\",
  \"game_versions\": [
    \"1.21\"
  ],
  \"mod_loaders\": [
    \"NeoForge\"
  ],
  \"mods\": [
    {
      \"name\": \"JEI\",
      \"identifier\": {
        \"CurseForgeProject\": 238222
      }
    }
  ]
}";
    assert_eq!(text, expected);
}

#[test]
fn an_older_profile_is_brought_into_its_current_form() {
    let text = "{
        \"output_dir\": \"mods\",
        \"game_version\": \"1.19.2\",
        \"mod_loader\": \"Quilt\",
        \"mods\": [
            {\"name\": \"sodium\", \"identifier\": {\"ModrinthProject\": \"AANobbMI\"}},
            {\"name\": \"Indium\", \"identifier\": {\"GitHubRepository\": [\"comp500\", \"Indium\"]}}
        ]
    }";
    let read = read_profile(contents(text)).unwrap().unwrap();
    assert_eq!(read.game_versions, vec!["1.19.2".to_string()]);
    assert_eq!(read.mod_loaders, vec![ModLoader::Quilt, ModLoader::Fabric]);
    assert_eq!(read.game_version, None);
    assert_eq!(read.mod_loader, None);
    assert_eq!(names(&read.mods), vec!["Indium", "sodium"]);
    assert_eq!(
        read.mods[0].identifier,
        ModIdentifier::GitHubRepository("comp500".to_string(), "Indium".to_string())
    );
}

#[test]
fn an_older_mod_loader_other_than_quilt_stands_alone() {
    for (name, loader) in [
        ("Fabric", ModLoader::Fabric),
        ("Forge", ModLoader::Forge),
        ("NeoForge", ModLoader::NeoForge),
    ] {
        let mut profile = sample();
        profile.mod_loader = Some(loader);
        profile.backwards_compat();
        assert_eq!(profile.mod_loaders, vec![loader], "{}", name);
        assert_eq!(profile.mod_loader, None);
        assert_eq!(profile.game_versions, sample().game_versions);
    }
}

#[test]
fn migration_leaves_a_current_profile_as_it_is() {
    let mut profile = sample();
    profile.backwards_compat();
    assert_eq!(profile, sample());
    let mut older = sample();
    older.game_version = Some("1.18.2".to_string());
    older.mod_loader = Some(ModLoader::Quilt);
    older.backwards_compat();
    let once = older.clone();
    older.backwards_compat();
    assert_eq!(older, once);
    assert_eq!(once.game_versions, vec!["1.18.2".to_string()]);
}

#[test]
fn null_stands_for_a_field_that_is_left_out() {
    let text = "{\"output_dir\": \"mods\", \"mods\": [], \"game_version\": null, \"mod_loader\": null, \"comment\": 1.5}";
    let read = read_profile(contents(text)).unwrap().unwrap();
    assert_eq!(
        read,
        Profile {
            output_dir: "mods".to_string(),
            game_versions: vec![],
            mod_loaders: vec![],
            mods: vec![],
            game_version: None,
            mod_loader: None,
        }
    );
}

#[test]
fn loading_reads_migrates_and_sorts() {
    let doc = Json::Object(vec![
        ("output_dir".to_string(), Json::Text("mods".to_string())),
        ("game_versions".to_string(), Json::Array(vec![Json::Text("1.20.1".to_string())])),
        ("mod_loader".to_string(), Json::Text("Forge".to_string())),
        (
            "mods".to_string(),
            Json::Array(vec![named("Waystones", 245755).to_json(), named("appleskin", 248787).to_json()]),
        ),
    ]);
    let profile = load_profile(&doc).unwrap();
    assert_eq!(
        profile,
        Profile {
            output_dir: "mods".to_string(),
            game_versions: vec!["1.20.1".to_string()],
            mod_loaders: vec![ModLoader::Forge],
            mods: vec![named("appleskin", 248787), named("Waystones", 245755)],
            game_version: None,
            mod_loader: None,
        }
    );
    assert_eq!(load_profile(&Json::Null), Err(SchemaError::WrongType));
}

#[test]
fn an_identifier_is_an_object_with_one_known_member() {
    let read = |j: &Json| ModIdentifier::from_json(j);
    let one = |tag: &str, body: Json| Json::Object(vec![(tag.to_string(), body)]);
    assert_eq!(read(&one("CurseForgeProject", Json::Int(-2147483648))), Ok(ModIdentifier::CurseForgeProject(i32::MIN)));
    assert_eq!(read(&one("CurseForgeProject", Json::Int(2147483647))), Ok(ModIdentifier::CurseForgeProject(i32::MAX)));
    assert_eq!(read(&one("CurseForgeProject", Json::Int(-2147483649))), Err(SchemaError::OutOfRange));
    assert_eq!(read(&one("CurseForgeProject", Json::Real)), Err(SchemaError::WrongType));
    assert_eq!(read(&one("CurseForgeProject", Json::Text("1".to_string()))), Err(SchemaError::WrongType));
    assert_eq!(read(&one("ModrinthProject", Json::Int(1))), Err(SchemaError::WrongType));
    assert_eq!(read(&one("GitHubRepository", Json::Array(vec![Json::Text("a".to_string())]))), Err(SchemaError::WrongType));
    assert_eq!(
        read(&one("GitHubRepository", Json::Array(vec![Json::Text("a".to_string()), Json::Null]))),
        Err(SchemaError::WrongType)
    );
    assert_eq!(read(&one("GitLabRepository", Json::Null)), Err(SchemaError::UnknownVariant));
    assert_eq!(read(&Json::Object(vec![])), Err(SchemaError::WrongType));
    assert_eq!(
        read(&Json::Object(vec![
            ("ModrinthProject".to_string(), Json::Text("a".to_string())),
            ("CurseForgeProject".to_string(), Json::Int(1)),
        ])),
        Err(SchemaError::WrongType)
    );
    assert_eq!(read(&Json::Text("ModrinthProject".to_string())), Err(SchemaError::WrongType));
}

#[test]
fn the_first_refused_document_of_a_row_decides() {
    let doc = Json::Object(vec![
        ("output_dir".to_string(), Json::Text("mods".to_string())),
        ("mods".to_string(), Json::Array(vec![])),
        (
            "mod_loaders".to_string(),
            Json::Array(vec![
                Json::Text("Fabric".to_string()),
                Json::Text("Liteloader".to_string()),
                Json::Int(3),
            ]),
        ),
    ]);
    assert_eq!(Profile::from_json(&doc), Err(SchemaError::UnknownVariant));
}

#[test]
fn reading_alone_keeps_the_older_fields_and_the_order() {
    let doc = Json::Object(vec![
        ("mods".to_string(), Json::Array(vec![named("b", 2).to_json(), named("A", 1).to_json()])),
        ("mod_loader".to_string(), Json::Text("Quilt".to_string())),
        ("game_version".to_string(), Json::Text("1.16.5".to_string())),
        ("output_dir".to_string(), Json::Text("mods".to_string())),
    ]);
    assert_eq!(
        Profile::from_json(&doc),
        Ok(Profile {
            output_dir: "mods".to_string(),
            game_versions: vec![],
            mod_loaders: vec![],
            mods: vec![named("b", 2), named("A", 1)],
            game_version: Some("1.16.5".to_string()),
            mod_loader: Some(ModLoader::Quilt),
        })
    );
}
