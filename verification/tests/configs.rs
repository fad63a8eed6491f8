use ferium_config::codec::{JsonForm, SchemaError};
use ferium_config::json::Json;
use ferium_config::schema::{Config, ProfileItem};
use ferium_config::store::{provision_config, read_config, write_config, ReadError};

fn loaded(text: &str) -> Result<Config, ReadError<std::io::Error>> {
    read_config(Ok(text.as_bytes().to_vec()))
}

fn sample() -> Config {
    Config {
        active_profile: 1,
        profiles: vec![
            ProfileItem { name: "Survival".to_string(), path: "/profiles/survival.json".to_string() },
            ProfileItem { name: "Créatif".to_string(), path: "C:\\profiles\\creative.json".to_string() },
        ],
    }
}

#[test]
fn the_initial_configuration_has_no_profile() {
    assert_eq!(Config::default(), Config { active_profile: 0, profiles: vec![] });
}

#[test]
fn a_missing_configuration_is_provisioned_with_the_initial_one() {
    let bytes = provision_config(false).unwrap().expect("bytes to write");
    assert_eq!(
        String::from_utf8(bytes.clone()).unwrap(),
        "{\n  \"active_profile\": 0,\n  \"profiles\": []\n}"
    );
    let first = read_config::<std::io::Error>(Ok(bytes.clone())).unwrap();
    assert_eq!(first, Config::default());
    let second = read_config::<std::io::Error>(Ok(bytes)).unwrap();
    assert_eq!(second, first);
}

#[test]
fn a_configuration_that_is_there_is_left_alone() {
    assert_eq!(provision_config(true).unwrap(), None);
}

#[test]
fn a_written_configuration_is_read_back_as_it_was() {
    let config = sample();
    let bytes = write_config(&config).unwrap();
    let read = read_config::<std::io::Error>(Ok(bytes)).unwrap();
    assert_eq!(read, config);
    assert_eq!(read.profiles[0].name, "Survival");
    assert_eq!(read.profiles[1].name, "Créatif");
}

#[test]
fn a_configuration_is_written_with_its_fields_in_order() {
    let text = String::from_utf8(write_config(&sample()).unwrap()).unwrap();
    let expected = "{
  \"active_profile\": 1,
  \"profiles\": [
    {
      \"name\": \"Survival\",
      \"path\": \"/profiles/survival.json\"
    },
    {
      \"name\": \"Créatif\",
      \"path\": \"C:\\\\profiles\\\\creative.json\"
    }
  ]
}";
    assert_eq!(text, expected);
}

#[test]
fn a_configuration_that_cannot_be_read_is_an_error() {
    let cause = std::io::Error::new(std::io::ErrorKind::NotFound, "gone");
    match read_config(Err(cause)) {
        Err(ReadError::Io(e)) => assert_eq!(e.kind(), std::io::ErrorKind::NotFound),
        other => panic!("expected the cause, got {:?}", other),
    }
}

#[test]
fn a_corrupted_configuration_is_an_error() {
    assert!(matches!(loaded("{\"active_profile\": 0,"), Err(ReadError::Syntax(_))));
    assert!(matches!(loaded("{} {}"), Err(ReadError::Syntax(_))));
    assert!(matches!(loaded("not json"), Err(ReadError::Syntax(_))));
}

#[test]
fn fields_that_are_left_out_stand_for_their_initial_values() {
    assert_eq!(loaded("{}").unwrap(), Config::default());
    assert_eq!(loaded("{\"active_profile\": 3}").unwrap(), Config { active_profile: 3, profiles: vec![] });
    assert_eq!(
        loaded("{\"profiles\": [{\"path\": \"p.json\", \"name\": \"P\", \"extra\": true}]}").unwrap(),
        Config {
            active_profile: 0,
            profiles: vec![ProfileItem { name: "P".to_string(), path: "p.json".to_string() }],
        }
    );
}

#[test]
fn a_configuration_of_another_shape_is_an_error() {
    assert!(matches!(loaded("null"), Err(ReadError::Schema(SchemaError::WrongType))));
    assert!(matches!(loaded("{\"active_profile\": -1}"), Err(ReadError::Schema(SchemaError::OutOfRange))));
    assert!(matches!(loaded("{\"active_profile\": 1.0}"), Err(ReadError::Schema(SchemaError::WrongType))));
    assert!(matches!(loaded("{\"active_profile\": null}"), Err(ReadError::Schema(SchemaError::WrongType))));
    assert!(matches!(loaded("{\"profiles\": {}}"), Err(ReadError::Schema(SchemaError::WrongType))));
    assert!(matches!(
        loaded("{\"profiles\": [{\"name\": \"P\"}]}"),
        Err(ReadError::Schema(SchemaError::MissingField))
    ));
    assert!(matches!(
        loaded("{\"profiles\": [{\"name\": \"P\", \"path\": 7}]}"),
        Err(ReadError::Schema(SchemaError::WrongType))
    ));
}

#[test]
fn the_place_of_the_active_profile_fits_the_machine() {
    let most = Json::Object(vec![("active_profile".to_string(), Json::Int(usize::MAX as i128))]);
    assert_eq!(Config::from_json(&most), Ok(Config { active_profile: usize::MAX, profiles: vec![] }));
    let more = Json::Object(vec![("active_profile".to_string(), Json::Int(usize::MAX as i128 + 1))]);
    assert_eq!(Config::from_json(&more), Err(SchemaError::OutOfRange));
    let config = Config { active_profile: usize::MAX, profiles: vec![] };
    let bytes = write_config(&config).unwrap();
    assert_eq!(read_config::<std::io::Error>(Ok(bytes)).unwrap(), config);
}
