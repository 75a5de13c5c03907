use realm_core::deserializer::{deserialize_with_context, require_content, DeserializationError};

#[test]
fn an_empty_file_is_rejected_by_name() {
    match require_content("realm.json", "") {
        Err(DeserializationError::EmptyFile(path)) => assert_eq!(path, "realm.json"),
        _ => panic!("an empty file must be rejected as EmptyFile"),
    }
    assert!(require_content("realm.json", "{}").is_ok());
}

#[test]
fn a_successful_parse_passes_through() {
    let parsed = deserialize_with_context(|x: &str| serde_json::from_str::<i32>(x), "5", "JSON");
    assert_eq!(parsed.unwrap(), 5);
}

#[test]
fn a_json_failure_reports_the_text_and_the_format() {
    let parsed =
        deserialize_with_context(|x: &str| serde_json::from_str::<i32>(x), "not json", "JSON");
    match parsed {
        Err(DeserializationError::InvalidInput(data, format)) => {
            assert_eq!(data, "not json");
            assert_eq!(format, "JSON");
        }
        _ => panic!("a parser failure must come back as InvalidInput"),
    }
}

#[test]
fn a_yaml_parse_passes_through() {
    let parsed = deserialize_with_context(|x: &str| serde_yaml::from_str::<i32>(x), "15", "YAML");
    assert_eq!(parsed.unwrap(), 15);
}

#[test]
fn an_xml_failure_reports_the_text_and_the_format() {
    let parsed = deserialize_with_context(
        |x: &str| serde_xml_rs::from_str::<String>(x),
        "no xml at all",
        "XML",
    );
    match parsed {
        Err(DeserializationError::InvalidInput(data, format)) => {
            assert_eq!(data, "no xml at all");
            assert_eq!(format, "XML");
        }
        _ => panic!("a parser failure must come back as InvalidInput"),
    }
}

#[test]
fn a_toml_parse_passes_through() {
    let parsed = deserialize_with_context(
        |x: &str| toml::from_str::<toml::Value>(x),
        "port = 3456",
        "TOML",
    );
    let value = parsed.unwrap();
    assert_eq!(value.get("port").and_then(|v| v.as_integer()), Some(3456));
}
