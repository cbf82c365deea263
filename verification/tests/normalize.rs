use vault_thing::errors::Error;
use vault_thing::normalize::normalize_payload;

#[test]
fn json_payload_is_byte_identical() {
    let content = "{ \"a\":  1,\n  \"b\": [true, null] }";
    assert_eq!(normalize_payload(content, Some("json")), Ok(content.to_string()));
}

#[test]
fn json_extension_case_insensitive() {
    let content = "{\"x\": 2}";
    assert_eq!(normalize_payload(content, Some("JSON")), Ok(content.to_string()));
}

#[test]
fn invalid_json_is_a_parse_error() {
    assert_eq!(normalize_payload("{not json", Some("json")), Err(Error::PayloadParse));
}

#[test]
fn yaml_payload_is_structurally_equal_json() {
    let out = normalize_payload("host: localhost\nport: 5432", Some("yaml")).unwrap();
    let got: serde_json::Value = serde_json::from_str(&out).unwrap();
    let expected: serde_json::Value =
        serde_json::from_str("{\"host\":\"localhost\",\"port\":5432}").unwrap();
    assert_eq!(got, expected);
}

#[test]
fn yaml_round_trip_matches_parsed_document() {
    let content = "top:\n  - 1\n  - name: x\n    flag: true\nother: text";
    let out = normalize_payload(content, Some("yaml")).unwrap();
    let reparsed: serde_yaml::Value = serde_json::from_str(&out).unwrap();
    let direct: serde_yaml::Value = serde_yaml::from_str(content).unwrap();
    assert_eq!(reparsed, direct);
}

#[test]
fn yml_extension_is_yaml() {
    let out = normalize_payload("k: v", Some("yml")).unwrap();
    let got: serde_json::Value = serde_json::from_str(&out).unwrap();
    let expected: serde_json::Value = serde_json::from_str("{\"k\":\"v\"}").unwrap();
    assert_eq!(got, expected);
}

#[test]
fn yaml_extension_case_insensitive() {
    let out = normalize_payload("k: 1", Some("Yaml")).unwrap();
    let got: serde_json::Value = serde_json::from_str(&out).unwrap();
    let expected: serde_json::Value = serde_json::from_str("{\"k\":1}").unwrap();
    assert_eq!(got, expected);
}

#[test]
fn invalid_yaml_is_a_parse_error() {
    assert_eq!(normalize_payload("k: [unclosed", Some("yaml")), Err(Error::PayloadParse));
}

#[test]
fn yaml_value_json_cannot_carry_is_a_serialization_error() {
    // A mapping keyed by a sequence parses as YAML but cannot become JSON.
    let content = "? [1, 2]\n: value";
    assert_eq!(normalize_payload(content, Some("yaml")), Err(Error::PayloadSerialization));
}

#[test]
fn txt_extension_yields_empty_payload() {
    assert_eq!(normalize_payload("anything at all", Some("txt")), Ok(String::new()));
}

#[test]
fn missing_extension_yields_empty_payload() {
    assert_eq!(normalize_payload("{\"valid\": \"json\"}", None), Ok(String::new()));
}
