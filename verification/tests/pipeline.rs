use vault_thing::config::requires_certificate;
use vault_thing::errors::Error;
use vault_thing::pipeline::plan_upload;
use vault_thing::scan::select_regular_files;
use vault_thing::scan::ScanEntry;
use vault_thing::target::api_path;
use vault_thing::target::vault_url;

#[test]
fn target_url_joins_base_and_key() {
    assert_eq!(
        vault_url("https://vault.example.com", "team/app"),
        Ok("https://vault.example.com/v1/team/app".to_string())
    );
}

#[test]
fn target_url_replaces_base_path() {
    assert_eq!(
        vault_url("https://vault.example.com/old/path", "team/app"),
        Ok("https://vault.example.com/v1/team/app".to_string())
    );
}

#[test]
fn unparsable_base_is_a_uri_error() {
    assert_eq!(vault_url("not a uri", "team/app"), Err(Error::UriConstruction));
}

#[test]
fn api_path_prefixes_key() {
    assert_eq!(api_path("a/b"), "/v1/a/b".to_string());
}

#[test]
fn planned_upload_for_yaml_file() {
    let plan = plan_upload(
        "https://vault.example.com",
        ".",
        "./config/db.yaml",
        "host: localhost\nport: 5432",
    )
    .unwrap();
    assert_eq!(plan.target_url, "https://vault.example.com/v1/config");
    let got: serde_json::Value = serde_json::from_str(&plan.payload).unwrap();
    let expected: serde_json::Value =
        serde_json::from_str("{\"host\":\"localhost\",\"port\":5432}").unwrap();
    assert_eq!(got, expected);
}

#[test]
fn planned_upload_nested_key() {
    let plan = plan_upload("https://vault.example.com", "root", "root/a/b/c.json", "{\"v\":1}")
        .unwrap();
    assert_eq!(plan.target_url, "https://vault.example.com/v1/a/b");
    assert_eq!(plan.payload, "{\"v\":1}");
}

#[test]
fn planned_upload_of_root_file_fails() {
    let r = plan_upload("https://vault.example.com", "root", "root/c.yaml", "k: v");
    assert_eq!(r.map(|p| p.payload), Err(Error::PathRelation));
}

#[test]
fn selection_keeps_files_in_walk_order() {
    let entries = vec![
        ScanEntry::Other,
        ScanEntry::File { path: "root/a/x.yaml".to_string() },
        ScanEntry::Other,
        ScanEntry::File { path: "root/b/y.json".to_string() },
    ];
    assert_eq!(
        select_regular_files(&entries),
        Ok(vec!["root/a/x.yaml".to_string(), "root/b/y.json".to_string()])
    );
}

#[test]
fn selection_fails_fast_on_read_failure() {
    let entries = vec![
        ScanEntry::File { path: "root/a/x.yaml".to_string() },
        ScanEntry::ReadFailure,
    ];
    assert_eq!(select_regular_files(&entries), Err(Error::DirectoryRead));
}

#[test]
fn https_scheme_requires_certificate() {
    assert!(requires_certificate("https"));
    assert!(!requires_certificate("http"));
}

#[test]
fn error_descriptions_are_single_lines() {
    let kinds = [
        Error::DirectoryRead,
        Error::PathRelation,
        Error::UriConstruction,
        Error::UploadTransport,
        Error::PathEncoding,
        Error::FileRead,
        Error::PayloadSerialization,
        Error::PayloadParse,
    ];
    for kind in kinds {
        let text = kind.describe();
        assert!(!text.is_empty());
        assert!(!text.contains('\n'));
    }
    assert_eq!(
        Error::PathRelation.describe(),
        "file has no parent directory under the root"
    );
    assert_eq!(
        Error::UriConstruction.describe(),
        "could not append the secret key to the base URI"
    );
}
