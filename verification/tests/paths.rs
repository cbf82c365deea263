use vault_thing::errors::Error;
use vault_thing::paths::extension_of;
use vault_thing::paths::parent_key;
use vault_thing::paths::secret_key_for;
use vault_thing::paths::strip_root;

#[test]
fn strip_root_plain() {
    assert_eq!(strip_root("root/a/b/c.yaml", "root"), Ok("a/b/c.yaml".to_string()));
}

#[test]
fn strip_root_trailing_slash() {
    assert_eq!(strip_root("root/a/b.yaml", "root/"), Ok("a/b.yaml".to_string()));
}

#[test]
fn strip_root_dot_root() {
    assert_eq!(strip_root("./config/db.yaml", "."), Ok("config/db.yaml".to_string()));
}

#[test]
fn strip_root_unrelated() {
    assert_eq!(strip_root("other/a/b.yaml", "root"), Err(Error::PathRelation));
}

#[test]
fn strip_root_no_separator_after_prefix() {
    assert_eq!(strip_root("rootish/a.yaml", "root"), Err(Error::PathRelation));
}

#[test]
fn parent_of_nested_path() {
    assert_eq!(parent_key("a/b/c.yaml"), Ok("a/b".to_string()));
}

#[test]
fn parent_of_single_segment_fails() {
    assert_eq!(parent_key("c.yaml"), Err(Error::PathRelation));
}

#[test]
fn secret_key_of_nested_file() {
    assert_eq!(secret_key_for("root/a/b/c.yaml", "root"), Ok("a/b".to_string()));
}

#[test]
fn secret_key_of_root_file_fails() {
    assert_eq!(secret_key_for("root/c.yaml", "root"), Err(Error::PathRelation));
}

#[test]
fn extension_plain() {
    assert_eq!(extension_of("a/b/c.yaml"), Some("yaml".to_string()));
}

#[test]
fn extension_uppercase_kept_verbatim() {
    assert_eq!(extension_of("a/b/C.YAML"), Some("YAML".to_string()));
}

#[test]
fn extension_none_without_dot() {
    assert_eq!(extension_of("a/b/file"), None);
}

#[test]
fn extension_none_for_leading_dot_name() {
    assert_eq!(extension_of("a/.gitignore"), None);
}

#[test]
fn extension_ignores_dot_in_directory() {
    assert_eq!(extension_of("a.b/c"), None);
}

#[test]
fn extension_takes_last_dot() {
    assert_eq!(extension_of("a/b.tar.gz"), Some("gz".to_string()));
}
