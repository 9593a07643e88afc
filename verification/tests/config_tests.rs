use ncl::config::{
    migrate_legacy_fields, pair_credentials, resolve_token, NclConfig, TomlValue,
};
use ncl::keyring::KeyringError;

fn s(v: &str) -> TomlValue {
    TomlValue::String(v.to_string())
}

fn table(entries: Vec<(&str, TomlValue)>) -> TomlValue {
    TomlValue::Table(entries.into_iter().map(|(k, v)| (k.to_string(), v)).collect())
}

fn get<'a>(v: &'a TomlValue, key: &str) -> Option<&'a TomlValue> {
    match v {
        TomlValue::Table(t) => t.iter().find(|(k, _)| k == key).map(|(_, v)| v),
        _ => None,
    }
}

fn string_at(v: &TomlValue, path: &[&str]) -> Option<String> {
    let mut cur = v;
    for key in path {
        cur = get(cur, key)?;
    }
    match cur {
        TomlValue::String(s) => Some(s.clone()),
        _ => None,
    }
}

#[test]
fn legacy_github_token_moves_into_github_table() {
    let mut v = table(vec![("skip_github", TomlValue::Boolean(true)), ("github_token", s("ghp_x"))]);
    assert!(migrate_legacy_fields(&mut v));
    assert!(get(&v, "github_token").is_none());
    assert_eq!(string_at(&v, &["github", "token"]), Some("ghp_x".to_string()));
    assert!(matches!(get(&v, "skip_github"), Some(TomlValue::Boolean(true))));
}

#[test]
fn legacy_token_keeps_other_github_fields() {
    let mut v = table(vec![
        ("github", table(vec![("owner", s("acme")), ("token", s("old"))])),
        ("github_token", s("new")),
    ]);
    assert!(migrate_legacy_fields(&mut v));
    assert_eq!(string_at(&v, &["github", "token"]), Some("new".to_string()));
    assert_eq!(string_at(&v, &["github", "owner"]), Some("acme".to_string()));
}

#[test]
fn coolify_api_token_is_renamed_unless_token_exists() {
    let mut v = table(vec![("coolify", table(vec![("api_token", s("a")), ("api_endpoint", s("e"))]))]);
    assert!(migrate_legacy_fields(&mut v));
    assert_eq!(string_at(&v, &["coolify", "token"]), Some("a".to_string()));
    assert_eq!(string_at(&v, &["coolify", "api_token"]), None);
    assert_eq!(string_at(&v, &["coolify", "api_endpoint"]), Some("e".to_string()));

    let mut w = table(vec![("coolify", table(vec![("api_token", s("a")), ("token", s("t"))]))]);
    assert!(migrate_legacy_fields(&mut w));
    assert_eq!(string_at(&w, &["coolify", "token"]), Some("t".to_string()));
    assert_eq!(string_at(&w, &["coolify", "api_token"]), None);
}

#[test]
fn non_string_legacy_token_is_dropped_without_migration() {
    let mut v = table(vec![("github_token", TomlValue::Integer(3))]);
    assert!(!migrate_legacy_fields(&mut v));
    assert!(get(&v, "github_token").is_none());
    assert!(get(&v, "github").is_none());

    let mut w = table(vec![("github", s("not a table")), ("github_token", s("x"))]);
    assert!(!migrate_legacy_fields(&mut w));
    assert!(get(&w, "github_token").is_none());
    assert_eq!(string_at(&w, &["github"]), Some("not a table".to_string()));
}

#[test]
fn migration_is_idempotent() {
    let mut v = table(vec![
        ("github_token", s("g")),
        ("coolify", table(vec![("api_token", s("c"))])),
        ("defaults", table(vec![])),
    ]);
    assert!(migrate_legacy_fields(&mut v));
    let once = format!("{:?}", v);
    assert!(!migrate_legacy_fields(&mut v));
    assert_eq!(format!("{:?}", v), once);

    let mut scalar = TomlValue::Integer(1);
    assert!(!migrate_legacy_fields(&mut scalar));
}

#[test]
fn configured_token_comes_first() {
    assert_eq!(
        resolve_token(&Some("cfg".to_string()), Ok(Some("ring".to_string()))),
        Some("cfg".to_string())
    );
    assert_eq!(resolve_token(&None, Ok(Some("ring".to_string()))), Some("ring".to_string()));
    assert_eq!(resolve_token(&None, Err(KeyringError::Access)), None);
    assert_eq!(resolve_token(&None, Ok(None)), None);
}

#[test]
fn token_read_back_after_set() {
    let mut c = NclConfig::default();
    c.github.token = Some("configured".to_string());
    assert_eq!(c.get_github_token().unwrap(), Some("configured".to_string()));
    c.set_github_token(Some("ghp_token".to_string()));
    assert_eq!(c.get_github_token().unwrap(), Some("ghp_token".to_string()));
    c.set_coolify_token(Some("coolify".to_string()));
    assert_eq!(c.get_coolify_token().unwrap(), Some("coolify".to_string()));
    assert_eq!(c.github.token, Some("ghp_token".to_string()));
}

#[test]
fn credentials_need_both_halves() {
    assert_eq!(
        pair_credentials(Some("u".to_string()), Some("t".to_string())),
        Some(("u".to_string(), "t".to_string()))
    );
    assert_eq!(pair_credentials(Some("u".to_string()), None), None);
    assert_eq!(pair_credentials(None, Some("t".to_string())), None);
}

#[test]
fn configuration_text_is_parsed_and_migrated() {
    let (value, moved) = ncl::config::migrate_config_text("github_token = \"abc\"\nskip_github = true\n").unwrap();
    assert!(moved);
    assert_eq!(string_at(&value, &["github", "token"]), Some("abc".to_string()));
    assert!(get(&value, "github_token").is_none());
    let (value, moved) = ncl::config::migrate_config_text("[coolify]\napi_token = \"t\"\n").unwrap();
    assert!(moved);
    assert_eq!(string_at(&value, &["coolify", "token"]), Some("t".to_string()));
    let (_, moved) = ncl::config::migrate_config_text("skip_github = true\n").unwrap();
    assert!(!moved);
    assert!(ncl::config::migrate_config_text("this is = = not toml").is_err());
}
