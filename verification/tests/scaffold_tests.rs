use ncl::assoc::get_entry;
use ncl::config::NclConfig;
use ncl::coolify::Destination;
use ncl::scaffold::{
    apply_skip_flags, authenticated_clone_url, coolify_project_name, default_application_name,
    destination_decision, hyphenate_underscores, manual_destination, repo_is_private,
    repository_slug, validate_application_name, DestinationDecision, ProjectOptions,
};
use ncl::templates::Template;

fn options() -> ProjectOptions {
    ProjectOptions {
        name: "shop".to_string(),
        path: "/work/shop".to_string(),
        template: Template::default(),
        config: NclConfig::default(),
    }
}

#[test]
fn template_variables() {
    let o = options();
    assert_eq!(o.vars(), vec![("project_name", "shop"), ("path", "/work/shop")]);
}

#[test]
fn coolify_defaults_are_persisted() {
    let mut o = options();
    o.config.defaults = vec![("editor".to_string(), "vim".to_string())];
    o.persist_coolify_defaults("https://c.example", "tok", Some("srv-1".to_string()));
    assert_eq!(o.config.coolify.api_endpoint, Some("https://c.example".to_string()));
    assert_eq!(o.config.coolify.token, Some("tok".to_string()));
    assert_eq!(get_entry(&o.config.defaults, "coolify_server_id"), Some(&"srv-1".to_string()));
    assert_eq!(get_entry(&o.config.defaults, "editor"), Some(&"vim".to_string()));
    o.persist_coolify_defaults("https://c.example", "tok", Some(String::new()));
    assert_eq!(get_entry(&o.config.defaults, "coolify_server_id"), None);
    o.persist_coolify_defaults("https://c.example", "tok", Some("srv-2".to_string()));
    o.persist_coolify_defaults("https://d.example", "t2", None);
    assert_eq!(get_entry(&o.config.defaults, "coolify_server_id"), None);
    assert_eq!(o.config.coolify.api_endpoint, Some("https://d.example".to_string()));
}

#[test]
fn skip_flags_only_add() {
    let mut c = NclConfig::default();
    c.skip_trello = true;
    apply_skip_flags(&mut c, true, false, false);
    assert!(c.skip_github && !c.skip_coolify && c.skip_trello);
}

#[test]
fn names_and_urls() {
    assert_eq!(coolify_project_name("My_Shop_2"), "my-shop-2");
    assert_eq!(coolify_project_name("ÀB_c"), "àb-c");
    assert_eq!(hyphenate_underscores("a_b_c"), "a-b-c");
    assert!(repo_is_private(&None));
    assert!(repo_is_private(&Some("private".to_string())));
    assert!(!repo_is_private(&Some("public".to_string())));
    assert_eq!(
        authenticated_clone_url("https://github.com/acme/shop.git", "ghp_x"),
        "https://ghp_x@github.com/acme/shop.git"
    );
    assert_eq!(
        authenticated_clone_url("git@github.com:acme/shop.git", "ghp_x"),
        "git@github.com:acme/shop.git"
    );
    assert_eq!(default_application_name("shop"), "shop-app");
    assert_eq!(repository_slug("acme", "shop"), "acme/shop");
    assert_eq!(validate_application_name(""), Err("Application name is required"));
    assert_eq!(validate_application_name("x"), Ok(()));
}

#[test]
fn destination_decisions() {
    let d = |u: &str| Destination { uuid: Some(u.to_string()), name: None, destination_type: None };
    assert!(matches!(destination_decision(&None), DestinationDecision::AskManually));
    assert!(matches!(destination_decision(&Some(vec![])), DestinationDecision::Use(None)));
    assert!(matches!(destination_decision(&Some(vec![d("x")])), DestinationDecision::Use(Some(u)) if u == "x"));
    assert!(matches!(destination_decision(&Some(vec![d("x"), d("y")])), DestinationDecision::Select));
    assert_eq!(manual_destination("  abc  "), Some("abc".to_string()));
    assert_eq!(manual_destination("   "), None);
}

#[test]
fn github_token_validation() {
    let good = format!("ghp_{}", "a1B2".repeat(9));
    assert_eq!(ncl::scaffold::validate_github_token(""), Ok(()));
    assert_eq!(ncl::scaffold::validate_github_token(&good), Ok(()));
    assert_eq!(
        ncl::scaffold::validate_github_token("ghp_short"),
        Err("Not a valid personal access token")
    );
    let too_long = format!("{}x", good);
    assert!(ncl::scaffold::validate_github_token(&too_long).is_err());
    assert_eq!(ncl::scaffold::github_token_verdict("abc", true), Ok(()));
    assert_eq!(ncl::scaffold::github_token_verdict("", false), Ok(()));
    assert_eq!(
        ncl::scaffold::github_token_verdict("abc", false),
        Err("Not a valid personal access token")
    );
}

#[test]
fn non_ascii_tokens_are_refused() {
    let accented = format!("ghp_{}", "é".repeat(36));
    assert!(ncl::scaffold::validate_github_token(&accented).is_err());
    let digits = format!("ghp_{}", "0".repeat(36));
    assert_eq!(ncl::scaffold::validate_github_token(&digits), Ok(()));
}
