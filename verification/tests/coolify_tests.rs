use ncl::coolify::ApplicationEnvironmentVariable;

#[test]
fn coolify_defaults_constructor_sets_flags() {
    let var = ApplicationEnvironmentVariable::with_coolify_defaults("KEY", "VALUE");

    assert_eq!(var.key, "KEY");
    assert_eq!(var.value, "VALUE");
    assert_eq!(var.is_multiline, Some(true));
    assert_eq!(var.is_preview, Some(true));
    assert_eq!(var.is_literal, Some(true));
    assert_eq!(var.is_shown_once, Some(true));
}

use ncl::coolify::{
    application_request, default_production_environments, destination_choices, env_payloads,
    environment_request, find_server_index, github_app_choices, optional_server_id,
    pick_identifier, project_request, server_choices, validate_api_token, validate_api_url,
    CoolifyClient, CoolifyError, Destination, EnvironmentResponse, GitHubApp, Server,
};

fn some(s: &str) -> Option<String> {
    Some(s.to_string())
}

#[test]
fn plain_variable_has_no_flags() {
    let var = ApplicationEnvironmentVariable::new("A", "1");
    assert_eq!((var.key.as_str(), var.value.as_str()), ("A", "1"));
    assert_eq!(
        (var.is_build_time, var.is_multiline, var.is_preview, var.is_literal, var.is_shown_once),
        (None, None, None, None, None)
    );
}

#[test]
fn payload_flags_default_to_true() {
    let mut v = ApplicationEnvironmentVariable::new("A", "1");
    v.is_literal = Some(false);
    let p = env_payloads(&[v, ApplicationEnvironmentVariable::with_coolify_defaults("B", "2")]);
    assert_eq!(p.len(), 2);
    assert_eq!((p[0].key.as_str(), p[0].value.as_str()), ("A", "1"));
    assert!(p[0].is_preview && !p[0].is_literal && p[0].is_multiline && p[0].is_shown_once);
    assert!(p[1].is_preview && p[1].is_literal && p[1].is_multiline && p[1].is_shown_once);
}

#[test]
fn client_endpoint_and_urls() {
    let c = CoolifyClient::new("https://coolify.example.com///".to_string(), "tok".to_string());
    assert_eq!(c.api_endpoint(), "https://coolify.example.com");
    assert_eq!(c.authorization(), "Bearer tok");
    assert_eq!(c.projects_url(), "https://coolify.example.com/api/v1/projects");
    assert_eq!(c.project_url("p1"), "https://coolify.example.com/api/v1/projects/p1");
    assert_eq!(
        c.environments_url("p1"),
        "https://coolify.example.com/api/v1/projects/p1/environments"
    );
    assert_eq!(
        c.environment_url("p1", "dev"),
        "https://coolify.example.com/api/v1/projects/p1/environments/dev"
    );
    assert_eq!(c.github_apps_url(), "https://coolify.example.com/api/v1/github-apps");
    assert_eq!(c.servers_url(), "https://coolify.example.com/api/v1/servers");
    assert_eq!(
        c.github_app_applications_url(),
        "https://coolify.example.com/api/v1/applications/private-github-app"
    );
    assert_eq!(
        c.application_envs_url("a1"),
        "https://coolify.example.com/api/v1/applications/a1/envs"
    );
    let again = CoolifyClient::new(c.api_endpoint().to_string(), "tok".to_string());
    assert_eq!(again.api_endpoint(), c.api_endpoint());
}

#[test]
fn requests_are_built() {
    let p = project_request("shop");
    assert_eq!(p.name, "shop");
    assert_eq!(p.description, some("Auto-created by NCL for shop"));
    assert_eq!(environment_request("dev").name, "dev");
    let a = application_request(
        "proj", "srv", "dev", "env", "gh", "acme/shop", "dev", "shop-app", "/compose-coolify.yaml",
        "80", None,
    );
    assert_eq!(a.server_uuid, some("srv"));
    assert_eq!(a.destination_uuid, None);
    assert_eq!(a.git_commit_sha, some("HEAD"));
    assert_eq!(a.build_pack, "dockercompose");
    assert_eq!(a.docker_compose_location, some("/compose-coolify.yaml"));
    assert_eq!((a.project_uuid.as_str(), a.environment_uuid.as_str()), ("proj", "env"));
    let b = application_request("p", "s", "prod", "e", "g", "r", "prod", "n", "/c", "80", Some("d"));
    assert_eq!(b.destination_uuid, some("d"));
}

#[test]
fn identifiers_and_production_environments() {
    assert_eq!(pick_identifier(some("1"), some("u")), some("1"));
    assert_eq!(pick_identifier(None, some("u")), some("u"));
    assert_eq!(pick_identifier(None, None), None);
    let envs = vec![
        EnvironmentResponse { id: None, uuid: some("u-prod"), webhook_url: None, name: some("production") },
        EnvironmentResponse { id: some("7"), uuid: None, webhook_url: None, name: some("dev") },
        EnvironmentResponse { id: None, uuid: None, webhook_url: None, name: some("production") },
    ];
    assert_eq!(default_production_environments(&envs), vec!["u-prod".to_string()]);
}

#[test]
fn selection_choices() {
    let apps = vec![
        GitHubApp { uuid: some("a"), name: some("Main"), app_id: None },
        GitHubApp { uuid: some("b"), name: None, app_id: Some(42) },
        GitHubApp { uuid: some("c"), name: None, app_id: None },
    ];
    let c = github_app_choices(&apps).unwrap();
    let labels: Vec<&str> = c.iter().map(|c| c.label.as_str()).collect();
    assert_eq!(labels, vec!["Main", "App ID: 42", "Unknown"]);
    assert_eq!(c[1].value, "b");
    assert_eq!(github_app_choices(&[]).unwrap_err(), CoolifyError::NoGitHubApps);
    let broken = vec![GitHubApp { uuid: None, name: some("x"), app_id: None }];
    assert_eq!(github_app_choices(&broken).unwrap_err(), CoolifyError::GitHubAppMissingUuid);

    let servers = vec![
        Server { uuid: some("s1"), name: None, destinations: None },
        Server { uuid: some("s2"), name: some("prod box"), destinations: None },
    ];
    let sc = server_choices(&servers).unwrap();
    assert_eq!((sc[0].label.as_str(), sc[1].label.as_str()), ("Unknown Server", "prod box"));
    assert_eq!(find_server_index(&servers, "s2"), Ok(1));
    assert_eq!(find_server_index(&servers, "s9"), Err(CoolifyError::SelectedServerNotFound));
    assert_eq!(server_choices(&[]).unwrap_err(), CoolifyError::NoServers);

    let dests = vec![
        Destination { uuid: some("d1"), name: None, destination_type: some("docker") },
        Destination { uuid: some("d2"), name: None, destination_type: None },
    ];
    let dc = destination_choices("box", &dests).unwrap();
    assert_eq!((dc[0].label.as_str(), dc[1].label.as_str()), ("docker", "Unknown destination"));
    let err = destination_choices("box", &[]).unwrap_err();
    assert_eq!(err.message(), "No destinations available for server box");
}

#[test]
fn prompt_validation() {
    assert_eq!(validate_api_url("", false), Err("API URL is required"));
    assert_eq!(validate_api_url("", true), Err("URL must start with http:// or https://"));
    assert_eq!(validate_api_url("ftp://x", false), Err("URL must start with http:// or https://"));
    assert_eq!(validate_api_url("https://x", false), Ok(()));
    assert_eq!(validate_api_url("http://x", true), Ok(()));
    assert_eq!(validate_api_token(""), Err("API token is required"));
    assert_eq!(validate_api_token("t"), Ok(()));
    assert_eq!(optional_server_id(String::new()), None);
    assert_eq!(optional_server_id("42".to_string()), some("42"));
}

#[test]
fn connection_check_verdicts() {
    assert_eq!(ncl::coolify::connection_problem(200, "200 OK", "[]"), None);
    assert_eq!(
        ncl::coolify::connection_problem(401, "401 Unauthorized", "nope"),
        Some("Coolify API rejected the token (unauthorized)".to_string())
    );
    assert_eq!(
        ncl::coolify::connection_problem(500, "500 Internal Server Error", "boom"),
        Some("Coolify API returned 500 Internal Server Error: boom".to_string())
    );
}

#[test]
fn probe_url_keeps_the_endpoint_as_written() {
    assert_eq!(ncl::coolify::projects_url_at("https://c.example/"), "https://c.example//api/v1/projects");
    assert_eq!(ncl::coolify::bearer("tok"), "Bearer tok");
}
