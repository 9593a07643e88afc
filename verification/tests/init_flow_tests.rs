use ncl::config::ProjectConfig;
use ncl::scaffold::{
    coolify_resources_blocker, environment_application_request, failure_context,
    next_init_action, record_repository, record_success, rollback_targets, server_display_name,
    InitAction, InitStep, RollbackState,
};

fn steps(setup_coolify: bool, skip_github: bool, repo_known: bool) -> Vec<InitStep> {
    let mut config = ProjectConfig::default();
    if repo_known {
        config.github_repo_owner = Some("acme".to_string());
        config.github_repo_name = Some("shop".to_string());
    }
    let mut done = None;
    let mut out = Vec::new();
    loop {
        match next_init_action(done, setup_coolify, skip_github, &config) {
            InitAction::Run(s) => {
                out.push(s);
                done = Some(s);
            }
            InitAction::Finish => return out,
        }
    }
}

#[test]
fn full_initialization_runs_every_step_in_order() {
    assert_eq!(
        steps(true, false, true),
        vec![
            InitStep::SetUpCoolify,
            InitStep::InitializeGit,
            InitStep::SetUpGitHub,
            InitStep::SetUpCoolifyGitHubResources,
            InitStep::SaveProjectConfig,
            InitStep::CommitProjectConfig,
            InitStep::PushBranches,
        ]
    );
}

#[test]
fn skipped_integrations_leave_out_their_steps() {
    assert_eq!(
        steps(false, true, false),
        vec![
            InitStep::InitializeGit,
            InitStep::SaveProjectConfig,
            InitStep::CommitProjectConfig,
        ]
    );
    assert_eq!(
        steps(true, false, false),
        vec![
            InitStep::SetUpCoolify,
            InitStep::InitializeGit,
            InitStep::SetUpGitHub,
            InitStep::SaveProjectConfig,
            InitStep::CommitProjectConfig,
            InitStep::PushBranches,
        ]
    );
}

#[test]
fn failures_and_rollback() {
    assert_eq!(failure_context(InitStep::SetUpCoolifyGitHubResources), None);
    assert_eq!(
        failure_context(InitStep::PushBranches),
        Some("Failed to push branches")
    );
    assert_eq!(
        failure_context(InitStep::SetUpCoolify),
        Some("Failed to set up Coolify integration")
    );
    let mut config = ProjectConfig::default();
    config.coolify.project_id = Some("p1".to_string());
    let mut rollback = RollbackState::default();
    record_success(&mut rollback, InitStep::InitializeGit, &config);
    assert_eq!(rollback_targets(&rollback), (None, None));
    record_success(&mut rollback, InitStep::SetUpCoolify, &config);
    record_repository(&mut config, "https://github.com/acme/shop.git", "acme", "shop");
    assert_eq!(config.github_repo_url.as_deref(), Some("https://github.com/acme/shop.git"));
    record_success(&mut rollback, InitStep::SetUpGitHub, &config);
    let (github, coolify) = rollback_targets(&rollback);
    assert_eq!(github, Some((&"acme".to_string(), &"shop".to_string())));
    assert_eq!(coolify, Some(&"p1".to_string()));
}

#[test]
fn coolify_application_requests() {
    let mut config = ProjectConfig::default();
    assert_eq!(
        coolify_resources_blocker(&config, true),
        Some("No Coolify project ID found, skipping GitHub app application setup")
    );
    config.coolify.project_id = Some("p1".to_string());
    assert_eq!(
        coolify_resources_blocker(&config, true),
        Some("No Coolify endpoint found, skipping GitHub app application setup")
    );
    config.coolify.api_endpoint = Some("https://c.example".to_string());
    assert_eq!(
        coolify_resources_blocker(&config, false),
        Some("No Coolify token found, skipping GitHub app application setup")
    );
    assert_eq!(coolify_resources_blocker(&config, true), None);
    assert_eq!(server_display_name(&None), "selected server");
    assert_eq!(server_display_name(&Some("box".to_string())), "box");
    let r = environment_application_request(
        "p1", "srv", "prod", "env-9", "gh-app", "acme", "shop", "shop-app", Some("dest"),
    );
    assert_eq!(r.git_repository, "acme/shop");
    assert_eq!(r.git_branch, "prod");
    assert_eq!(r.environment_name, "prod");
    assert_eq!(r.environment_uuid, "env-9");
    assert_eq!(r.ports_exposes, "80");
    assert_eq!(r.docker_compose_location.as_deref(), Some("/compose-coolify.yaml"));
    assert_eq!(r.destination_uuid.as_deref(), Some("dest"));
    assert_eq!(r.server_uuid.as_deref(), Some("srv"));
    assert_eq!(r.git_commit_sha.as_deref(), Some("HEAD"));
    assert_eq!(r.build_pack, "dockercompose");
}

#[test]
fn application_environments_need_both_identifiers() {
    let mut d = ncl::config::CoolifyDefaults::default();
    assert_eq!(ncl::scaffold::application_environments(&d), Err("Dev environment UUID not found"));
    d.environment_dev_id = Some("e-dev".to_string());
    assert_eq!(ncl::scaffold::application_environments(&d), Err("Prod environment UUID not found"));
    d.environment_prod_id = Some("e-prod".to_string());
    assert_eq!(
        ncl::scaffold::application_environments(&d),
        Ok(vec![("dev", &"e-dev".to_string()), ("prod", &"e-prod".to_string())])
    );
}

#[test]
fn a_failed_application_stops_the_creation() {
    assert_eq!(ncl::scaffold::next_application(0, true, 2), Some(1));
    assert_eq!(ncl::scaffold::next_application(0, false, 2), None);
    assert_eq!(ncl::scaffold::next_application(1, true, 2), None);
    assert_eq!(ncl::scaffold::next_application(1, false, 2), None);
}
