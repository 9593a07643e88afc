use ncl::cleanup::{github_repository_to_remove, may_delete_project_config, removal_outcome, RemovalOutcome};
use ncl::config::ProjectConfig;
use ncl::doctor::{
    coolify_check_finding, doctor_summary, github_check_finding, CoolifyCheck, DoctorSummary,
    Finding, GitHubTokenCheck,
};

#[test]
fn removal_outcomes() {
    assert_eq!(removal_outcome(false, true, true), RemovalOutcome::NothingToRemove);
    assert_eq!(removal_outcome(true, false, true), RemovalOutcome::Skipped);
    assert_eq!(removal_outcome(true, true, true), RemovalOutcome::Removed);
    assert_eq!(removal_outcome(true, true, false), RemovalOutcome::Failed);
}

#[test]
fn config_kept_while_resources_remain() {
    assert!(may_delete_project_config(RemovalOutcome::NothingToRemove, RemovalOutcome::Removed));
    assert!(may_delete_project_config(RemovalOutcome::Removed, RemovalOutcome::NothingToRemove));
    assert!(!may_delete_project_config(RemovalOutcome::Removed, RemovalOutcome::Failed));
    assert!(!may_delete_project_config(RemovalOutcome::Skipped, RemovalOutcome::Removed));
}

#[test]
fn repository_target() {
    let mut c = ProjectConfig::default();
    assert!(github_repository_to_remove(&c).is_none());
    c.github_repo_owner = Some("acme".to_string());
    assert!(github_repository_to_remove(&c).is_none());
    c.github_repo_name = Some("shop".to_string());
    let (o, n) = github_repository_to_remove(&c).unwrap();
    assert_eq!((o.as_str(), n.as_str()), ("acme", "shop"));
}

#[test]
fn doctor_summaries() {
    assert!(matches!(doctor_summary(&vec![], &vec![]), DoctorSummary::AllPassed));
    let w = vec!["GitHub token not configured".to_string(), "Coolify not configured".to_string()];
    assert!(matches!(doctor_summary(&vec![], &w), DoctorSummary::Warnings(t) if t == "GitHub token not configured\nCoolify not configured"));
    let i = vec!["GitHub token is invalid or expired".to_string()];
    assert!(matches!(doctor_summary(&i, &vec![]), DoctorSummary::Issues(t) if t == "GitHub token is invalid or expired\n\nWarnings:\nNone"));
    assert!(matches!(doctor_summary(&i, &w[..1].to_vec()), DoctorSummary::Issues(t) if t == "GitHub token is invalid or expired\n\nWarnings:\nGitHub token not configured"));
}

#[test]
fn keyring_entries_cleared_only_after_full_removal() {
    assert_eq!(
        ncl::cleanup::keyring_accounts_to_clear(RemovalOutcome::Removed, RemovalOutcome::NothingToRemove),
        vec!["github_token", "coolify_token", "registry_user", "registry_token"]
    );
    assert!(ncl::cleanup::keyring_accounts_to_clear(RemovalOutcome::Failed, RemovalOutcome::Removed)
        .is_empty());
    assert!(ncl::cleanup::keyring_accounts_to_clear(RemovalOutcome::Removed, RemovalOutcome::Skipped)
        .is_empty());
}

#[test]
fn doctor_findings() {
    assert!(github_check_finding(&GitHubTokenCheck::Valid).is_none());
    assert!(matches!(
        github_check_finding(&GitHubTokenCheck::Rejected("401 Unauthorized".to_string())),
        Some(Finding::Issue(m)) if m == "GitHub token is invalid or expired"
    ));
    assert!(matches!(
        github_check_finding(&GitHubTokenCheck::Unreachable("timeout".to_string())),
        Some(Finding::Warning(m)) if m == "Could not validate GitHub token: timeout"
    ));
    assert!(matches!(
        github_check_finding(&GitHubTokenCheck::NotConfigured),
        Some(Finding::Warning(m)) if m == "GitHub token not configured"
    ));
    assert!(matches!(
        github_check_finding(&GitHubTokenCheck::Unreadable("locked".to_string())),
        Some(Finding::Issue(m)) if m == "Failed to get GitHub token: locked"
    ));
    assert!(coolify_check_finding(&CoolifyCheck::Accessible).is_none());
    assert!(matches!(
        coolify_check_finding(&CoolifyCheck::ErrorStatus("500".to_string())),
        Some(Finding::Warning(m)) if m == "Coolify API returned error: 500"
    ));
    assert!(matches!(
        coolify_check_finding(&CoolifyCheck::Unreachable("dns".to_string())),
        Some(Finding::Warning(m)) if m == "Could not connect to Coolify: dns"
    ));
    assert!(matches!(
        coolify_check_finding(&CoolifyCheck::NotConfigured),
        Some(Finding::Warning(m)) if m == "Coolify not configured"
    ));
}
