use ncl::github::{
    actions_permissions_url, branch_protection_rules, branch_protection_url,
    create_repo_request, create_repository_url, organization_choices, repository_url,
    workflow_permissions_url, GitHubOrganization, USER_ORGS_URL, USER_URL,
};

#[test]
fn api_urls() {
    assert_eq!(create_repository_url(Some("acme")), "https://api.github.com/orgs/acme/repos");
    assert_eq!(create_repository_url(None), "https://api.github.com/user/repos");
    assert_eq!(repository_url("acme", "shop"), "https://api.github.com/repos/acme/shop");
    assert_eq!(
        branch_protection_url("acme", "shop", "prod"),
        "https://api.github.com/repos/acme/shop/branches/prod/protection"
    );
    assert_eq!(
        actions_permissions_url("a", "b"),
        "https://api.github.com/repos/a/b/actions/permissions"
    );
    assert_eq!(
        workflow_permissions_url("a", "b"),
        "https://api.github.com/repos/a/b/actions/permissions/workflow"
    );
    assert_eq!(USER_URL, "https://api.github.com/user");
    assert_eq!(USER_ORGS_URL, "https://api.github.com/user/orgs");
}

#[test]
fn protection_rules() {
    let prod = branch_protection_rules(true, true, true);
    let checks = prod.required_status_checks.unwrap();
    assert!(checks.strict && checks.contexts.is_empty());
    let reviews = prod.required_pull_request_reviews.unwrap();
    assert_eq!(reviews.required_approving_review_count, 1);
    assert!(reviews.dismiss_stale_reviews && !reviews.require_code_owner_reviews);
    assert!(prod.enforce_admins && !prod.allow_force_pushes && !prod.allow_deletions);
    let dev = branch_protection_rules(false, true, false);
    assert!(dev.required_pull_request_reviews.is_none() && !dev.enforce_admins);
    assert!(dev.required_status_checks.is_some());
}

#[test]
fn repository_request_and_choices() {
    let r = create_repo_request("shop", true);
    assert_eq!(r.name, "shop");
    assert!(r.private);
    assert_eq!(r.description, None);
    assert_eq!(r.default_branch, Some("dev".to_string()));
    let orgs = vec![GitHubOrganization { login: "acme".to_string(), id: 1 }];
    let c = organization_choices(&orgs);
    assert_eq!((c[0].value.as_str(), c[0].label.as_str()), ("acme", "acme"));
}

#[test]
fn repository_settings_payloads() {
    let b = ncl::github::default_branch_update("dev");
    assert_eq!(b.default_branch, "dev");
    let a = ncl::github::actions_permissions();
    assert!(a.enabled);
    assert_eq!(a.allowed_actions, "all");
    let w = ncl::github::workflow_permissions();
    assert!(w.can_approve_pull_request_reviews);
    assert_eq!(w.default_workflow_permissions, "write");
    let p = ncl::github::project_branch_protections();
    assert_eq!(p.len(), 2);
    assert_eq!(p[0].0, "prod");
    assert!(p[0].1.required_pull_request_reviews.is_some());
    assert!(p[0].1.required_status_checks.is_some());
    assert!(p[0].1.enforce_admins);
    assert_eq!(p[1].0, "dev");
    assert!(p[1].1.required_pull_request_reviews.is_none());
    assert!(p[1].1.required_status_checks.is_some());
    assert!(!p[1].1.enforce_admins);
}

#[test]
fn protections_require_one_fresh_review_on_prod() {
    let p = ncl::github::project_branch_protections();
    let reviews = p[0].1.required_pull_request_reviews.as_ref().unwrap();
    assert_eq!(reviews.required_approving_review_count, 1);
    assert!(reviews.dismiss_stale_reviews);
    assert!(!reviews.require_code_owner_reviews);
    for (_, rules) in &p {
        let checks = rules.required_status_checks.as_ref().unwrap();
        assert!(checks.strict);
        assert!(checks.contexts.is_empty());
    }
}
