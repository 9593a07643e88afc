//! GitHub integration: the endpoints of the REST API, the requests sent to
//! it and the choices offered to the user.
//!
//! The HTTP exchanges are carried out by the application.
use vstd::prelude::*;

use crate::coolify::Choice;
use crate::execution::views;
use crate::text::{owned, push_str, string_from_chars};

verus! {

/// Represents a GitHub organization
#[derive(Debug, Clone)]
pub struct GitHubOrganization {
    pub login: String,
    pub id: u64,
}

/// Represents a repository creation request
#[derive(Debug, Clone)]
pub struct CreateRepoRequest {
    pub name: String,
    pub private: bool,
    pub description: Option<String>,
    pub default_branch: Option<String>,
}

/// Represents the response from creating a repository
#[derive(Debug, Clone)]
pub struct CreateRepoResponse {
    pub clone_url: String,
    pub html_url: String,
}

/// Status checks required before merging into a protected branch.
#[derive(Debug, Clone)]
pub struct RequiredStatusChecks {
    pub strict: bool,
    pub contexts: Vec<String>,
}

/// Reviews required before merging into a protected branch.
#[derive(Debug, Clone)]
pub struct RequiredReviews {
    pub required_approving_review_count: u32,
    pub dismiss_stale_reviews: bool,
    pub require_code_owner_reviews: bool,
}

/// The protection rules of a branch, as the API's request body holds them.
/// Push restrictions are never set.
#[derive(Debug, Clone)]
pub struct BranchProtectionRules {
    pub required_status_checks: Option<RequiredStatusChecks>,
    pub enforce_admins: bool,
    pub required_pull_request_reviews: Option<RequiredReviews>,
    pub allow_force_pushes: bool,
    pub allow_deletions: bool,
}

/// The address of the API.
pub const API_ROOT: &'static str = "https://api.github.com";

/// `https://api.github.com/user`
pub const USER_URL: &'static str = "https://api.github.com/user";

/// `https://api.github.com/user/orgs`
pub const USER_ORGS_URL: &'static str = "https://api.github.com/user/orgs";

fn joined(a: &str, b: &str, c: &str, d: &str, e: &str) -> (r: String)
    ensures
        r@ == a@ + b@ + c@ + d@ + e@,
{
    let mut v: Vec<char> = Vec::new();
    push_str(&mut v, a);
    push_str(&mut v, b);
    push_str(&mut v, c);
    push_str(&mut v, d);
    push_str(&mut v, e);
    string_from_chars(v.as_slice())
}

/// Where a repository is created: in the organization when one is given,
/// else in the user's account.
pub fn create_repository_url(owner: Option<&str>) -> (r: String)
    ensures
        r@ == match owner {
            Some(org) => "https://api.github.com/orgs/"@ + org@ + "/repos"@,
            None => "https://api.github.com/user/repos"@,
        },
{
    match owner {
        Some(org) => {
            let r = joined("https://api.github.com/orgs/", org, "/repos", "", "");
            proof {
                reveal_strlit("");
            }
            assert(r@ =~= "https://api.github.com/orgs/"@ + org@ + "/repos"@);
            r
        },
        None => owned("https://api.github.com/user/repos"),
    }
}

/// `https://api.github.com/repos/<owner>/<repo>`
pub fn repository_url(owner: &str, repo: &str) -> (r: String)
    ensures
        r@ == "https://api.github.com/repos/"@ + owner@ + "/"@ + repo@,
{
    let r = joined("https://api.github.com/repos/", owner, "/", repo, "");
    proof {
        reveal_strlit("");
    }
    assert(r@ =~= "https://api.github.com/repos/"@ + owner@ + "/"@ + repo@);
    r
}

/// `https://api.github.com/repos/<owner>/<repo>/branches/<branch>/protection`
pub fn branch_protection_url(owner: &str, repo: &str, branch: &str) -> (r: String)
    ensures
        r@ == "https://api.github.com/repos/"@ + owner@ + "/"@ + repo@ + "/branches/"@ + branch@
            + "/protection"@,
{
    let base = repository_url(owner, repo);
    let r = joined(base.as_str(), "/branches/", branch, "/protection", "");
    proof {
        reveal_strlit("");
    }
    assert(r@ =~= "https://api.github.com/repos/"@ + owner@ + "/"@ + repo@ + "/branches/"@
        + branch@ + "/protection"@);
    r
}

/// `https://api.github.com/repos/<owner>/<repo>/actions/permissions`
pub fn actions_permissions_url(owner: &str, repo: &str) -> (r: String)
    ensures
        r@ == "https://api.github.com/repos/"@ + owner@ + "/"@ + repo@ + "/actions/permissions"@,
{
    let base = repository_url(owner, repo);
    let r = joined(base.as_str(), "/actions/permissions", "", "", "");
    proof {
        reveal_strlit("");
    }
    assert(r@ =~= "https://api.github.com/repos/"@ + owner@ + "/"@ + repo@
        + "/actions/permissions"@);
    r
}

/// `https://api.github.com/repos/<owner>/<repo>/actions/permissions/workflow`
pub fn workflow_permissions_url(owner: &str, repo: &str) -> (r: String)
    ensures
        r@ == "https://api.github.com/repos/"@ + owner@ + "/"@ + repo@
            + "/actions/permissions/workflow"@,
{
    let base = repository_url(owner, repo);
    let r = joined(base.as_str(), "/actions/permissions/workflow", "", "", "");
    proof {
        reveal_strlit("");
    }
    assert(r@ =~= "https://api.github.com/repos/"@ + owner@ + "/"@ + repo@
        + "/actions/permissions/workflow"@);
    r
}

/// The protection of a branch: status checks (strict, with no named
/// contexts) when required, one approving review that stale reviews do
/// not count for when pull requests are required, administrators bound
/// when asked; force pushes and deletions are never allowed.
pub fn branch_protection_rules(
    require_pr: bool,
    require_status_checks: bool,
    enforce_admins: bool,
) -> (r: BranchProtectionRules)
    ensures
        match r.required_status_checks {
            Some(c) => require_status_checks && c.strict && c.contexts@.len() == 0,
            None => !require_status_checks,
        },
        match r.required_pull_request_reviews {
            Some(p) => require_pr && p.required_approving_review_count == 1
                && p.dismiss_stale_reviews && !p.require_code_owner_reviews,
            None => !require_pr,
        },
        r.enforce_admins == enforce_admins,
        !r.allow_force_pushes,
        !r.allow_deletions,
{
    BranchProtectionRules {
        required_status_checks: if require_status_checks {
            Some(RequiredStatusChecks { strict: true, contexts: Vec::new() })
        } else {
            None
        },
        enforce_admins,
        required_pull_request_reviews: if require_pr {
            Some(
                RequiredReviews {
                    required_approving_review_count: 1,
                    dismiss_stale_reviews: true,
                    require_code_owner_reviews: false,
                },
            )
        } else {
            None
        },
        allow_force_pushes: false,
        allow_deletions: false,
    }
}

/// The request that creates the project's repository, with `dev` as its
/// default branch.
pub fn create_repo_request(name: &str, private: bool) -> (r: CreateRepoRequest)
    ensures
        r.name@ == name@,
        r.private == private,
        r.description is None,
        r.default_branch matches Some(b) && b@ == "dev"@,
{
    CreateRepoRequest {
        name: owned(name),
        private,
        description: None,
        default_branch: Some(owned("dev")),
    }
}

/// The choices offered when selecting an organization: each by its login.
pub fn organization_choices(orgs: &[GitHubOrganization]) -> (r: Vec<Choice>)
    ensures
        r@.len() == orgs@.len(),
        forall|i: int|
            0 <= i < orgs@.len() ==> (#[trigger] r@[i]).value@ == orgs@[i].login@ && r@[i].label@
                == orgs@[i].login@,
{
    let mut out: Vec<Choice> = Vec::new();
    let mut i: usize = 0;
    while i < orgs.len()
        invariant
            i <= orgs@.len(),
            out@.len() == i,
            forall|k: int|
                0 <= k < i ==> (#[trigger] out@[k]).value@ == orgs@[k].login@ && out@[k].label@
                    == orgs@[k].login@,
        decreases orgs@.len() - i,
    {
        out.push(Choice { value: orgs[i].login.clone(), label: orgs[i].login.clone() });
        i += 1;
    }
    out
}

/// The body that sets a repository's default branch.
#[derive(Debug, Clone)]
pub struct DefaultBranchUpdate {
    pub default_branch: String,
}

/// The body that sets a repository's Actions permissions.
#[derive(Debug, Clone)]
pub struct ActionsPermissions {
    pub enabled: bool,
    pub allowed_actions: String,
}

/// The body that sets the permissions of a repository's workflows.
#[derive(Debug, Clone)]
pub struct WorkflowPermissions {
    pub can_approve_pull_request_reviews: bool,
    pub default_workflow_permissions: String,
}

/// The request that makes `branch` the default branch.
pub fn default_branch_update(branch: &str) -> (r: DefaultBranchUpdate)
    ensures
        r.default_branch@ == branch@,
{
    DefaultBranchUpdate { default_branch: owned(branch) }
}

/// Actions are enabled, and every action is allowed.
pub fn actions_permissions() -> (r: ActionsPermissions)
    ensures
        r.enabled,
        r.allowed_actions@ == "all"@,
{
    ActionsPermissions { enabled: true, allowed_actions: owned("all") }
}

/// Workflows may write and may approve pull request reviews.
pub fn workflow_permissions() -> (r: WorkflowPermissions)
    ensures
        r.can_approve_pull_request_reviews,
        r.default_workflow_permissions@ == "write"@,
{
    WorkflowPermissions {
        can_approve_pull_request_reviews: true,
        default_workflow_permissions: owned("write"),
    }
}

/// The protections a new project asks for: `prod` takes pull requests
/// only, with status checks, administrators included; `dev` requires
/// status checks only.
pub fn project_branch_protections() -> (r: Vec<(&'static str, BranchProtectionRules)>)
    ensures
        r@.len() == 2,
        r@[0].0@ == "prod"@,
        r@[0].1.required_pull_request_reviews matches Some(p) && p.required_approving_review_count == 1
            && p.dismiss_stale_reviews && !p.require_code_owner_reviews,
        r@[0].1.enforce_admins,
        r@[1].0@ == "dev"@,
        r@[1].1.required_pull_request_reviews is None,
        !r@[1].1.enforce_admins,
        forall|i: int|
            0 <= i < 2 ==> ((#[trigger] r@[i]).1.required_status_checks matches Some(c) && c.strict
                && c.contexts@.len() == 0),
        forall|i: int|
            0 <= i < 2 ==> !(#[trigger] r@[i]).1.allow_force_pushes && !r@[i].1.allow_deletions,
{
    let mut out: Vec<(&'static str, BranchProtectionRules)> = Vec::new();
    out.push(("prod", branch_protection_rules(true, true, true)));
    out.push(("dev", branch_protection_rules(false, true, false)));
    out
}

} // verus!
