//! Removal of a project's remote resources, and when its configuration may
//! go with them.
use vstd::prelude::*;

use crate::config::ProjectConfig;
use crate::keyring::accounts;

verus! {

/// What became of one remote resource of the project.
#[derive(Debug, Clone, Copy, PartialEq, Eq)]
pub enum RemovalOutcome {
    /// The project has no such resource.
    NothingToRemove,
    /// The resource was deleted.
    Removed,
    /// Deleting the resource failed.
    Failed,
    /// The resource was left alone (no token, no endpoint).
    Skipped,
}

/// The GitHub repository recorded for the project: its owner and name,
/// when both are known.
pub fn github_repository_to_remove(config: &ProjectConfig) -> (r: Option<(&String, &String)>)
    ensures
        match (config.github_repo_owner, config.github_repo_name) {
            (Some(o), Some(n)) => r matches Some((ro, rn)) && *ro == o && *rn == n,
            _ => r is None,
        },
{
    match (&config.github_repo_owner, &config.github_repo_name) {
        (Some(o), Some(n)) => Some((o, n)),
        _ => None,
    }
}

/// What became of a resource: nothing to do without one, left alone when
/// it cannot be attempted, else removed or failed as the attempt went.
pub fn removal_outcome(has_resource: bool, can_attempt: bool, attempt_succeeded: bool) -> (r:
    RemovalOutcome)
    ensures
        !has_resource ==> r == RemovalOutcome::NothingToRemove,
        has_resource && !can_attempt ==> r == RemovalOutcome::Skipped,
        has_resource && can_attempt && attempt_succeeded ==> r == RemovalOutcome::Removed,
        has_resource && can_attempt && !attempt_succeeded ==> r == RemovalOutcome::Failed,
{
    if !has_resource {
        RemovalOutcome::NothingToRemove
    } else if !can_attempt {
        RemovalOutcome::Skipped
    } else if attempt_succeeded {
        RemovalOutcome::Removed
    } else {
        RemovalOutcome::Failed
    }
}

/// The resource no longer exists remotely.
pub open spec fn is_gone(o: RemovalOutcome) -> bool {
    o == RemovalOutcome::NothingToRemove || o == RemovalOutcome::Removed
}

/// The project configuration is deleted only when neither the GitHub
/// repository nor the Coolify project is left behind.
pub fn may_delete_project_config(github: RemovalOutcome, coolify: RemovalOutcome) -> (r: bool)
    ensures
        r == (is_gone(github) && is_gone(coolify)),
{
    let github_gone = match github {
        RemovalOutcome::NothingToRemove | RemovalOutcome::Removed => true,
        _ => false,
    };
    let coolify_gone = match coolify {
        RemovalOutcome::NothingToRemove | RemovalOutcome::Removed => true,
        _ => false,
    };
    github_gone && coolify_gone
}

/// The keyring entries that a project removal clears: every secret the
/// tool keeps (the GitHub and Coolify tokens and the registry credentials),
/// once the project's remote resources are all gone; while one remains,
/// the secrets are kept, as a later removal needs them.
pub fn keyring_accounts_to_clear(github: RemovalOutcome, coolify: RemovalOutcome) -> (r: Vec<
    &'static str,
>)
    ensures
        is_gone(github) && is_gone(coolify) ==> r@.len() == 4 && r@[0]@ == accounts::GITHUB_TOKEN@
            && r@[1]@ == accounts::COOLIFY_TOKEN@ && r@[2]@ == accounts::REGISTRY_USER@ && r@[3]@
            == accounts::REGISTRY_TOKEN@,
        !(is_gone(github) && is_gone(coolify)) ==> r@.len() == 0,
{
    let mut out: Vec<&'static str> = Vec::new();
    if may_delete_project_config(github, coolify) {
        out.push(accounts::GITHUB_TOKEN);
        out.push(accounts::COOLIFY_TOKEN);
        out.push(accounts::REGISTRY_USER);
        out.push(accounts::REGISTRY_TOKEN);
    }
    out
}

} // verus!
