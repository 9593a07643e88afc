//! The summary of the configuration check.
use vstd::prelude::*;

use crate::execution::views;
use crate::text::{join_seq, join_strings, owned, push_chars, push_str, string_from_chars};

verus! {

/// How the configuration check ends.
#[derive(Debug)]
pub enum DoctorSummary {
    /// Nothing to report.
    AllPassed,
    /// Only warnings, one per line.
    Warnings(String),
    /// Issues, one per line, followed by the warnings.
    Issues(String),
}

/// The warnings part of a report with issues: the warnings, or `None`.
pub open spec fn warnings_text(warnings: Seq<Seq<char>>) -> Seq<char> {
    if warnings.len() == 0 {
        "None"@
    } else {
        join_seq(warnings, "\n"@)
    }
}

/// Sums up the check: all passed, only warnings, or issues and warnings.
pub fn doctor_summary(issues: &Vec<String>, warnings: &Vec<String>) -> (r: DoctorSummary)
    ensures
        issues@.len() == 0 && warnings@.len() == 0 ==> r is AllPassed,
        issues@.len() == 0 && warnings@.len() > 0 ==> (r matches DoctorSummary::Warnings(t) && t@
            == join_seq(views(warnings@), "\n"@)),
        issues@.len() > 0 ==> (r matches DoctorSummary::Issues(t) && t@ == join_seq(
            views(issues@),
            "\n"@,
        ) + "\n\nWarnings:\n"@ + warnings_text(views(warnings@))),
{
    if issues.len() == 0 && warnings.len() == 0 {
        DoctorSummary::AllPassed
    } else if issues.len() == 0 {
        let w = join_strings(warnings, "\n");
        DoctorSummary::Warnings(string_from_chars(w.as_slice()))
    } else {
        let mut v = join_strings(issues, "\n");
        push_str(&mut v, "\n\nWarnings:\n");
        if warnings.len() == 0 {
            push_str(&mut v, "None");
        } else {
            let w = join_strings(warnings, "\n");
            push_chars(&mut v, w.as_slice());
        }
        DoctorSummary::Issues(string_from_chars(v.as_slice()))
    }
}

/// What the check of the GitHub token found.
#[derive(Debug)]
pub enum GitHubTokenCheck {
    /// The API accepted the token.
    Valid,
    /// The API answered with this error status.
    Rejected(String),
    /// The API could not be reached, for this reason.
    Unreachable(String),
    /// No token is configured.
    NotConfigured,
    /// Reading the token failed, for this reason.
    Unreadable(String),
}

/// What the check of the Coolify configuration found.
#[derive(Debug)]
pub enum CoolifyCheck {
    /// The API answered.
    Accessible,
    /// The API answered with this error status.
    ErrorStatus(String),
    /// The API could not be reached, for this reason.
    Unreachable(String),
    /// No endpoint or no token is configured.
    NotConfigured,
}

/// A finding of the doctor: an issue, or a warning.
#[derive(Debug)]
pub enum Finding {
    Issue(String),
    Warning(String),
}

fn prefixed(prefix: &str, detail: &str) -> (r: String)
    ensures
        r@ == prefix@ + detail@,
{
    let mut v: Vec<char> = Vec::new();
    push_str(&mut v, prefix);
    push_str(&mut v, detail);
    string_from_chars(v.as_slice())
}

/// How the check of the GitHub token counts: a rejected token or a token
/// that cannot be read is an issue; an unreachable API or a missing token
/// is a warning; a valid token is nothing.
pub fn github_check_finding(check: &GitHubTokenCheck) -> (r: Option<Finding>)
    ensures
        match *check {
            GitHubTokenCheck::Valid => r is None,
            GitHubTokenCheck::Rejected(_) => r matches Some(Finding::Issue(m)) && m@
                == "GitHub token is invalid or expired"@,
            GitHubTokenCheck::Unreachable(e) => r matches Some(Finding::Warning(m)) && m@
                == "Could not validate GitHub token: "@ + e@,
            GitHubTokenCheck::NotConfigured => r matches Some(Finding::Warning(m)) && m@
                == "GitHub token not configured"@,
            GitHubTokenCheck::Unreadable(e) => r matches Some(Finding::Issue(m)) && m@
                == "Failed to get GitHub token: "@ + e@,
        },
{
    match check {
        GitHubTokenCheck::Valid => None,
        GitHubTokenCheck::Rejected(_) => Some(Finding::Issue(owned("GitHub token is invalid or expired"))),
        GitHubTokenCheck::Unreachable(e) => Some(
            Finding::Warning(prefixed("Could not validate GitHub token: ", e.as_str())),
        ),
        GitHubTokenCheck::NotConfigured => Some(Finding::Warning(owned("GitHub token not configured"))),
        GitHubTokenCheck::Unreadable(e) => Some(
            Finding::Issue(prefixed("Failed to get GitHub token: ", e.as_str())),
        ),
    }
}

/// How the check of the Coolify configuration counts: anything but an
/// accessible API is a warning (Coolify is optional).
pub fn coolify_check_finding(check: &CoolifyCheck) -> (r: Option<Finding>)
    ensures
        match *check {
            CoolifyCheck::Accessible => r is None,
            CoolifyCheck::ErrorStatus(s) => r matches Some(Finding::Warning(m)) && m@
                == "Coolify API returned error: "@ + s@,
            CoolifyCheck::Unreachable(e) => r matches Some(Finding::Warning(m)) && m@
                == "Could not connect to Coolify: "@ + e@,
            CoolifyCheck::NotConfigured => r matches Some(Finding::Warning(m)) && m@
                == "Coolify not configured"@,
        },
{
    match check {
        CoolifyCheck::Accessible => None,
        CoolifyCheck::ErrorStatus(s) => Some(
            Finding::Warning(prefixed("Coolify API returned error: ", s.as_str())),
        ),
        CoolifyCheck::Unreachable(e) => Some(
            Finding::Warning(prefixed("Could not connect to Coolify: ", e.as_str())),
        ),
        CoolifyCheck::NotConfigured => Some(Finding::Warning(owned("Coolify not configured"))),
    }
}

} // verus!
