//! Project initialization: the options of a new project and the decisions
//! taken while it is set up.
//!
//! The files, the repository, the prompts and the remote services are
//! handled by the application, which follows these decisions.
use vstd::prelude::*;

use crate::assoc::{insert_entry, lookup, remove_entry, unique_keys};
use crate::config::{CoolifyDefaults, NclConfig, ProjectConfig};
use crate::coolify::{application_request, CreateApplicationRequest, Destination};
use crate::templates::Template;
use crate::text::{
    chars_of, has_prefix, lowercase, map_chars, map_chars_exec, owned, push_str, replace_chars,
    replace_seq, starts_with_chars, str_eq, string_from_chars, to_lowercase, trim, trim_seq,
};

verus! {

/// Everything a new project is made from.
#[derive(Debug)]
pub struct ProjectOptions {
    pub name: String,
    pub path: String,
    pub template: Template,
    pub config: NclConfig,
}

/// The key under which the default Coolify server is remembered.
pub const COOLIFY_SERVER_ID_KEY: &'static str = "coolify_server_id";

impl ProjectOptions {
    /// The variables that template files may refer to: the project's name
    /// and its path.
    pub fn vars(&self) -> (r: Vec<(&str, &str)>)
        ensures
            r@.len() == 2,
            r@[0].0@ == "project_name"@,
            r@[0].1@ == self.name@,
            r@[1].0@ == "path"@,
            r@[1].1@ == self.path@,
    {
        let mut map: Vec<(&str, &str)> = Vec::new();
        map.push(("project_name", self.name.as_str()));
        map.push(("path", self.path.as_str()));
        map
    }

    /// Remembers validated Coolify settings as defaults: the endpoint, the
    /// server (forgotten when none or an empty one is given) and the token
    /// (mirrored in the keyring). Writing the configuration file is the
    /// caller's part.
    pub fn persist_coolify_defaults(&mut self, endpoint: &str, token: &str, server_id: Option<String>)
        requires
            unique_keys(old(self).config.defaults@),
        ensures
            unique_keys(final(self).config.defaults@),
            final(self).config.coolify.api_endpoint matches Some(e) && e@ == endpoint@,
            final(self).config.coolify.token matches Some(t) && t@ == token@,
            final(self).config.coolify.environment_dev_id == old(self).config.coolify.environment_dev_id,
            final(self).config.coolify.environment_prod_id
                == old(self).config.coolify.environment_prod_id,
            match server_id {
                Some(v) if v@.len() > 0 => lookup(
                    final(self).config.defaults@,
                    COOLIFY_SERVER_ID_KEY@,
                ) == Some(v),
                _ => lookup(final(self).config.defaults@, COOLIFY_SERVER_ID_KEY@) is None,
            },
            forall|k: Seq<char>|
                k != COOLIFY_SERVER_ID_KEY@ ==> lookup(final(self).config.defaults@, k) == lookup(
                    old(self).config.defaults@,
                    k,
                ),
            final(self).config.github == old(self).config.github,
            final(self).config.skip_github == old(self).config.skip_github,
            final(self).config.skip_coolify == old(self).config.skip_coolify,
            final(self).config.skip_trello == old(self).config.skip_trello,
            final(self).name == old(self).name,
            final(self).path == old(self).path,
            final(self).template == old(self).template,
    {
        self.config.coolify.api_endpoint = Some(owned(endpoint));
        match server_id {
            Some(value) => {
                if value.as_str().unicode_len() > 0 {
                    insert_entry(&mut self.config.defaults, owned(COOLIFY_SERVER_ID_KEY), value);
                } else {
                    remove_entry(&mut self.config.defaults, COOLIFY_SERVER_ID_KEY);
                }
            },
            None => {
                remove_entry(&mut self.config.defaults, COOLIFY_SERVER_ID_KEY);
            },
        }
        self.config.set_coolify_token(Some(owned(token)));
    }
}

/// The command-line flags that skip an integration override the
/// configuration; flags that are not given leave it as it is.
pub fn apply_skip_flags(config: &mut NclConfig, skip_github: bool, skip_coolify: bool, skip_trello: bool)
    ensures
        final(config).skip_github == (old(config).skip_github || skip_github),
        final(config).skip_coolify == (old(config).skip_coolify || skip_coolify),
        final(config).skip_trello == (old(config).skip_trello || skip_trello),
        final(config).defaults == old(config).defaults,
        final(config).github == old(config).github,
        final(config).coolify == old(config).coolify,
{
    if skip_github {
        config.skip_github = true;
    }
    if skip_coolify {
        config.skip_coolify = true;
    }
    if skip_trello {
        config.skip_trello = true;
    }
}

/// A name with every underscore turned into a hyphen.
pub fn hyphenate_underscores(name: &str) -> (r: String)
    ensures
        r@ == map_chars(name@, set!['_'], '-'),
{
    let cv = chars_of(name);
    let from: Vec<char> = vec!['_'];
    assert(from@.to_set() =~= set!['_']) by {
        assert(from@[0] == '_');
    }
    let out = map_chars_exec(cv.as_slice(), from.as_slice(), '-');
    string_from_chars(out.as_slice())
}

/// The name of the project in Coolify: the project's name, lowercased, with
/// underscores turned into hyphens.
pub fn coolify_project_name(name: &str) -> (r: String)
    ensures
        r@ == map_chars(lowercase(name@), set!['_'], '-'),
{
    let lower = to_lowercase(name);
    hyphenate_underscores(lower.as_str())
}

/// Whether the repository is private: it is unless the configured
/// visibility is something other than `private`.
pub fn repo_is_private(visibility: &Option<String>) -> (r: bool)
    ensures
        r == match *visibility {
            Some(v) => v@ == "private"@,
            None => true,
        },
{
    match visibility {
        Some(v) => str_eq(v.as_str(), "private"),
        None => true,
    }
}

/// The clone URL with the token embedded for pushing: every `https://`
/// becomes `https://<token>@` when the URL uses https; other URLs are kept.
pub fn authenticated_clone_url(clone_url: &str, token: &str) -> (r: String)
    ensures
        r@ == if has_prefix(clone_url@, "https://"@) {
            replace_seq(clone_url@, "https://"@, "https://"@ + token@ + "@"@)
        } else {
            clone_url@
        },
{
    let cv = chars_of(clone_url);
    let scheme = chars_of("https://");
    if starts_with_chars(cv.as_slice(), scheme.as_slice()) {
        let mut rep: Vec<char> = Vec::new();
        push_str(&mut rep, "https://");
        push_str(&mut rep, token);
        push_str(&mut rep, "@");
        proof {
            reveal_strlit("https://");
        }
        let out = replace_chars(cv.as_slice(), scheme.as_slice(), rep.as_slice());
        string_from_chars(out.as_slice())
    } else {
        owned(clone_url)
    }
}

/// How the destination of the Coolify applications is chosen.
#[derive(Debug)]
pub enum DestinationDecision {
    /// The server has several destinations: the user selects one.
    Select,
    /// This destination (or none) is used without asking.
    Use(Option<String>),
    /// The API gave no destinations: the user may type a UUID.
    AskManually,
}

/// Chooses how the destination is found from the destinations the server
/// reported.
pub fn destination_decision(destinations: &Option<Vec<Destination>>) -> (r: DestinationDecision)
    ensures
        match *destinations {
            Some(d) => if d@.len() > 1 {
                r is Select
            } else if d@.len() == 1 {
                r matches DestinationDecision::Use(u) && u == d@[0].uuid
            } else {
                r matches DestinationDecision::Use(u) && u is None
            },
            None => r is AskManually,
        },
{
    match destinations {
        Some(d) => {
            if d.len() > 1 {
                DestinationDecision::Select
            } else if d.len() == 1 {
                DestinationDecision::Use(d[0].uuid.clone())
            } else {
                DestinationDecision::Use(None)
            }
        },
        None => DestinationDecision::AskManually,
    }
}

/// A destination typed by the user: trimmed, and none when blank.
pub fn manual_destination(input: &str) -> (r: Option<String>)
    ensures
        trim_seq(input@).len() == 0 ==> r is None,
        trim_seq(input@).len() > 0 ==> (r matches Some(d) && d@ == trim_seq(input@)),
{
    let t = trim(input);
    if t.as_str().unicode_len() == 0 {
        None
    } else {
        Some(t)
    }
}

/// The default name of the Coolify application: `<repo>-app`.
pub fn default_application_name(repo: &str) -> (r: String)
    ensures
        r@ == repo@ + "-app"@,
{
    let mut v: Vec<char> = Vec::new();
    push_str(&mut v, repo);
    push_str(&mut v, "-app");
    string_from_chars(v.as_slice())
}

/// The repository as Coolify names it: `<owner>/<repo>`.
pub fn repository_slug(owner: &str, repo: &str) -> (r: String)
    ensures
        r@ == owner@ + "/"@ + repo@,
{
    let mut v: Vec<char> = Vec::new();
    push_str(&mut v, owner);
    push_str(&mut v, "/");
    push_str(&mut v, repo);
    string_from_chars(v.as_slice())
}

/// Checks an application name typed by the user: it is required.
pub fn validate_application_name(input: &str) -> (r: Result<(), &'static str>)
    ensures
        input@.len() == 0 ==> (r matches Err(m) && m@ == "Application name is required"@),
        input@.len() > 0 ==> r is Ok,
{
    if input.unicode_len() == 0 {
        Err("Application name is required")
    } else {
        Ok(())
    }
}

/// An ASCII letter or digit.
pub open spec fn is_ascii_alphanumeric(c: char) -> bool {
    ('a' <= c <= 'z') || ('A' <= c <= 'Z') || ('0' <= c <= '9')
}

/// A classic GitHub personal access token: `ghp_` followed by 36 ASCII
/// letters or digits, and nothing else.
pub open spec fn is_classic_token(s: Seq<char>) -> bool {
    &&& s.len() == 40
    &&& s.take(4) == "ghp_"@
    &&& forall|i: int| 4 <= i < 40 ==> is_ascii_alphanumeric(#[trigger] s[i])
}

/// Calls `regex::Regex::new` on the token pattern and `Regex::is_match` on
/// the text. The pattern is anchored at both ends (`^`, and `$` at the end
/// of the text only) and its class holds ASCII letters and digits, so the
/// text matches exactly when it is a classic token.
#[verifier::external_body]
fn regex_is_match(pattern: &str, text: &str) -> (r: bool)
    requires
        pattern@ == GITHUB_TOKEN_PATTERN@,
    ensures
        r == is_classic_token(text@),
{
    regex::Regex::new(pattern).map(|re| re.is_match(text)).unwrap_or(false)
}

/// The shape of a classic GitHub personal access token.
pub const GITHUB_TOKEN_PATTERN: &'static str = "^ghp_[a-zA-Z0-9]{36}$";

/// The verdict on a typed GitHub token, given whether it has the shape of
/// a personal access token: an empty answer is accepted (it skips GitHub).
pub fn github_token_verdict(input: &str, well_formed: bool) -> (r: Result<(), &'static str>)
    ensures
        input@.len() == 0 || well_formed ==> r is Ok,
        input@.len() > 0 && !well_formed ==> (r matches Err(m) && m@
            == "Not a valid personal access token"@),
{
    if input.unicode_len() == 0 || well_formed {
        Ok(())
    } else {
        Err("Not a valid personal access token")
    }
}

/// Checks a GitHub token typed by the user: empty, or a classic personal
/// access token (`ghp_` and 36 letters or digits).
pub fn validate_github_token(input: &str) -> (r: Result<(), &'static str>)
    ensures
        input@.len() == 0 ==> r is Ok,
        input@.len() > 0 ==> (r is Ok <==> is_classic_token(input@)),
        r matches Err(m) ==> m@ == "Not a valid personal access token"@,
{
    if input.unicode_len() == 0 {
        return github_token_verdict(input, true);
    }
    let matched = regex_is_match(GITHUB_TOKEN_PATTERN, input);
    github_token_verdict(input, matched)
}

/// The remote resources created so far during an initialization, which a
/// later failure removes again.
#[derive(Debug, Clone)]
pub struct RollbackState {
    pub coolify_project_id: Option<String>,
    pub github_repo_owner: Option<String>,
    pub github_repo_name: Option<String>,
}

impl Default for RollbackState {
    fn default() -> (r: Self)
        ensures
            r.coolify_project_id is None,
            r.github_repo_owner is None,
            r.github_repo_name is None,
    {
        RollbackState { coolify_project_id: None, github_repo_owner: None, github_repo_name: None }
    }
}

/// The steps of an initialization that follow the installation of the
/// project's files, in the order in which they may run.
#[derive(Debug, Clone, Copy, PartialEq, Eq, Structural)]
pub enum InitStep {
    SetUpCoolify,
    InitializeGit,
    SetUpGitHub,
    SetUpCoolifyGitHubResources,
    SaveProjectConfig,
    CommitProjectConfig,
    PushBranches,
}

/// What an initialization does next.
#[derive(Debug, Clone, Copy, PartialEq, Eq, Structural)]
pub enum InitAction {
    Run(InitStep),
    Finish,
}

/// The position of a step in the order of the initialization.
pub open spec fn step_rank(s: InitStep) -> int {
    match s {
        InitStep::SetUpCoolify => 0,
        InitStep::InitializeGit => 1,
        InitStep::SetUpGitHub => 2,
        InitStep::SetUpCoolifyGitHubResources => 3,
        InitStep::SaveProjectConfig => 4,
        InitStep::CommitProjectConfig => 5,
        InitStep::PushBranches => 6,
    }
}

/// The step after `done` (`None` before the first one): Coolify is set up
/// first when asked for, then the repository is created; GitHub is set up
/// unless skipped, and the Coolify applications are added when both
/// integrations ran and the GitHub repository is known; the project
/// configuration is saved and committed, and the branches are pushed
/// unless GitHub is skipped.
pub open spec fn next_action(
    done: Option<InitStep>,
    setup_coolify: bool,
    skip_github: bool,
    repo_known: bool,
) -> InitAction {
    match done {
        None => if setup_coolify {
            InitAction::Run(InitStep::SetUpCoolify)
        } else {
            InitAction::Run(InitStep::InitializeGit)
        },
        Some(InitStep::SetUpCoolify) => InitAction::Run(InitStep::InitializeGit),
        Some(InitStep::InitializeGit) => if skip_github {
            InitAction::Run(InitStep::SaveProjectConfig)
        } else {
            InitAction::Run(InitStep::SetUpGitHub)
        },
        Some(InitStep::SetUpGitHub) => if setup_coolify && repo_known {
            InitAction::Run(InitStep::SetUpCoolifyGitHubResources)
        } else {
            InitAction::Run(InitStep::SaveProjectConfig)
        },
        Some(InitStep::SetUpCoolifyGitHubResources) => InitAction::Run(InitStep::SaveProjectConfig),
        Some(InitStep::SaveProjectConfig) => InitAction::Run(InitStep::CommitProjectConfig),
        Some(InitStep::CommitProjectConfig) => if skip_github {
            InitAction::Finish
        } else {
            InitAction::Run(InitStep::PushBranches)
        },
        Some(InitStep::PushBranches) => InitAction::Finish,
    }
}

/// The GitHub repository of the project is known: its owner and its name.
pub open spec fn repo_known(config: ProjectConfig) -> bool {
    config.github_repo_owner is Some && config.github_repo_name is Some
}

/// Decides the next step of an initialization, given the step that just
/// ended (`None` at the start), whether Coolify is being set up, whether
/// GitHub is skipped, and the project configuration built so far.
pub fn next_init_action(
    done: Option<InitStep>,
    setup_coolify: bool,
    skip_github: bool,
    project_config: &ProjectConfig,
) -> (r: InitAction)
    ensures
        r == next_action(done, setup_coolify, skip_github, repo_known(*project_config)),
{
    let known = project_config.github_repo_owner.is_some()
        && project_config.github_repo_name.is_some();
    match done {
        None => if setup_coolify {
            InitAction::Run(InitStep::SetUpCoolify)
        } else {
            InitAction::Run(InitStep::InitializeGit)
        },
        Some(InitStep::SetUpCoolify) => InitAction::Run(InitStep::InitializeGit),
        Some(InitStep::InitializeGit) => if skip_github {
            InitAction::Run(InitStep::SaveProjectConfig)
        } else {
            InitAction::Run(InitStep::SetUpGitHub)
        },
        Some(InitStep::SetUpGitHub) => if setup_coolify && known {
            InitAction::Run(InitStep::SetUpCoolifyGitHubResources)
        } else {
            InitAction::Run(InitStep::SaveProjectConfig)
        },
        Some(InitStep::SetUpCoolifyGitHubResources) => InitAction::Run(InitStep::SaveProjectConfig),
        Some(InitStep::SaveProjectConfig) => InitAction::Run(InitStep::CommitProjectConfig),
        Some(InitStep::CommitProjectConfig) => if skip_github {
            InitAction::Finish
        } else {
            InitAction::Run(InitStep::PushBranches)
        },
        Some(InitStep::PushBranches) => InitAction::Finish,
    }
}

/// How the failure of a step is reported: the context of the error after
/// which the created resources are removed and the initialization stops,
/// or `None` for the Coolify applications, whose failure is only a warning.
pub fn failure_context(step: InitStep) -> (r: Option<&'static str>)
    ensures
        step == InitStep::SetUpCoolifyGitHubResources <==> r is None,
        step == InitStep::SetUpCoolify ==> (r matches Some(m) && m@
            == "Failed to set up Coolify integration"@),
        step == InitStep::InitializeGit ==> (r matches Some(m) && m@
            == "Failed to initialize git repository"@),
        step == InitStep::SetUpGitHub ==> (r matches Some(m) && m@
            == "Failed to set up GitHub integration"@),
        step == InitStep::SaveProjectConfig ==> (r matches Some(m) && m@
            == "Failed to save project configuration"@),
        step == InitStep::CommitProjectConfig ==> (r matches Some(m) && m@
            == "Failed to commit project configuration"@),
        step == InitStep::PushBranches ==> (r matches Some(m) && m@ == "Failed to push branches"@),
{
    match step {
        InitStep::SetUpCoolify => Some("Failed to set up Coolify integration"),
        InitStep::InitializeGit => Some("Failed to initialize git repository"),
        InitStep::SetUpGitHub => Some("Failed to set up GitHub integration"),
        InitStep::SetUpCoolifyGitHubResources => None,
        InitStep::SaveProjectConfig => Some("Failed to save project configuration"),
        InitStep::CommitProjectConfig => Some("Failed to commit project configuration"),
        InitStep::PushBranches => Some("Failed to push branches"),
    }
}

/// Records what a step that succeeded created: the Coolify project after
/// the Coolify setup, the GitHub repository after the GitHub setup; other
/// steps create nothing that a rollback removes.
pub fn record_success(rollback: &mut RollbackState, step: InitStep, project_config: &ProjectConfig)
    ensures
        step == InitStep::SetUpCoolify ==> final(rollback).coolify_project_id
            == project_config.coolify.project_id,
        step != InitStep::SetUpCoolify ==> final(rollback).coolify_project_id
            == old(rollback).coolify_project_id,
        step == InitStep::SetUpGitHub ==> final(rollback).github_repo_owner
            == project_config.github_repo_owner && final(rollback).github_repo_name
            == project_config.github_repo_name,
        step != InitStep::SetUpGitHub ==> final(rollback).github_repo_owner
            == old(rollback).github_repo_owner && final(rollback).github_repo_name
            == old(rollback).github_repo_name,
{
    match step {
        InitStep::SetUpCoolify => {
            rollback.coolify_project_id = project_config.coolify.project_id.clone();
        },
        InitStep::SetUpGitHub => {
            rollback.github_repo_owner = project_config.github_repo_owner.clone();
            rollback.github_repo_name = project_config.github_repo_name.clone();
        },
        _ => {},
    }
}

/// What a rollback removes: the GitHub repository when its owner and name
/// were recorded, and the Coolify project when its identifier was.
pub fn rollback_targets(state: &RollbackState) -> (r: (Option<(&String, &String)>, Option<&String>))
    ensures
        match (state.github_repo_owner, state.github_repo_name) {
            (Some(o), Some(n)) => r.0 matches Some((ro, rn)) && *ro == o && *rn == n,
            _ => r.0 is None,
        },
        match state.coolify_project_id {
            Some(id) => r.1 matches Some(x) && *x == id,
            None => r.1 is None,
        },
{
    let github = match (&state.github_repo_owner, &state.github_repo_name) {
        (Some(o), Some(n)) => Some((o, n)),
        _ => None,
    };
    let coolify = match &state.coolify_project_id {
        Some(id) => Some(id),
        None => None,
    };
    (github, coolify)
}

/// Each step of an initialization comes after the one before it, so no
/// step runs twice and the initialization ends.
pub proof fn lemma_init_steps_advance(
    done: Option<InitStep>,
    setup_coolify: bool,
    skip_github: bool,
    repo_known: bool,
)
    ensures
        next_action(done, setup_coolify, skip_github, repo_known) matches InitAction::Run(s) ==> (
        match done {
            Some(d) => step_rank(s) > step_rank(d),
            None => true,
        }),
{
}

/// The skip flags are honoured: no GitHub step runs when GitHub is
/// skipped, and no Coolify step runs unless Coolify is being set up.
pub proof fn lemma_init_honours_skips(
    done: Option<InitStep>,
    setup_coolify: bool,
    skip_github: bool,
    repo_known: bool,
)
    ensures
        skip_github ==> next_action(done, setup_coolify, skip_github, repo_known) != InitAction::Run(
            InitStep::SetUpGitHub,
        ) && next_action(done, setup_coolify, skip_github, repo_known) != InitAction::Run(
            InitStep::PushBranches,
        ),
        !setup_coolify ==> next_action(done, setup_coolify, skip_github, repo_known)
            != InitAction::Run(InitStep::SetUpCoolify) && next_action(
            done,
            setup_coolify,
            skip_github,
            repo_known,
        ) != InitAction::Run(InitStep::SetUpCoolifyGitHubResources),
{
}

/// With GitHub wanted, the branches are pushed after the configuration is
/// committed, whether or not Coolify is set up, and the initialization
/// only finishes after pushing them; with GitHub skipped it finishes right
/// after the commit.
pub proof fn lemma_init_pushes_with_github(
    done: Option<InitStep>,
    setup_coolify: bool,
    skip_github: bool,
    repo_known: bool,
)
    ensures
        !skip_github ==> next_action(
            Some(InitStep::CommitProjectConfig),
            setup_coolify,
            skip_github,
            repo_known,
        ) == InitAction::Run(InitStep::PushBranches),
        skip_github ==> next_action(
            Some(InitStep::CommitProjectConfig),
            setup_coolify,
            skip_github,
            repo_known,
        ) == InitAction::Finish,
        !skip_github && next_action(done, setup_coolify, skip_github, repo_known)
            == InitAction::Finish ==> done == Some(InitStep::PushBranches),
        !skip_github && done == Some(InitStep::InitializeGit) ==> next_action(
            done,
            setup_coolify,
            skip_github,
            repo_known,
        ) == InitAction::Run(InitStep::SetUpGitHub),
{
}

/// The project configuration is always saved and committed: whatever ran
/// before, the initialization reaches the saving step before it finishes,
/// and committing follows saving.
pub proof fn lemma_init_saves_before_finishing(
    done: Option<InitStep>,
    setup_coolify: bool,
    skip_github: bool,
    repo_known: bool,
)
    ensures
        next_action(done, setup_coolify, skip_github, repo_known) == InitAction::Finish ==> (done
            == Some(InitStep::CommitProjectConfig) || done == Some(InitStep::PushBranches)),
        done == Some(InitStep::SaveProjectConfig) ==> next_action(
            done,
            setup_coolify,
            skip_github,
            repo_known,
        ) == InitAction::Run(InitStep::CommitProjectConfig),
{
}

/// Why the Coolify applications cannot be added, if they cannot: the
/// Coolify project, its endpoint and a Coolify token are all needed.
pub fn coolify_resources_blocker(project_config: &ProjectConfig, has_token: bool) -> (r: Option<
    &'static str,
>)
    ensures
        project_config.coolify.project_id is None ==> (r matches Some(m) && m@
            == "No Coolify project ID found, skipping GitHub app application setup"@),
        project_config.coolify.project_id is Some && project_config.coolify.api_endpoint is None
            ==> (r matches Some(m) && m@
            == "No Coolify endpoint found, skipping GitHub app application setup"@),
        project_config.coolify.project_id is Some && project_config.coolify.api_endpoint is Some
            && !has_token ==> (r matches Some(m) && m@
            == "No Coolify token found, skipping GitHub app application setup"@),
        project_config.coolify.project_id is Some && project_config.coolify.api_endpoint is Some
            && has_token ==> r is None,
{
    if project_config.coolify.project_id.is_none() {
        Some("No Coolify project ID found, skipping GitHub app application setup")
    } else if project_config.coolify.api_endpoint.is_none() {
        Some("No Coolify endpoint found, skipping GitHub app application setup")
    } else if !has_token {
        Some("No Coolify token found, skipping GitHub app application setup")
    } else {
        None
    }
}

/// The name under which the selected server is mentioned: its name, else
/// `selected server`.
pub fn server_display_name(name: &Option<String>) -> (r: String)
    ensures
        r@ == match *name {
            Some(n) => n@,
            None => "selected server"@,
        },
{
    match name {
        Some(n) => n.clone(),
        None => owned("selected server"),
    }
}

/// The port that the application's container exposes: Coolify requires 80.
pub const APPLICATION_PORT: &'static str = "80";

/// The compose file that Coolify builds: it exposes port 80 without
/// publishing it.
pub const COOLIFY_COMPOSE_FILE: &'static str = "/compose-coolify.yaml";

/// The request that creates the application of one environment (`dev` or
/// `prod`): it builds the branch of the same name of `owner/repo` with
/// Coolify's compose file and exposes port 80.
pub fn environment_application_request(
    project_id: &str,
    server_uuid: &str,
    environment: &str,
    environment_uuid: &str,
    github_app_uuid: &str,
    owner: &str,
    repo: &str,
    app_name: &str,
    destination_uuid: Option<&str>,
) -> (r: CreateApplicationRequest)
    ensures
        r.project_uuid@ == project_id@,
        r.server_uuid matches Some(s) && s@ == server_uuid@,
        match destination_uuid {
            Some(d) => r.destination_uuid matches Some(x) && x@ == d@,
            None => r.destination_uuid is None,
        },
        r.environment_name@ == environment@,
        r.environment_uuid@ == environment_uuid@,
        r.github_app_uuid@ == github_app_uuid@,
        r.git_repository@ == owner@ + "/"@ + repo@,
        r.git_branch@ == environment@,
        r.git_commit_sha matches Some(s) && s@ == "HEAD"@,
        r.build_pack@ == "dockercompose"@,
        r.name@ == app_name@,
        r.ports_exposes@ == "80"@,
        r.docker_compose_location matches Some(l) && l@ == "/compose-coolify.yaml"@,
{
    let repository = repository_slug(owner, repo);
    application_request(
        project_id,
        server_uuid,
        environment,
        environment_uuid,
        github_app_uuid,
        repository.as_str(),
        environment,
        app_name,
        COOLIFY_COMPOSE_FILE,
        APPLICATION_PORT,
        destination_uuid,
    )
}

/// Records the created GitHub repository in the project configuration.
pub fn record_repository(project_config: &mut ProjectConfig, clone_url: &str, owner: &str, name: &str)
    ensures
        final(project_config).github_repo_url matches Some(u) && u@ == clone_url@,
        final(project_config).github_repo_owner matches Some(o) && o@ == owner@,
        final(project_config).github_repo_name matches Some(n) && n@ == name@,
        final(project_config).coolify == old(project_config).coolify,
{
    project_config.github_repo_url = Some(owned(clone_url));
    project_config.github_repo_owner = Some(owned(owner));
    project_config.github_repo_name = Some(owned(name));
}

/// The environments that get a Coolify application, in order (`dev`, then
/// `prod`), each with its identifier; an environment whose identifier is not
/// known is an error. `next_application` decides which one is created
/// next.
pub fn application_environments(defaults: &CoolifyDefaults) -> (r: Result<
    Vec<(&'static str, &String)>,
    &'static str,
>)
    ensures
        defaults.environment_dev_id is None ==> (r matches Err(m) && m@
            == "Dev environment UUID not found"@),
        defaults.environment_dev_id is Some && defaults.environment_prod_id is None ==> (r matches Err(
            m,
        ) && m@ == "Prod environment UUID not found"@),
        match (defaults.environment_dev_id, defaults.environment_prod_id) {
            (Some(d), Some(p)) => r matches Ok(envs) && envs@.len() == 2 && envs@[0].0@ == "dev"@
                && *envs@[0].1 == d && envs@[1].0@ == "prod"@ && *envs@[1].1 == p,
            _ => r is Err,
        },
{
    let dev = match &defaults.environment_dev_id {
        Some(d) => d,
        None => {
            return Err("Dev environment UUID not found");
        },
    };
    let prod = match &defaults.environment_prod_id {
        Some(p) => p,
        None => {
            return Err("Prod environment UUID not found");
        },
    };
    let mut out: Vec<(&'static str, &String)> = Vec::new();
    out.push(("dev", dev));
    out.push(("prod", prod));
    Ok(out)
}

/// The application to create after the attempt on the one at `index` of
/// `count`: the next one when this one was created; none when it was the
/// last, or when it failed (the failure is reported as a warning and the
/// setup stops there without an error).
pub fn next_application(index: usize, succeeded: bool, count: usize) -> (r: Option<usize>)
    ensures
        r == (if succeeded && index + 1 < count {
            Some((index + 1) as usize)
        } else {
            None
        }),
{
    if succeeded && index < count && count - index > 1 {
        Some(index + 1)
    } else {
        None
    }
}

} // verus!
