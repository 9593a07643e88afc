//! Coolify integration: the client's endpoints, the requests it sends, the
//! interpretation of the answers and the choices offered to the user.
//!
//! The HTTP exchanges and the prompts themselves are carried out by the
//! application.
use vstd::prelude::*;

use crate::text::{
    chars_of, has_prefix, owned, push_decimal, push_str, decimal, starts_with_chars, str_eq,
    string_from_chars, trim_end_char, trim_end_char_exec,
};

verus! {

/// Coolify API client for creating and managing projects
pub struct CoolifyClient {
    api_endpoint: String,
    api_token: String,
}

/// An environment as the Coolify API describes it.
#[derive(Debug, Clone)]
pub struct EnvironmentResponse {
    pub id: Option<String>,
    pub uuid: Option<String>,
    pub webhook_url: Option<String>,
    pub name: Option<String>,
}

/// A GitHub app registered in Coolify.
#[derive(Debug, Clone)]
pub struct GitHubApp {
    pub uuid: Option<String>,
    pub name: Option<String>,
    pub app_id: Option<u64>,
}

/// A server registered in Coolify.
#[derive(Debug, Clone)]
pub struct Server {
    pub uuid: Option<String>,
    pub name: Option<String>,
    pub destinations: Option<Vec<Destination>>,
}

/// A deployment destination of a server.
#[derive(Debug, Clone)]
pub struct Destination {
    pub uuid: Option<String>,
    pub name: Option<String>,
    pub destination_type: Option<String>,
}

/// An environment variable of a Coolify application.
#[derive(Debug, Clone)]
pub struct ApplicationEnvironmentVariable {
    pub key: String,
    pub value: String,
    pub is_build_time: Option<bool>,
    pub is_multiline: Option<bool>,
    pub is_preview: Option<bool>,
    pub is_literal: Option<bool>,
    pub is_shown_once: Option<bool>,
}

/// An environment variable as Coolify's API expects it.
#[derive(Debug, Clone)]
pub struct ApplicationEnvPayload {
    pub key: String,
    pub value: String,
    pub is_preview: bool,
    pub is_literal: bool,
    pub is_multiline: bool,
    pub is_shown_once: bool,
}

/// The body of a project creation request.
#[derive(Debug, Clone)]
pub struct CreateProjectRequest {
    pub name: String,
    pub description: Option<String>,
}

/// The body of an environment creation request.
#[derive(Debug, Clone)]
pub struct CreateEnvironmentRequest {
    pub name: String,
}

/// The body of a request that creates an application from a GitHub app.
#[derive(Debug, Clone)]
pub struct CreateApplicationRequest {
    pub project_uuid: String,
    pub server_uuid: Option<String>,
    pub destination_uuid: Option<String>,
    pub environment_name: String,
    pub environment_uuid: String,
    pub github_app_uuid: String,
    pub git_repository: String,
    pub git_branch: String,
    pub git_commit_sha: Option<String>,
    pub build_pack: String,
    pub name: String,
    pub ports_exposes: String,
    pub docker_compose_location: Option<String>,
}

/// An item offered in a selection prompt: the value chosen and its label.
#[derive(Debug, Clone)]
pub struct Choice {
    pub value: String,
    pub label: String,
}

/// Errors of the Coolify integration.
#[derive(Debug, Clone, PartialEq, Eq)]
pub enum CoolifyError {
    NoGitHubApps,
    GitHubAppMissingUuid,
    NoServers,
    ServerMissingUuid,
    SelectedServerNotFound,
    NoDestinations(String),
    DestinationMissingUuid,
}

impl CoolifyError {
    /// The message shown for this error.
    pub fn message(&self) -> (r: String)
        ensures
            r@ == match *self {
                CoolifyError::NoGitHubApps =>
                    "No GitHub apps found. Please create a GitHub app in Coolify first."@,
                CoolifyError::GitHubAppMissingUuid => "GitHub app missing UUID"@,
                CoolifyError::NoServers => "No servers found. Please add a server in Coolify first."@,
                CoolifyError::ServerMissingUuid => "Server missing UUID"@,
                CoolifyError::SelectedServerNotFound => "Unable to load selected server"@,
                CoolifyError::NoDestinations(s) => "No destinations available for server "@ + s@,
                CoolifyError::DestinationMissingUuid => "Destination missing UUID"@,
            },
    {
        match self {
            CoolifyError::NoGitHubApps => owned(
                "No GitHub apps found. Please create a GitHub app in Coolify first.",
            ),
            CoolifyError::GitHubAppMissingUuid => owned("GitHub app missing UUID"),
            CoolifyError::NoServers => owned(
                "No servers found. Please add a server in Coolify first.",
            ),
            CoolifyError::ServerMissingUuid => owned("Server missing UUID"),
            CoolifyError::SelectedServerNotFound => owned("Unable to load selected server"),
            CoolifyError::NoDestinations(s) => {
                let mut v: Vec<char> = Vec::new();
                push_str(&mut v, "No destinations available for server ");
                push_str(&mut v, s.as_str());
                string_from_chars(v.as_slice())
            },
            CoolifyError::DestinationMissingUuid => owned("Destination missing UUID"),
        }
    }
}

/// `s` does not end with `c`.
pub open spec fn no_trailing(s: Seq<char>, c: char) -> bool {
    !(s.len() > 0 && s.last() == c)
}

/// Trimming leaves no trailing character `c`.
pub proof fn lemma_trim_end_leaves_none(s: Seq<char>, c: char)
    ensures
        no_trailing(trim_end_char(s, c), c),
    decreases s.len(),
{
    if s.len() > 0 && s.last() == c {
        lemma_trim_end_leaves_none(s.drop_last(), c);
    }
}

/// Trimming twice is trimming once.
pub proof fn lemma_trim_end_idempotent(s: Seq<char>, c: char)
    ensures
        trim_end_char(trim_end_char(s, c), c) == trim_end_char(s, c),
{
    lemma_trim_end_leaves_none(s, c);
}

impl CoolifyClient {
    /// The API endpoint, without trailing slashes.
    pub closed spec fn endpoint(&self) -> Seq<char> {
        self.api_endpoint@
    }

    /// The API token.
    pub closed spec fn token(&self) -> Seq<char> {
        self.api_token@
    }

    /// A client for the given endpoint (its trailing slashes dropped) and token.
    pub fn new(api_endpoint: String, api_token: String) -> (r: Self)
        ensures
            r.endpoint() == trim_end_char(api_endpoint@, '/'),
            no_trailing(r.endpoint(), '/'),
            r.token() == api_token@,
    {
        let cv = chars_of(api_endpoint.as_str());
        let trimmed = trim_end_char_exec(cv.as_slice(), '/');
        proof {
            lemma_trim_end_leaves_none(api_endpoint@, '/');
        }
        CoolifyClient { api_endpoint: string_from_chars(trimmed.as_slice()), api_token }
    }

    /// The API endpoint.
    pub fn api_endpoint(&self) -> (r: &str)
        ensures
            r@ == self.endpoint(),
    {
        self.api_endpoint.as_str()
    }

    /// The value of the `Authorization` header: `Bearer <token>`.
    pub fn authorization(&self) -> (r: String)
        ensures
            r@ == "Bearer "@ + self.token(),
    {
        let mut v: Vec<char> = Vec::new();
        push_str(&mut v, "Bearer ");
        push_str(&mut v, self.api_token.as_str());
        string_from_chars(v.as_slice())
    }

    /// The endpoint followed by the given path pieces.
    fn url_of(&self, a: &str, b: &str, c: &str, d: &str) -> (r: String)
        ensures
            r@ == self.endpoint() + a@ + b@ + c@ + d@,
    {
        let mut v: Vec<char> = Vec::new();
        push_str(&mut v, self.api_endpoint.as_str());
        push_str(&mut v, a);
        push_str(&mut v, b);
        push_str(&mut v, c);
        push_str(&mut v, d);
        string_from_chars(v.as_slice())
    }

    /// `<endpoint>/api/v1/projects`
    pub fn projects_url(&self) -> (r: String)
        ensures
            r@ == self.endpoint() + "/api/v1/projects"@,
    {
        let r = self.url_of("/api/v1/projects", "", "", "");
        proof {
            reveal_strlit("");
        }
        assert(r@ =~= self.endpoint() + "/api/v1/projects"@);
        r
    }

    /// `<endpoint>/api/v1/projects/<project_id>`
    pub fn project_url(&self, project_id: &str) -> (r: String)
        ensures
            r@ == self.endpoint() + "/api/v1/projects/"@ + project_id@,
    {
        let r = self.url_of("/api/v1/projects/", project_id, "", "");
        proof {
            reveal_strlit("");
        }
        assert(r@ =~= self.endpoint() + "/api/v1/projects/"@ + project_id@);
        r
    }

    /// `<endpoint>/api/v1/projects/<project_id>/environments`
    pub fn environments_url(&self, project_id: &str) -> (r: String)
        ensures
            r@ == self.endpoint() + "/api/v1/projects/"@ + project_id@ + "/environments"@,
    {
        let r = self.url_of("/api/v1/projects/", project_id, "/environments", "");
        proof {
            reveal_strlit("");
        }
        assert(r@ =~= self.endpoint() + "/api/v1/projects/"@ + project_id@ + "/environments"@);
        r
    }

    /// `<endpoint>/api/v1/projects/<project_id>/environments/<environment>`
    pub fn environment_url(&self, project_id: &str, environment: &str) -> (r: String)
        ensures
            r@ == self.endpoint() + "/api/v1/projects/"@ + project_id@ + "/environments/"@
                + environment@,
    {
        self.url_of("/api/v1/projects/", project_id, "/environments/", environment)
    }

    /// `<endpoint>/api/v1/github-apps`
    pub fn github_apps_url(&self) -> (r: String)
        ensures
            r@ == self.endpoint() + "/api/v1/github-apps"@,
    {
        let r = self.url_of("/api/v1/github-apps", "", "", "");
        proof {
            reveal_strlit("");
        }
        assert(r@ =~= self.endpoint() + "/api/v1/github-apps"@);
        r
    }

    /// `<endpoint>/api/v1/servers`
    pub fn servers_url(&self) -> (r: String)
        ensures
            r@ == self.endpoint() + "/api/v1/servers"@,
    {
        let r = self.url_of("/api/v1/servers", "", "", "");
        proof {
            reveal_strlit("");
        }
        assert(r@ =~= self.endpoint() + "/api/v1/servers"@);
        r
    }

    /// `<endpoint>/api/v1/applications/private-github-app`
    pub fn github_app_applications_url(&self) -> (r: String)
        ensures
            r@ == self.endpoint() + "/api/v1/applications/private-github-app"@,
    {
        let r = self.url_of("/api/v1/applications/private-github-app", "", "", "");
        proof {
            reveal_strlit("");
        }
        assert(r@ =~= self.endpoint() + "/api/v1/applications/private-github-app"@);
        r
    }

    /// `<endpoint>/api/v1/applications/<application_uuid>/envs`
    pub fn application_envs_url(&self, application_uuid: &str) -> (r: String)
        ensures
            r@ == self.endpoint() + "/api/v1/applications/"@ + application_uuid@ + "/envs"@,
    {
        let r = self.url_of("/api/v1/applications/", application_uuid, "/envs", "");
        proof {
            reveal_strlit("");
        }
        assert(r@ =~= self.endpoint() + "/api/v1/applications/"@ + application_uuid@ + "/envs"@);
        r
    }
}

impl ApplicationEnvironmentVariable {
    /// A variable with no flags set.
    pub fn new(key: &str, value: &str) -> (r: Self)
        ensures
            r.key@ == key@,
            r.value@ == value@,
            r.is_build_time is None,
            r.is_multiline is None,
            r.is_preview is None,
            r.is_literal is None,
            r.is_shown_once is None,
    {
        Self {
            key: owned(key),
            value: owned(value),
            is_build_time: None,
            is_multiline: None,
            is_preview: None,
            is_literal: None,
            is_shown_once: None,
        }
    }

    /// Convenience constructor that sets Coolify-friendly defaults
    /// is_preview: true, is_literal: true, is_multiline: true, is_shown_once: true
    pub fn with_coolify_defaults(key: &str, value: &str) -> (r: Self)
        ensures
            r.key@ == key@,
            r.value@ == value@,
            r.is_build_time is None,
            r.is_multiline == Some(true),
            r.is_preview == Some(true),
            r.is_literal == Some(true),
            r.is_shown_once == Some(true),
    {
        Self {
            key: owned(key),
            value: owned(value),
            is_build_time: None,
            is_multiline: Some(true),
            is_preview: Some(true),
            is_literal: Some(true),
            is_shown_once: Some(true),
        }
    }
}

/// A flag that is not set counts as set.
pub open spec fn flag_or_true(f: Option<bool>) -> bool {
    match f {
        Some(b) => b,
        None => true,
    }
}

/// `p` is the payload sent for `e`.
pub open spec fn is_payload_of(p: ApplicationEnvPayload, e: ApplicationEnvironmentVariable) -> bool {
    &&& p.key@ == e.key@
    &&& p.value@ == e.value@
    &&& p.is_preview == flag_or_true(e.is_preview)
    &&& p.is_literal == flag_or_true(e.is_literal)
    &&& p.is_multiline == flag_or_true(e.is_multiline)
    &&& p.is_shown_once == flag_or_true(e.is_shown_once)
}

fn flag(f: Option<bool>) -> (r: bool)
    ensures
        r == flag_or_true(f),
{
    match f {
        Some(b) => b,
        None => true,
    }
}

/// The payload that sets the variables of an application: each flag that
/// is not set is sent as `true`.
pub fn env_payloads(envs: &[ApplicationEnvironmentVariable]) -> (r: Vec<ApplicationEnvPayload>)
    ensures
        r@.len() == envs@.len(),
        forall|i: int| 0 <= i < envs@.len() ==> is_payload_of(#[trigger] r@[i], envs@[i]),
{
    let mut out: Vec<ApplicationEnvPayload> = Vec::new();
    let mut i: usize = 0;
    while i < envs.len()
        invariant
            i <= envs@.len(),
            out@.len() == i,
            forall|k: int| 0 <= k < i ==> is_payload_of(#[trigger] out@[k], envs@[k]),
        decreases envs@.len() - i,
    {
        let e = &envs[i];
        out.push(
            ApplicationEnvPayload {
                key: e.key.clone(),
                value: e.value.clone(),
                is_preview: flag(e.is_preview),
                is_literal: flag(e.is_literal),
                is_multiline: flag(e.is_multiline),
                is_shown_once: flag(e.is_shown_once),
            },
        );
        i += 1;
    }
    out
}

/// The request that creates the Coolify project `name`.
pub fn project_request(name: &str) -> (r: CreateProjectRequest)
    ensures
        r.name@ == name@,
        r.description matches Some(d) && d@ == "Auto-created by NCL for "@ + name@,
{
    let mut v: Vec<char> = Vec::new();
    push_str(&mut v, "Auto-created by NCL for ");
    push_str(&mut v, name);
    CreateProjectRequest { name: owned(name), description: Some(string_from_chars(v.as_slice())) }
}

/// The request that creates the environment `name`.
pub fn environment_request(name: &str) -> (r: CreateEnvironmentRequest)
    ensures
        r.name@ == name@,
{
    CreateEnvironmentRequest { name: owned(name) }
}

/// The request that creates an application from a GitHub app: built with
/// Docker Compose from the `HEAD` of the given branch, on the given server
/// (and destination, when one is given).
pub fn application_request(
    project_uuid: &str,
    server_uuid: &str,
    environment_name: &str,
    environment_uuid: &str,
    github_app_uuid: &str,
    git_repository: &str,
    git_branch: &str,
    name: &str,
    docker_compose_location: &str,
    ports_exposes: &str,
    destination_uuid: Option<&str>,
) -> (r: CreateApplicationRequest)
    ensures
        r.project_uuid@ == project_uuid@,
        r.server_uuid matches Some(s) && s@ == server_uuid@,
        match destination_uuid {
            Some(d) => r.destination_uuid matches Some(x) && x@ == d@,
            None => r.destination_uuid is None,
        },
        r.environment_name@ == environment_name@,
        r.environment_uuid@ == environment_uuid@,
        r.github_app_uuid@ == github_app_uuid@,
        r.git_repository@ == git_repository@,
        r.git_branch@ == git_branch@,
        r.git_commit_sha matches Some(s) && s@ == "HEAD"@,
        r.build_pack@ == "dockercompose"@,
        r.name@ == name@,
        r.ports_exposes@ == ports_exposes@,
        r.docker_compose_location matches Some(l) && l@ == docker_compose_location@,
{
    CreateApplicationRequest {
        project_uuid: owned(project_uuid),
        server_uuid: Some(owned(server_uuid)),
        destination_uuid: match destination_uuid {
            Some(d) => Some(owned(d)),
            None => None,
        },
        environment_name: owned(environment_name),
        environment_uuid: owned(environment_uuid),
        github_app_uuid: owned(github_app_uuid),
        git_repository: owned(git_repository),
        git_branch: owned(git_branch),
        git_commit_sha: Some(owned("HEAD")),
        build_pack: owned("dockercompose"),
        name: owned(name),
        ports_exposes: owned(ports_exposes),
        docker_compose_location: Some(owned(docker_compose_location)),
    }
}

/// The identifier of a created resource: its `id`, else its `uuid`.
pub fn pick_identifier(id: Option<String>, uuid: Option<String>) -> (r: Option<String>)
    ensures
        r == match id {
            Some(i) => Some(i),
            None => uuid,
        },
{
    match id {
        Some(i) => Some(i),
        None => uuid,
    }
}

/// The identifiers of the environments called `production` (Coolify's
/// default environment), each by its `id`, else its `uuid`; environments
/// with neither are skipped.
pub open spec fn production_ids(envs: Seq<EnvironmentResponse>) -> Seq<Seq<char>>
    decreases envs.len(),
{
    if envs.len() == 0 {
        Seq::empty()
    } else {
        let rest = production_ids(envs.drop_last());
        let e = envs.last();
        if e.name matches Some(n) && n@ == "production"@ {
            match e.id {
                Some(i) => rest.push(i@),
                None => match e.uuid {
                    Some(u) => rest.push(u@),
                    None => rest,
                },
            }
        } else {
            rest
        }
    }
}

/// The identifiers of Coolify's default `production` environments.
pub fn default_production_environments(envs: &[EnvironmentResponse]) -> (r: Vec<String>)
    ensures
        r@.map_values(|s: String| s@) == production_ids(envs@),
{
    let mut out: Vec<String> = Vec::new();
    let mut i: usize = 0;
    while i < envs.len()
        invariant
            i <= envs@.len(),
            out@.map_values(|s: String| s@) == production_ids(envs@.take(i as int)),
        decreases envs@.len() - i,
    {
        assert(envs@.take(i + 1).drop_last() =~= envs@.take(i as int));
        let e = &envs[i];
        let is_production = match &e.name {
            Some(n) => str_eq(n.as_str(), "production"),
            None => false,
        };
        if is_production {
            let id = pick_identifier(e.id.clone(), e.uuid.clone());
            if let Some(id) = id {
                let ghost before = out@.map_values(|s: String| s@);
                let ghost idv = id@;
                out.push(id);
                assert(out@.map_values(|s: String| s@) =~= before.push(idv));
            }
        }
        i += 1;
    }
    assert(envs@.take(envs@.len() as int) =~= envs@);
    out
}

/// The label of a GitHub app: its name, else its app id, else `Unknown`.
pub open spec fn github_app_label(app: GitHubApp) -> Seq<char> {
    match app.name {
        Some(n) => n@,
        None => match app.app_id {
            Some(id) => "App ID: "@ + decimal(id as nat),
            None => "Unknown"@,
        },
    }
}

/// The label of a server: its name, else `Unknown Server`.
pub open spec fn server_label(server: Server) -> Seq<char> {
    match server.name {
        Some(n) => n@,
        None => "Unknown Server"@,
    }
}

/// The label of a destination: its name, else its type, else
/// `Unknown destination`.
pub open spec fn destination_label(d: Destination) -> Seq<char> {
    match d.name {
        Some(n) => n@,
        None => match d.destination_type {
            Some(t) => t@,
            None => "Unknown destination"@,
        },
    }
}

/// `c` offers the item identified by `uuid` under `label`.
pub open spec fn offers(c: Choice, uuid: Option<String>, label: Seq<char>) -> bool {
    &&& uuid matches Some(u) && c.value@ == u@
    &&& c.label@ == label
}

fn option_text_or(o: &Option<String>, fallback: &str) -> (r: String)
    ensures
        r@ == match *o {
            Some(s) => s@,
            None => fallback@,
        },
{
    match o {
        Some(s) => s.clone(),
        None => owned(fallback),
    }
}

fn app_label(app: &GitHubApp) -> (r: String)
    ensures
        r@ == github_app_label(*app),
{
    match &app.name {
        Some(n) => n.clone(),
        None => match app.app_id {
            Some(id) => {
                let mut v: Vec<char> = Vec::new();
                push_str(&mut v, "App ID: ");
                push_decimal(&mut v, id);
                string_from_chars(v.as_slice())
            },
            None => owned("Unknown"),
        },
    }
}

/// The choices offered when selecting a GitHub app; an empty list and an
/// app without UUID are errors.
pub fn github_app_choices(apps: &[GitHubApp]) -> (r: Result<Vec<Choice>, CoolifyError>)
    ensures
        apps@.len() == 0 ==> r == Err::<Vec<Choice>, CoolifyError>(CoolifyError::NoGitHubApps),
        apps@.len() > 0 && (exists|i: int| 0 <= i < apps@.len() && apps@[i].uuid is None) ==> r
            == Err::<Vec<Choice>, CoolifyError>(CoolifyError::GitHubAppMissingUuid),
        apps@.len() > 0 && (forall|i: int| 0 <= i < apps@.len() ==> apps@[i].uuid is Some) ==> (
        r matches Ok(cs) && cs@.len() == apps@.len() && forall|i: int|
            0 <= i < apps@.len() ==> offers(#[trigger] cs@[i], apps@[i].uuid, github_app_label(
                apps@[i],
            ))),
{
    if apps.len() == 0 {
        return Err(CoolifyError::NoGitHubApps);
    }
    let mut out: Vec<Choice> = Vec::new();
    let mut i: usize = 0;
    while i < apps.len()
        invariant
            i <= apps@.len(),
            out@.len() == i,
            forall|k: int| 0 <= k < i ==> apps@[k].uuid is Some,
            forall|k: int|
                0 <= k < i ==> offers(#[trigger] out@[k], apps@[k].uuid, github_app_label(apps@[k])),
        decreases apps@.len() - i,
    {
        let app = &apps[i];
        let uuid = match &app.uuid {
            Some(u) => u.clone(),
            None => {
                return Err(CoolifyError::GitHubAppMissingUuid);
            },
        };
        out.push(Choice { value: uuid, label: app_label(app) });
        i += 1;
    }
    Ok(out)
}

/// The choices offered when selecting a server; an empty list and a
/// server without UUID are errors.
pub fn server_choices(servers: &[Server]) -> (r: Result<Vec<Choice>, CoolifyError>)
    ensures
        servers@.len() == 0 ==> r == Err::<Vec<Choice>, CoolifyError>(CoolifyError::NoServers),
        servers@.len() > 0 && (exists|i: int| 0 <= i < servers@.len() && servers@[i].uuid is None)
            ==> r == Err::<Vec<Choice>, CoolifyError>(CoolifyError::ServerMissingUuid),
        servers@.len() > 0 && (forall|i: int| 0 <= i < servers@.len() ==> servers@[i].uuid is Some)
            ==> (r matches Ok(cs) && cs@.len() == servers@.len() && forall|i: int|
            0 <= i < servers@.len() ==> offers(#[trigger] cs@[i], servers@[i].uuid, server_label(
                servers@[i],
            ))),
{
    if servers.len() == 0 {
        return Err(CoolifyError::NoServers);
    }
    let mut out: Vec<Choice> = Vec::new();
    let mut i: usize = 0;
    while i < servers.len()
        invariant
            i <= servers@.len(),
            out@.len() == i,
            forall|k: int| 0 <= k < i ==> servers@[k].uuid is Some,
            forall|k: int|
                0 <= k < i ==> offers(#[trigger] out@[k], servers@[k].uuid, server_label(servers@[k])),
        decreases servers@.len() - i,
    {
        let server = &servers[i];
        let uuid = match &server.uuid {
            Some(u) => u.clone(),
            None => {
                return Err(CoolifyError::ServerMissingUuid);
            },
        };
        out.push(Choice { value: uuid, label: option_text_or(&server.name, "Unknown Server") });
        i += 1;
    }
    Ok(out)
}

/// The server has this UUID.
pub open spec fn server_has_uuid(server: Server, uuid: Seq<char>) -> bool {
    server.uuid matches Some(u) && u@ == uuid
}

/// The position of the first server whose UUID is the selected one.
pub fn find_server_index(servers: &[Server], selected_uuid: &str) -> (r: Result<usize, CoolifyError>)
    ensures
        match r {
            Ok(i) => i < servers@.len() && server_has_uuid(servers@[i as int], selected_uuid@) && forall|j: int|
                0 <= j < i ==> !server_has_uuid(servers@[j], selected_uuid@),
            Err(e) => e == CoolifyError::SelectedServerNotFound && forall|j: int|
                0 <= j < servers@.len() ==> !server_has_uuid(servers@[j], selected_uuid@),
        },
{
    let mut i: usize = 0;
    while i < servers.len()
        invariant
            i <= servers@.len(),
            forall|j: int|
                0 <= j < i ==> !server_has_uuid(servers@[j], selected_uuid@),
        decreases servers@.len() - i,
    {
        let hit = match &servers[i].uuid {
            Some(u) => str_eq(u.as_str(), selected_uuid),
            None => false,
        };
        if hit {
            return Ok(i);
        }
        i += 1;
    }
    Err(CoolifyError::SelectedServerNotFound)
}

/// The choices offered when selecting a destination of the server
/// `server_name`; an empty list and a destination without UUID are errors.
pub fn destination_choices(server_name: &str, destinations: &[Destination]) -> (r: Result<
    Vec<Choice>,
    CoolifyError,
>)
    ensures
        destinations@.len() == 0 ==> (r matches Err(CoolifyError::NoDestinations(s)) && s@
            == server_name@),
        destinations@.len() > 0 && (exists|i: int|
            0 <= i < destinations@.len() && destinations@[i].uuid is None) ==> r == Err::<
            Vec<Choice>,
            CoolifyError,
        >(CoolifyError::DestinationMissingUuid),
        destinations@.len() > 0 && (forall|i: int|
            0 <= i < destinations@.len() ==> destinations@[i].uuid is Some) ==> (r matches Ok(cs)
            && cs@.len() == destinations@.len() && forall|i: int|
            0 <= i < destinations@.len() ==> offers(
                #[trigger] cs@[i],
                destinations@[i].uuid,
                destination_label(destinations@[i]),
            )),
{
    if destinations.len() == 0 {
        return Err(CoolifyError::NoDestinations(owned(server_name)));
    }
    let mut out: Vec<Choice> = Vec::new();
    let mut i: usize = 0;
    while i < destinations.len()
        invariant
            i <= destinations@.len(),
            out@.len() == i,
            forall|k: int| 0 <= k < i ==> destinations@[k].uuid is Some,
            forall|k: int|
                0 <= k < i ==> offers(
                    #[trigger] out@[k],
                    destinations@[k].uuid,
                    destination_label(destinations@[k]),
                ),
        decreases destinations@.len() - i,
    {
        let d = &destinations[i];
        let uuid = match &d.uuid {
            Some(u) => u.clone(),
            None => {
                return Err(CoolifyError::DestinationMissingUuid);
            },
        };
        let label = match &d.name {
            Some(n) => n.clone(),
            None => option_text_or(&d.destination_type, "Unknown destination"),
        };
        out.push(Choice { value: uuid, label });
        i += 1;
    }
    Ok(out)
}

/// The address starts with `http://` or `https://`.
pub open spec fn is_http_url(s: Seq<char>) -> bool {
    has_prefix(s, "http://"@) || has_prefix(s, "https://"@)
}

/// Checks an API URL typed by the user. Without a default the URL is
/// required; in every case it must start with `http://` or `https://`.
pub fn validate_api_url(input: &str, has_default: bool) -> (r: Result<(), &'static str>)
    ensures
        !has_default && input@.len() == 0 ==> (r matches Err(m) && m@ == "API URL is required"@),
        (has_default || input@.len() > 0) && !is_http_url(input@) ==> (r matches Err(m) && m@
            == "URL must start with http:// or https://"@),
        (has_default || input@.len() > 0) && is_http_url(input@) ==> r is Ok,
{
    let cv = chars_of(input);
    if !has_default && cv.len() == 0 {
        return Err("API URL is required");
    }
    let http = chars_of("http://");
    let https = chars_of("https://");
    if !starts_with_chars(cv.as_slice(), http.as_slice()) && !starts_with_chars(
        cv.as_slice(),
        https.as_slice(),
    ) {
        Err("URL must start with http:// or https://")
    } else {
        Ok(())
    }
}

/// Checks an API token typed by the user: it is required.
pub fn validate_api_token(input: &str) -> (r: Result<(), &'static str>)
    ensures
        input@.len() == 0 ==> (r matches Err(m) && m@ == "API token is required"@),
        input@.len() > 0 ==> r is Ok,
{
    if input.unicode_len() == 0 {
        Err("API token is required")
    } else {
        Ok(())
    }
}

/// An optional server ID: an empty answer means none.
pub fn optional_server_id(input: String) -> (r: Option<String>)
    ensures
        input@.len() == 0 ==> r is None,
        input@.len() > 0 ==> r == Some(input),
{
    if input.as_str().unicode_len() == 0 {
        None
    } else {
        Some(input)
    }
}

/// What a check of the connection reports for an answer of the API with
/// the given status (its code and its text, such as `404 Not Found`) and
/// body: nothing for a success, the rejection of the token for `401`, the
/// status and body otherwise.
pub fn connection_problem(status_code: u16, status_text: &str, body: &str) -> (r: Option<String>)
    ensures
        200 <= status_code <= 299 ==> r is None,
        status_code == 401 ==> (r matches Some(m) && m@
            == "Coolify API rejected the token (unauthorized)"@),
        !(200 <= status_code <= 299) && status_code != 401 ==> (r matches Some(m) && m@
            == "Coolify API returned "@ + status_text@ + ": "@ + body@),
{
    if 200 <= status_code && status_code <= 299 {
        None
    } else if status_code == 401 {
        Some(owned("Coolify API rejected the token (unauthorized)"))
    } else {
        let mut v: Vec<char> = Vec::new();
        push_str(&mut v, "Coolify API returned ");
        push_str(&mut v, status_text);
        push_str(&mut v, ": ");
        push_str(&mut v, body);
        Some(string_from_chars(v.as_slice()))
    }
}

/// `<endpoint>/api/v1/projects` for an endpoint taken as it is written
/// (the doctor's probe does not drop trailing slashes).
pub fn projects_url_at(endpoint: &str) -> (r: String)
    ensures
        r@ == endpoint@ + "/api/v1/projects"@,
{
    let mut v: Vec<char> = Vec::new();
    push_str(&mut v, endpoint);
    push_str(&mut v, "/api/v1/projects");
    string_from_chars(v.as_slice())
}

/// The value of the `Authorization` header for a token: `Bearer <token>`.
pub fn bearer(token: &str) -> (r: String)
    ensures
        r@ == "Bearer "@ + token@,
{
    let mut v: Vec<char> = Vec::new();
    push_str(&mut v, "Bearer ");
    push_str(&mut v, token);
    string_from_chars(v.as_slice())
}

} // verus!
