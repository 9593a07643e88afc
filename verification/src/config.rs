//! The global configuration (`config.toml` in the tool's configuration
//! directory) and the per-project configuration (`.ncl/config.toml`).
//!
//! Reading and writing the files is left to the application; this module
//! holds the configuration's content, its tokens, and the migration of
//! legacy fields.
use vstd::prelude::*;

use crate::assoc::{get_entry, insert_entry, lookup, take_entry, unique_keys};
use crate::keyring::{accounts, is_get_answer, is_set_answer, Keyring, KeyringError};
use crate::text::owned;

verus! {

/// GitHub configuration defaults
#[derive(Debug, Clone, Default)]
pub struct GitHubDefaults {
    /// Stored GitHub personal access token
    pub token: Option<String>,
    /// Default organization/owner to use (if empty, uses personal)
    pub owner: Option<String>,
    /// Default repository visibility
    pub repo_visibility: Option<String>,
}

/// Coolify configuration defaults (global)
#[derive(Debug, Clone, Default)]
pub struct CoolifyDefaults {
    /// Coolify API endpoint
    pub api_endpoint: Option<String>,
    /// Coolify API token
    pub token: Option<String>,
    /// Last known production environment identifier
    pub environment_prod_id: Option<String>,
    /// Last known development environment identifier
    pub environment_dev_id: Option<String>,
}

/// Project-level Coolify configuration
#[derive(Debug, Clone, Default)]
pub struct ProjectCoolifyConfig {
    /// Coolify project ID (created during scaffolding)
    pub project_id: Option<String>,
    /// Coolify API endpoint (copied from global defaults)
    pub api_endpoint: Option<String>,
    /// Server ID used for this project
    pub server_id: Option<String>,
    /// Webhook URL for dev environment
    pub webhook_dev: Option<String>,
    /// Webhook URL for prod environment
    pub webhook_prod: Option<String>,
}

/// Project-level configuration stored in .ncl/config.toml
#[derive(Debug, Clone, Default)]
pub struct ProjectConfig {
    /// Coolify project configuration
    pub coolify: ProjectCoolifyConfig,
    /// GitHub repository URL
    pub github_repo_url: Option<String>,
    /// GitHub repository owner (user or org)
    pub github_repo_owner: Option<String>,
    /// GitHub repository name
    pub github_repo_name: Option<String>,
}

/// Global NCL configuration stored in config directory
#[derive(Debug, Clone, Default)]
pub struct NclConfig {
    /// Skip GitHub integration during project initialization
    pub skip_github: bool,
    /// Skip Trello integration (future feature)
    pub skip_trello: bool,
    /// Skip Coolify CI/CD setup (future feature)
    pub skip_coolify: bool,
    /// Default preferences for project initialization, one entry per key
    pub defaults: Vec<(String, String)>,
    /// GitHub defaults
    pub github: GitHubDefaults,
    /// Coolify defaults
    pub coolify: CoolifyDefaults,
}

/// `new` is `old` with the GitHub token replaced by `token`.
pub open spec fn with_github_token(old: NclConfig, new: NclConfig, token: Option<String>) -> bool {
    &&& new.github.token == token
    &&& new.github.owner == old.github.owner
    &&& new.github.repo_visibility == old.github.repo_visibility
    &&& new.coolify == old.coolify
    &&& new.defaults == old.defaults
    &&& new.skip_github == old.skip_github
    &&& new.skip_trello == old.skip_trello
    &&& new.skip_coolify == old.skip_coolify
}

/// `new` is `old` with the Coolify token replaced by `token`.
pub open spec fn with_coolify_token(old: NclConfig, new: NclConfig, token: Option<String>) -> bool {
    &&& new.coolify.token == token
    &&& new.coolify.api_endpoint == old.coolify.api_endpoint
    &&& new.coolify.environment_prod_id == old.coolify.environment_prod_id
    &&& new.coolify.environment_dev_id == old.coolify.environment_dev_id
    &&& new.github == old.github
    &&& new.defaults == old.defaults
    &&& new.skip_github == old.skip_github
    &&& new.skip_trello == old.skip_trello
    &&& new.skip_coolify == old.skip_coolify
}

/// The answer to a token request: the token kept in the configuration
/// when there is one, otherwise whatever the keyring gave (a failure of the
/// keyring counts as no token).
pub open spec fn token_answer(
    configured: Option<String>,
    from_keyring: Result<Option<String>, KeyringError>,
) -> Option<String> {
    match configured {
        Some(t) => Some(t),
        None => match from_keyring {
            Ok(t) => t,
            Err(_) => None,
        },
    }
}

/// Chooses a token: the configured one first, the keyring's otherwise.
pub fn resolve_token(configured: &Option<String>, from_keyring: Result<Option<String>, KeyringError>) -> (r: Option<String>)
    ensures
        r == token_answer(*configured, from_keyring),
{
    match configured {
        Some(t) => Some(t.clone()),
        None => match from_keyring {
            Ok(t) => t,
            Err(_) => None,
        },
    }
}

/// Keeps the keyring entry of `account` in step with `token`: stores the
/// token, or clears the entry when there is none. Failures are not
/// reported, as the configuration file keeps the token anyway.
fn mirror_in_keyring(account: &str, token: &Option<String>) {
    match token {
        Some(value) => {
            let _ = Keyring::set(account, value.as_str());
        },
        None => {
            let _ = Keyring::delete(account);
        },
    }
}

impl NclConfig {
    /// Get the GitHub token: the one kept in the configuration, else the
    /// one stored in the keyring (a keyring failure counts as no token).
    pub fn get_github_token(&self) -> (r: Result<Option<String>, KeyringError>)
        ensures
            r is Ok,
            exists|from_keyring: Result<Option<String>, KeyringError>|
                r == Ok::<Option<String>, KeyringError>(token_answer(self.github.token, from_keyring)),
            self.github.token is Some ==> r == Ok::<Option<String>, KeyringError>(self.github.token),
            self.github.token is None ==> (r matches Ok(Some(t)) ==> t@.len() > 0),
    {
        if self.github.token.is_some() {
            let r = resolve_token(&self.github.token, Ok(None));
            assert(r == token_answer(self.github.token, Ok(None)));
            return Ok(r);
        }
        let from_keyring = Keyring::get(accounts::GITHUB_TOKEN);
        let r = resolve_token(&self.github.token, from_keyring);
        assert(r == token_answer(self.github.token, from_keyring));
        Ok(r)
    }

    /// Set the GitHub token in the configuration and mirror it in the
    /// keyring. Writing the configuration file is the caller's part.
    pub fn set_github_token(&mut self, token: Option<String>)
        ensures
            with_github_token(*old(self), *final(self), token),
    {
        mirror_in_keyring(accounts::GITHUB_TOKEN, &token);
        self.github.token = token;
    }

    /// Get the Coolify token: the one kept in the configuration, else the
    /// one stored in the keyring (a keyring failure counts as no token).
    pub fn get_coolify_token(&self) -> (r: Result<Option<String>, KeyringError>)
        ensures
            r is Ok,
            exists|from_keyring: Result<Option<String>, KeyringError>|
                r == Ok::<Option<String>, KeyringError>(token_answer(self.coolify.token, from_keyring)),
            self.coolify.token is Some ==> r == Ok::<Option<String>, KeyringError>(self.coolify.token),
            self.coolify.token is None ==> (r matches Ok(Some(t)) ==> t@.len() > 0),
    {
        if self.coolify.token.is_some() {
            let r = resolve_token(&self.coolify.token, Ok(None));
            assert(r == token_answer(self.coolify.token, Ok(None)));
            return Ok(r);
        }
        let from_keyring = Keyring::get(accounts::COOLIFY_TOKEN);
        let r = resolve_token(&self.coolify.token, from_keyring);
        assert(r == token_answer(self.coolify.token, from_keyring));
        Ok(r)
    }

    /// Set the Coolify token in the configuration and mirror it in the
    /// keyring. Writing the configuration file is the caller's part.
    pub fn set_coolify_token(&mut self, token: Option<String>)
        ensures
            with_coolify_token(*old(self), *final(self), token),
    {
        mirror_in_keyring(accounts::COOLIFY_TOKEN, &token);
        self.coolify.token = token;
    }

    /// Get registry credentials from keyring: the user and the token, when
    /// both are stored.
    pub fn get_registry_credentials(&self) -> (r: Result<Option<(String, String)>, KeyringError>)
        ensures
            exists|user: Result<Option<String>, KeyringError>, token: Result<Option<String>, KeyringError>|
                #![trigger is_get_answer(user), is_get_answer(token)]
                is_get_answer(user) && is_get_answer(token) && r == registry_answer(user, token),
            r matches Ok(Some((u, t))) ==> u@.len() > 0 && t@.len() > 0,
    {
        let user = Keyring::get(accounts::REGISTRY_USER);
        proof {
            assert(is_get_answer(user));
            assert(is_get_answer(Err::<Option<String>, KeyringError>(KeyringError::Access)));
        }
        let u = match user {
            Ok(u) => u,
            Err(e) => {
                return Err(e);
            },
        };
        let token = Keyring::get(accounts::REGISTRY_TOKEN);
        proof {
            assert(is_get_answer(token));
        }
        let t = match token {
            Ok(t) => t,
            Err(e) => {
                return Err(e);
            },
        };
        Ok(pair_credentials(u, t))
    }

    /// Set registry credentials in keyring: each given value is stored,
    /// each missing one is cleared (clearing never fails the call).
    pub fn set_registry_credentials(&mut self, user: Option<String>, token: Option<String>) -> (r:
        Result<(), KeyringError>)
        ensures
            *final(self) == *old(self),
            exists|user_write: Result<(), KeyringError>, token_write: Result<(), KeyringError>|
                #![trigger is_set_answer(user_write), is_set_answer(token_write)]
                is_set_answer(user_write) && is_set_answer(token_write) && r
                    == registry_write_answer(user, token, user_write, token_write),
            r is Err ==> user is Some || token is Some,
    {
        proof {
            assert(is_set_answer(Ok::<(), KeyringError>(())));
        }
        match &user {
            Some(u) => {
                let w = Keyring::set(accounts::REGISTRY_USER, u.as_str());
                proof {
                    assert(is_set_answer(w));
                }
                if let Err(e) = w {
                    return Err(e);
                }
            },
            None => {
                let _ = Keyring::delete(accounts::REGISTRY_USER);
            },
        }
        match &token {
            Some(t) => {
                let w = Keyring::set(accounts::REGISTRY_TOKEN, t.as_str());
                proof {
                    assert(is_set_answer(w));
                }
                if let Err(e) = w {
                    return Err(e);
                }
            },
            None => {
                let _ = Keyring::delete(accounts::REGISTRY_TOKEN);
            },
        }
        Ok(())
    }
}

/// A GitHub token set in the configuration is the token read back, whatever
/// the keyring holds.
pub proof fn lemma_github_token_roundtrip(
    before: NclConfig,
    after: NclConfig,
    token: String,
    from_keyring: Result<Option<String>, KeyringError>,
)
    requires
        with_github_token(before, after, Some(token)),
    ensures
        token_answer(after.github.token, from_keyring) == Some(token),
{
}

/// A Coolify token set in the configuration is the token read back,
/// whatever the keyring holds.
pub proof fn lemma_coolify_token_roundtrip(
    before: NclConfig,
    after: NclConfig,
    token: String,
    from_keyring: Result<Option<String>, KeyringError>,
)
    requires
        with_coolify_token(before, after, Some(token)),
    ensures
        token_answer(after.coolify.token, from_keyring) == Some(token),
{
}

/// The registry credentials for the answers of the keyring to the reads of
/// the user and of the token: the first failure, else the pair when both
/// are stored.
pub open spec fn registry_answer(
    user: Result<Option<String>, KeyringError>,
    token: Result<Option<String>, KeyringError>,
) -> Result<Option<(String, String)>, KeyringError> {
    match user {
        Err(e) => Err(e),
        Ok(u) => match token {
            Err(e) => Err(e),
            Ok(t) => Ok(
                match (u, t) {
                    (Some(u), Some(t)) => Some((u, t)),
                    _ => None,
                },
            ),
        },
    }
}

/// The outcome of storing registry credentials, given the keyring's
/// answers to the writes of the user and of the token: a given value that
/// the keyring refused fails the call (the user is written first), a
/// missing value is cleared, which never fails.
pub open spec fn registry_write_answer(
    user: Option<String>,
    token: Option<String>,
    user_write: Result<(), KeyringError>,
    token_write: Result<(), KeyringError>,
) -> Result<(), KeyringError> {
    if user is Some && user_write is Err {
        user_write
    } else if token is Some {
        token_write
    } else {
        Ok(())
    }
}

/// Registry credentials exist only when both halves are stored.
pub fn pair_credentials(user: Option<String>, token: Option<String>) -> (r: Option<(String, String)>)
    ensures
        r == match (user, token) {
            (Some(u), Some(t)) => Some((u, t)),
            _ => None,
        },
{
    match (user, token) {
        (Some(u), Some(t)) => Some((u, t)),
        _ => None,
    }
}

/// A TOML value as the configuration migration sees it. Floats and dates
/// are carried through as their TOML text.
#[derive(Debug)]
pub enum TomlValue {
    String(String),
    Integer(i64),
    Boolean(bool),
    Array(Vec<TomlValue>),
    Table(Vec<(String, TomlValue)>),
    Other(String),
}

/// The entries of a table (none for any other value).
pub open spec fn table_entries(v: TomlValue) -> Seq<(String, TomlValue)> {
    match v {
        TomlValue::Table(t) => t@,
        _ => Seq::empty(),
    }
}

/// The value is a string with these characters.
pub open spec fn is_string_value(v: TomlValue, s: Seq<char>) -> bool {
    v matches TomlValue::String(x) && x@ == s
}

/// The legacy top-level `github_token` is a string that can move into the
/// `github` table (which is missing, or a table).
pub open spec fn github_token_moves(t: Seq<(String, TomlValue)>) -> bool {
    &&& lookup(t, "github_token"@) matches Some(TomlValue::String(_))
    &&& match lookup(t, "github"@) {
        None => true,
        Some(TomlValue::Table(_)) => true,
        Some(_) => false,
    }
}

/// The `coolify` table holds the legacy `api_token` key.
pub open spec fn coolify_has_api_token(t: Seq<(String, TomlValue)>) -> bool {
    lookup(t, "coolify"@) matches Some(TomlValue::Table(c)) && lookup(c@, "api_token"@) is Some
}

/// The configuration still holds a legacy field.
pub open spec fn needs_migration(v: TomlValue) -> bool {
    v matches TomlValue::Table(t) && (lookup(t@, "github_token"@) is Some || coolify_has_api_token(
        t@,
    ))
}

/// The keys that the migration touches.
pub open spec fn is_migrated_key(k: Seq<char>) -> bool {
    k == "github_token"@ || k == "github"@ || k == "coolify"@
}

/// Top-level table and the `github` and `coolify` tables hold each key once.
pub open spec fn well_formed_config_value(v: TomlValue) -> bool {
    v matches TomlValue::Table(t) ==> {
        &&& unique_keys(t@)
        &&& (lookup(t@, "github"@) matches Some(TomlValue::Table(g)) ==> unique_keys(g@))
        &&& (lookup(t@, "coolify"@) matches Some(TomlValue::Table(c)) ==> unique_keys(c@))
    }
}

/// The `github` table after the migration when the legacy token `tok`
/// moves into it: `token` is the legacy token, other keys are kept.
pub open spec fn github_after(old_github: Option<TomlValue>, new_github: Option<TomlValue>, tok: Seq<char>) -> bool {
    let before = match old_github {
        Some(TomlValue::Table(g)) => g@,
        _ => Seq::empty(),
    };
    &&& new_github matches Some(TomlValue::Table(g2))
    &&& unique_keys(g2@)
    &&& lookup(g2@, "token"@) matches Some(v) && is_string_value(v, tok)
    &&& forall|k: Seq<char>| k != "token"@ ==> lookup(g2@, k) == lookup(before, k)
}

/// The `coolify` table after the migration: `api_token` is gone, and its
/// value became `token` unless a `token` was already there.
pub open spec fn coolify_after(c: Seq<(String, TomlValue)>, new_coolify: Option<TomlValue>) -> bool {
    &&& new_coolify matches Some(TomlValue::Table(c2))
    &&& unique_keys(c2@)
    &&& lookup(c2@, "api_token"@) is None
    &&& lookup(c2@, "token"@) == (if lookup(c, "token"@) is Some {
        lookup(c, "token"@)
    } else {
        lookup(c, "api_token"@)
    })
    &&& forall|k: Seq<char>| k != "token"@ && k != "api_token"@ ==> lookup(c2@, k) == lookup(c, k)
}

/// `new` holds what `old` holds: the same entries for a table, the same
/// value otherwise.
pub open spec fn same_content(old: TomlValue, new: TomlValue) -> bool {
    match old {
        TomlValue::Table(t) => new matches TomlValue::Table(t2) && t2@ == t@,
        _ => new == old,
    }
}

/// `new` is the migration of `old`, which reported `migrated`:
/// - a top-level string `github_token` moves to `github.token` (the `github`
///   table is created when missing); a `github_token` of another kind, or
///   one that cannot move because `github` is not a table, is dropped;
/// - `coolify.api_token` moves to `coolify.token` unless that is already set;
/// - the report says whether a token moved or `api_token` was removed;
/// - a value that needs no migration is left exactly as it was.
pub open spec fn migrated(old: TomlValue, new: TomlValue, migrated: bool) -> bool {
    &&& well_formed_config_value(new)
    &&& !needs_migration(new)
    &&& (!needs_migration(old) ==> same_content(old, new) && !migrated)
    &&& match old {
        TomlValue::Table(t) => {
            &&& new matches TomlValue::Table(t2)
            &&& migrated == (github_token_moves(t@) || coolify_has_api_token(t@))
            &&& forall|k: Seq<char>| !is_migrated_key(k) ==> lookup(t2@, k) == lookup(t@, k)
            &&& if github_token_moves(t@) {
                lookup(t@, "github_token"@) matches Some(TomlValue::String(tok)) && github_after(
                    lookup(t@, "github"@),
                    lookup(t2@, "github"@),
                    tok@,
                )
            } else {
                lookup(t2@, "github"@) == lookup(t@, "github"@)
            }
            &&& if coolify_has_api_token(t@) {
                lookup(t@, "coolify"@) matches Some(TomlValue::Table(c)) && coolify_after(
                    c@,
                    lookup(t2@, "coolify"@),
                )
            } else {
                lookup(t2@, "coolify"@) == lookup(t@, "coolify"@)
            }
        },
        _ => new == old && !migrated,
    }
}

/// The keys that the migration handles are all different.
proof fn lemma_migration_keys_distinct()
    ensures
        "github_token"@ != "github"@,
        "github_token"@ != "coolify"@,
        "github"@ != "coolify"@,
        "token"@ != "api_token"@,
{
    reveal_strlit("github_token");
    reveal_strlit("github");
    reveal_strlit("coolify");
    reveal_strlit("token");
    reveal_strlit("api_token");
    assert("github_token"@.len() != "github"@.len());
    assert("github_token"@.len() != "coolify"@.len());
    assert("github"@.len() != "coolify"@.len());
    assert("token"@.len() != "api_token"@.len());
}

/// Moves a legacy string token into the `github` table. `t` holds no
/// `github_token` any more.
fn move_github_token(t: &mut Vec<(String, TomlValue)>, tok: String) -> (moved: bool)
    requires
        unique_keys(old(t)@),
        lookup(old(t)@, "github_token"@) is None,
        lookup(old(t)@, "github"@) matches Some(TomlValue::Table(g)) ==> unique_keys(g@),
    ensures
        unique_keys(final(t)@),
        lookup(final(t)@, "github_token"@) is None,
        moved == match lookup(old(t)@, "github"@) {
            None => true,
            Some(TomlValue::Table(_)) => true,
            Some(_) => false,
        },
        moved ==> github_after(lookup(old(t)@, "github"@), lookup(final(t)@, "github"@), tok@),
        !moved ==> final(t)@ == old(t)@,
        forall|k: Seq<char>| k != "github"@ ==> lookup(final(t)@, k) == lookup(old(t)@, k),
{
    let ghost before = t@;
    proof {
        lemma_migration_keys_distinct();
    }
    let is_table = match get_entry(t, "github") {
        None => true,
        Some(TomlValue::Table(_)) => true,
        Some(_) => false,
    };
    if !is_table {
        return false;
    }
    let mut github: Vec<(String, TomlValue)> = match take_entry(t, "github") {
        Some(TomlValue::Table(g)) => g,
        _ => Vec::new(),
    };
    let ghost old_github = github@;
    insert_entry(&mut github, owned("token"), TomlValue::String(tok));
    insert_entry(t, owned("github"), TomlValue::Table(github));
    proof {
        assert(forall|k: Seq<char>| k != "token"@ ==> lookup(github@, k) == lookup(old_github, k));
        assert(old_github == match lookup(before, "github"@) {
            Some(TomlValue::Table(g)) => g@,
            _ => Seq::<(String, TomlValue)>::empty(),
        });
    }
    true
}

/// Moves `coolify.api_token` to `coolify.token` (unless `token` is set).
fn move_coolify_api_token(t: &mut Vec<(String, TomlValue)>)
    requires
        unique_keys(old(t)@),
        coolify_has_api_token(old(t)@),
        lookup(old(t)@, "coolify"@) matches Some(TomlValue::Table(c)) ==> unique_keys(c@),
    ensures
        unique_keys(final(t)@),
        lookup(old(t)@, "coolify"@) matches Some(TomlValue::Table(c)) && coolify_after(
            c@,
            lookup(final(t)@, "coolify"@),
        ),
        forall|k: Seq<char>| k != "coolify"@ ==> lookup(final(t)@, k) == lookup(old(t)@, k),
{
    proof {
        lemma_migration_keys_distinct();
    }
    let mut coolify: Vec<(String, TomlValue)> = match take_entry(t, "coolify") {
        Some(TomlValue::Table(c)) => c,
        _ => Vec::new(),
    };
    let ghost c = coolify@;
    let api = take_entry(&mut coolify, "api_token");
    if let Some(api_token) = api {
        if get_entry(&coolify, "token").is_none() {
            insert_entry(&mut coolify, owned("token"), api_token);
        }
    }
    insert_entry(t, owned("coolify"), TomlValue::Table(coolify));
}

/// Migrates legacy fields of the global configuration, and reports whether
/// anything moved: the top-level `github_token` becomes `github.token`, and
/// `coolify.api_token` becomes `coolify.token`.
pub fn migrate_legacy_fields(value: &mut TomlValue) -> (r: bool)
    requires
        well_formed_config_value(*old(value)),
    ensures
        migrated(*old(value), *final(value), r),
{
    let ghost original = *value;
    proof {
        lemma_migration_keys_distinct();
    }
    let mut migrated_any = false;
    let ghost mut t_final: Seq<(String, TomlValue)> = Seq::empty();
    if let TomlValue::Table(t) = value {
        let ghost t0 = t@;
        let mut token_moved = false;
        if let Some(legacy) = take_entry(t, "github_token") {
            if let TomlValue::String(tok) = legacy {
                token_moved = move_github_token(t, tok);
            }
        }
        let ghost t1 = t@;
        assert(token_moved == github_token_moves(t0));
        assert(lookup(t1, "coolify"@) == lookup(t0, "coolify"@));
        assert(lookup(t1, "github_token"@) is None);
        assert(forall|k: Seq<char>| !is_migrated_key(k) ==> lookup(t1, k) == lookup(t0, k));
        assert(!token_moved ==> lookup(t1, "github"@) == lookup(t0, "github"@));
        assert(lookup(t0, "github_token"@) is None ==> t1 == t0);
        let has_api_token = match get_entry(t, "coolify") {
            Some(TomlValue::Table(c)) => get_entry(c, "api_token").is_some(),
            _ => false,
        };
        assert(has_api_token == coolify_has_api_token(t1));
        if has_api_token {
            move_coolify_api_token(t);
        }
        migrated_any = token_moved || has_api_token;
        let ghost t2 = t@;
        assert(!has_api_token ==> t2 == t1);
        assert(lookup(t2, "github"@) == lookup(t1, "github"@));
        assert(lookup(t2, "github_token"@) is None);
        assert(forall|k: Seq<char>| !is_migrated_key(k) ==> lookup(t2, k) == lookup(t0, k));
        assert(!coolify_has_api_token(t2));
        proof {
            t_final = t2;
        }
    }
    proof {
        if original is Table {
            assert(*value is Table && table_entries(*value) == t_final);
            assert(well_formed_config_value(*value));
            assert(!needs_migration(*value));
        }
    }
    migrated_any
}

/// Migration is done once: whatever a first migration leaves needs no
/// further migration, and migrating it again changes nothing and reports
/// that nothing moved.
pub proof fn lemma_migration_idempotent(
    v0: TomlValue,
    v1: TomlValue,
    first: bool,
    v2: TomlValue,
    second: bool,
)
    requires
        migrated(v0, v1, first),
        migrated(v1, v2, second),
    ensures
        !needs_migration(v1),
        same_content(v1, v2),
        !second,
{
}

/// Makes `toml::Value`, a parsed TOML document, known to the verifier as an
/// opaque type; nothing is claimed of it.
#[verifier::external_type_specification]
#[verifier::external_body]
pub struct ExTomlValue(::toml::Value);

/// What `toml::from_str::<toml::Value>` makes of a text, carried over into
/// `TomlValue` variant by variant (`None` when the text is not TOML).
pub uninterp spec fn toml_parse(text: Seq<char>) -> Option<TomlValue>;

/// Carries a parsed TOML value over into `TomlValue`, one variant into its
/// namesake; floats and dates keep their TOML text.
#[verifier::external_body]
fn toml_model(v: &::toml::Value) -> TomlValue {
    match v {
        ::toml::Value::String(s) => TomlValue::String(s.clone()),
        ::toml::Value::Integer(i) => TomlValue::Integer(*i),
        ::toml::Value::Boolean(b) => TomlValue::Boolean(*b),
        ::toml::Value::Array(a) => TomlValue::Array(a.iter().map(toml_model).collect()),
        ::toml::Value::Table(t) => TomlValue::Table(
            t.iter().map(|(k, x)| (k.clone(), toml_model(x))).collect(),
        ),
        other => TomlValue::Other(other.to_string()),
    }
}

/// Calls `toml::from_str::<toml::Value>` on the text and carries the value
/// over into `TomlValue`; the contract names the result. A TOML table is a
/// map, so each table of the result holds each key once.
#[verifier::external_body]
fn parse_toml_text(text: &str) -> (r: Result<TomlValue, String>)
    ensures
        match r {
            Ok(v) => toml_parse(text@) == Some(v) && well_formed_config_value(v),
            Err(_) => toml_parse(text@) is None,
        },
{
    ::toml::from_str::<::toml::Value>(text).map(|v| toml_model(&v)).map_err(|e| e.to_string())
}

/// Parses the text of the global configuration and migrates its legacy
/// fields: the migrated value and whether anything moved, or the parser's
/// error when the text is not TOML.
pub fn migrate_config_text(text: &str) -> (r: Result<(TomlValue, bool), String>)
    ensures
        match toml_parse(text@) {
            Some(v) => well_formed_config_value(v) && (r matches Ok((m, b)) && migrated(v, m, b)),
            None => r is Err,
        },
{
    let mut value = match parse_toml_text(text) {
        Ok(v) => v,
        Err(e) => {
            return Err(e);
        },
    };
    let moved = migrate_legacy_fields(&mut value);
    Ok((value, moved))
}

} // verus!
