//! Project scaffolding and task tooling: parsing of hook commands, template
//! handling, configuration migration, CI workflow generation and the
//! decisions behind the integrations with GitHub, Coolify and the keyring.
pub mod text;
pub mod execution;
pub mod assoc;
pub mod check;
pub mod common;
pub mod templates;
pub mod keyring;
pub mod config;
pub mod coolify;
pub mod cicd;
pub mod task;
pub mod github;
pub mod scaffold;
pub mod init;
pub mod cleanup;
pub mod doctor;
pub mod git;
