//! Account names for different secrets
use vstd::prelude::*;

verus! {

pub const GITHUB_TOKEN: &'static str = "github_token";

pub const COOLIFY_TOKEN: &'static str = "coolify_token";

pub const REGISTRY_TOKEN: &'static str = "registry_token";

pub const REGISTRY_USER: &'static str = "registry_user";

} // verus!
