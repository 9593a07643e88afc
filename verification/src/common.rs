//! Types shared by the template and environment-check modules.
use vstd::prelude::*;

verus! {

/// Represents a dependency requirement for a template
#[derive(Debug, PartialEq, Eq)]
pub struct Dependency {
    pub name: String,
    pub check: String,
    pub install_hint: String,
}

impl Clone for Dependency {
    fn clone(&self) -> (r: Self)
        ensures
            r == *self,
    {
        Dependency {
            name: self.name.clone(),
            check: self.check.clone(),
            install_hint: self.install_hint.clone(),
        }
    }
}

impl Default for Dependency {
    fn default() -> (r: Self)
        ensures
            r.name@.len() == 0,
            r.check@.len() == 0,
            r.install_hint@.len() == 0,
    {
        Self { name: String::new(), check: String::new(), install_hint: String::new() }
    }
}

} // verus!
