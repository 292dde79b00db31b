//! The configuration values the core consumes, and the startup error
//! reported when they could not be loaded.
//!
//! Reading and parsing the configuration file is an external collaborator's
//! job; the core only receives the outcome of that load at startup.

use vstd::prelude::*;

verus! {

use vstd::string::StringExecFns;

/// The local user, as configured: only the display name is consumed by the
/// core (it becomes the `from` field of locally authored messages).
pub struct User {
    pub name: String,
}

/// Loaded configuration, read-only after startup.
pub struct Config {
    pub user: User,
}

/// Startup failure: the configuration file was missing, unreadable or
/// malformed. Carries the path that was attempted so the report can name it.
#[derive(Debug)]
pub struct ConfigLoadError {
    pub path: String,
}

impl ConfigLoadError {
    /// A diagnostic line naming the attempted path.
    pub fn describe(&self) -> (r: String)
        ensures
            r@ == "failed to read config from: "@ + self.path@,
    {
        let mut r = "failed to read config from: ".to_owned();
        r.append(self.path.as_str());
        r
    }
}

} // verus!
