//! Where the server listens and what it serves.

use vstd::prelude::*;
use vstd::string::*;

verus! {

/// The environment variable that holds the address to bind.
pub const SITE_ADDR_VAR: &'static str = "SITE_ADDR";

/// The environment variable that holds the asset directory.
pub const DIST_DIR_VAR: &'static str = "DIST_DIR";

/// The server's settings: the address to bind and the asset directory.
/// They are fixed once at startup.
pub struct Env {
    pub site_addr: String,
    pub dist_dir: String,
}

/// The address used when none is given.
pub open spec fn default_site_addr() -> Seq<char> {
    "127.0.0.1:3000"@
}

/// The asset directory used when none is given: the frontend bundle next to
/// the directory `manifest_dir`.
pub open spec fn default_dist_dir(manifest_dir: Seq<char>) -> Seq<char> {
    manifest_dir + "/../frontend/dist"@
}

/// A setting's value: what was given, unless it is missing or empty.
pub open spec fn given_or(given: Option<Seq<char>>, fallback: Seq<char>) -> Seq<char> {
    match given {
        Some(value) => if value.len() > 0 {
            value
        } else {
            fallback
        },
        None => fallback,
    }
}

/// The view of an optional string.
pub open spec fn option_view(value: Option<String>) -> Option<Seq<char>> {
    match value {
        Some(s) => Some(s@),
        None => None,
    }
}

impl Env {
    /// Builds the settings from the two values of the environment, each of
    /// which may be missing. A missing or empty address gives
    /// `127.0.0.1:3000`; a missing or empty directory gives
    /// `<manifest_dir>/../frontend/dist`. Nothing is checked here: a bad
    /// address fails when the listener binds, a bad directory gives
    /// not-found pages.
    pub fn get_or_default(
        site_addr: Option<String>,
        dist_dir: Option<String>,
        manifest_dir: &str,
    ) -> (env: Env)
        ensures
            env.site_addr@ == given_or(option_view(site_addr), default_site_addr()),
            env.dist_dir@ == given_or(
                option_view(dist_dir),
                default_dist_dir(manifest_dir@),
            ),
    {
        let site_addr = match site_addr {
            Some(value) => if value.as_str().is_empty() {
                "127.0.0.1:3000".to_owned()
            } else {
                value
            },
            None => "127.0.0.1:3000".to_owned(),
        };
        let dist_dir = match dist_dir {
            Some(value) => if value.as_str().is_empty() {
                manifest_dir.to_owned().concat("/../frontend/dist")
            } else {
                value
            },
            None => manifest_dir.to_owned().concat("/../frontend/dist"),
        };
        Env { site_addr, dist_dir }
    }
}

} // verus!
