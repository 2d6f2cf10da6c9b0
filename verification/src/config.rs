//! The app-wide configuration as the verified core sees it: a read-only
//! value the host program loads and hands into each operation.

use vstd::prelude::*;

use crate::user::User;

verus! {

/// The configuration for the app.
#[derive(Debug, Clone)]
pub struct Config {
    /// The name of the site.
    pub name: String,
    /// Whether the powered-by footer is shown.
    pub powered_by: bool,
    /// Whether the site is served over https (behind a reverse proxy).
    pub https: bool,
    /// The domain for accessing and viewing uploads.
    pub domain: String,
    /// The domain for uploads, where it differs from `domain`.
    pub upload_domain: Option<String>,
    /// The shared secret granting upload rights; an all-access pass.
    pub upload_token: String,
    /// The users that have access to the files.
    pub users: Vec<User>,
}

} // verus!
