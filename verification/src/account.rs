//! Account-side types: the session view of a user, registrations waiting
//! to complete, the user profiles the OAuth providers hand back, the
//! application's configuration, and the role check.

use vstd::prelude::*;
use vstd::string::{StrSliceExecFns, StringExecFns};
use crate::text::str_eq;

verus! {

/// The authenticated user as stored in the session.
pub struct SessionUser {
    pub id: i64,
    pub login_id: String,
    pub display_name: Option<String>,
    pub email: Option<String>,
    pub profile_image_url: Option<String>,
    pub oauth_provider: String,
    pub role: String,
}

/// A password registration awaiting profile completion.
pub struct PendingRegistration {
    pub login_id: String,
    pub password_hash: String,
}

/// An OAuth registration awaiting profile completion.
pub struct PendingOAuthRegistration {
    pub provider: String,
    pub oauth_id: String,
    pub email: Option<String>,
    pub name: Option<String>,
    pub profile_image_url: Option<String>,
}

/// The user profile GitHub's API hands back.
pub struct GitHubUserInfo {
    pub id: i64,
    pub login: String,
    pub name: Option<String>,
    pub email: Option<String>,
    pub avatar_url: Option<String>,
}

/// The user profile Google's API hands back.
pub struct GoogleUserInfo {
    pub sub: String,
    pub email: Option<String>,
    pub name: Option<String>,
    pub picture: Option<String>,
    pub email_verified: Option<bool>,
}

/// The user profile Microsoft's API hands back.
pub struct MicrosoftUserInfo {
    pub id: String,
    pub display_name: Option<String>,
    pub mail: Option<String>,
    pub user_principal_name: Option<String>,
}

/// The application's configuration as read at startup.
pub struct AppConfig {
    pub host: String,
    pub port: u16,
    pub database_url: String,
    pub session_secret: String,
    pub google_maps_api_key: String,
    pub google_client_id: String,
    pub google_client_secret: String,
    pub google_redirect_uri: String,
    pub github_client_id: String,
    pub github_client_secret: String,
    pub github_redirect_uri: String,
    pub microsoft_client_id: String,
    pub microsoft_client_secret: String,
    pub microsoft_redirect_uri: String,
    pub frontend_url: String,
    pub discord_webhook_url: String,
}

/// The HTTP basic-authentication gate that can shield a deployment.
pub struct BasicAuth;

impl BasicAuth {
    /// A fresh gate.
    pub fn new() -> (r: BasicAuth) {
        BasicAuth
    }
}

/// A string with every trailing slash removed.
pub open spec fn spec_strip_trailing_slashes(s: Seq<char>) -> Seq<char>
    decreases s.len(),
{
    if s.len() > 0 && s.last() == '/' {
        spec_strip_trailing_slashes(s.drop_last())
    } else {
        s
    }
}

/// Keeping the first `k` characters strips exactly the trailing slashes
/// when everything from `k` on is a slash and the character before `k`,
/// if any, is not.
proof fn lemma_strip_prefix(s: Seq<char>, k: int)
    requires
        0 <= k <= s.len(),
        forall|j: int| k <= j < s.len() ==> s[j] == '/',
        k > 0 ==> s[k - 1] != '/',
    ensures
        spec_strip_trailing_slashes(s) == s.subrange(0, k),
    decreases s.len(),
{
    if k == s.len() {
        assert(s.subrange(0, k) =~= s);
    } else {
        assert(s.last() == '/');
        lemma_strip_prefix(s.drop_last(), k);
        assert(s.drop_last().subrange(0, k) =~= s.subrange(0, k));
    }
}

/// The absolute form of a redirect path: the configured frontend origin,
/// shorn of trailing slashes, glued to the path; with no configured
/// frontend the path stands alone.
pub fn get_redirect_url(config: &AppConfig, path: &str) -> (r: String)
    ensures
        config.frontend_url@.len() == 0 ==> r@ == path@,
        config.frontend_url@.len() > 0 ==> r@ == spec_strip_trailing_slashes(
            config.frontend_url@,
        ) + path@,
{
    let base: &str = config.frontend_url.as_str();
    if base.is_empty() {
        return path.to_owned();
    }
    let n: usize = base.unicode_len();
    let mut k: usize = n;
    while k > 0 && base.get_char(k - 1) == '/'
        invariant
            0 <= k <= n,
            n == base@.len(),
            forall|j: int| k <= j < n ==> base@[j] == '/',
        decreases k,
    {
        k = k - 1;
    }
    proof {
        lemma_strip_prefix(base@, k as int);
    }
    let head: &str = base.substring_char(0, k);
    head.to_owned().concat(path)
}

/// Whether the session's user holds the administrator role.
pub fn is_admin(user: &SessionUser) -> (r: bool)
    ensures
        r == (user.role@ == "ADMIN"@),
{
    str_eq(user.role.as_str(), "ADMIN")
}

} // verus!
