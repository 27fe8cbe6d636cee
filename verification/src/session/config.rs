//! What can be set for the session cookie, and the cookie itself.
//!
//! The cookie is described here by plain values. Turning it into a header, and
//! signing or encrypting it with the configured key, is the work of the
//! transport that serves the request.

use cookie::Key;
use cookie::SameSite;
use vstd::prelude::*;

verus! {

/// The key material of the `cookie` crate. It is carried from the
/// configuration to the transport and never looked into.
#[verifier::external_type_specification]
#[verifier::external_body]
pub struct ExKey(cookie::Key);

/// The same-site policies of the `cookie` crate: `Strict`, `Lax` and `None`.
#[verifier::external_type_specification]
pub struct ExSameSite(cookie::SameSite);

/// `Clone` for `cookie::Key`, which the crate derives: the copy is the same
/// key.
pub assume_specification[ <cookie::Key as Clone>::clone ](key: &cookie::Key) -> (copy: cookie::Key)
    ensures
        copy == *key,
;

/// `Clone` for `cookie::SameSite`, which the crate derives for a `Copy` type:
/// the copy is the same policy.
pub assume_specification[ <cookie::SameSite as Clone>::clone ](policy: &cookie::SameSite) -> (copy:
    cookie::SameSite)
    ensures
        copy == *policy,
;

/// The settings of the session cookie.
#[derive(Clone)]
pub struct SessionConfig {
    /// The name of the cookie that carries the session key.
    pub cookie_name: String,
    /// The secret that the transport signs and encrypts the cookie with.
    pub key: Key,
    /// The cookie's same-site policy.
    pub same_site: SameSite,
    /// Whether the cookie is only sent over TLS.
    pub secure: bool,
}

/// The name of the session cookie where none is chosen.
pub open spec fn default_cookie_name() -> Seq<char> {
    "author_session_cookie"@
}

/// Calls `Key::generate`, which fills a key with random bytes.
///
/// The key is random, so nothing is said of it. `Key::generate` panics where
/// the operating system has no randomness to give.
#[verifier::external_body]
fn random_key() -> Key {
    Key::generate()
}

impl SessionConfig {
    /// Settings with every value chosen by the caller.
    pub fn new(cookie_name: &str, key: Key, same_site: SameSite, secure: bool) -> (config: Self)
        ensures
            config.cookie_name@ == cookie_name@,
            config.key == key,
            config.same_site == same_site,
            config.secure == secure,
    {
        SessionConfig { cookie_name: cookie_name.to_owned(), key, same_site, secure }
    }
}

impl Default for SessionConfig {
    /// The default name, a random key, and the strictest cookie: same-site
    /// `Strict`, and sent over TLS only.
    fn default() -> (config: Self)
        ensures
            config.cookie_name@ == default_cookie_name(),
            config.same_site == SameSite::Strict,
            config.secure,
    {
        SessionConfig {
            cookie_name: "author_session_cookie".to_owned(),
            key: random_key(),
            same_site: SameSite::Strict,
            secure: true,
        }
    }
}

/// A cookie that hands a session key to the client.
#[derive(Debug, Clone)]
pub struct SessionCookie {
    /// The cookie's name.
    pub name: String,
    /// The cookie's value: the text of the session key.
    pub value: String,
    /// The cookie's same-site policy.
    pub same_site: SameSite,
    /// Whether the cookie is only sent over TLS.
    pub secure: bool,
    /// Whether the cookie is kept from scripts.
    pub http_only: bool,
    /// The path below which the cookie is sent.
    pub path: String,
}

/// A [`SessionCookie`] as plain values.
pub struct CookieView {
    /// The cookie's name.
    pub name: Seq<char>,
    /// The cookie's value.
    pub value: Seq<char>,
    /// The cookie's same-site policy.
    pub same_site: SameSite,
    /// Whether the cookie is only sent over TLS.
    pub secure: bool,
    /// Whether the cookie is kept from scripts.
    pub http_only: bool,
    /// The path below which the cookie is sent.
    pub path: Seq<char>,
}

impl View for SessionCookie {
    type V = CookieView;

    open spec fn view(&self) -> CookieView {
        CookieView {
            name: self.name@,
            value: self.value@,
            same_site: self.same_site,
            secure: self.secure,
            http_only: self.http_only,
            path: self.path@,
        }
    }
}

/// The cookie that carries `value` under `config`: name, same-site policy and
/// the TLS flag come from the settings; the cookie is always kept from
/// scripts and sent for the whole site.
pub open spec fn session_cookie(config: SessionConfig, value: Seq<char>) -> CookieView {
    CookieView {
        name: config.cookie_name@,
        value,
        same_site: config.same_site,
        secure: config.secure,
        http_only: true,
        path: "/"@,
    }
}

impl SessionCookie {
    /// The cookie that carries `value` under `config`.
    pub fn build(config: &SessionConfig, value: String) -> (cookie: Self)
        ensures
            cookie@ == session_cookie(*config, value@),
    {
        SessionCookie {
            name: config.cookie_name.clone(),
            value,
            same_site: config.same_site,
            secure: config.secure,
            http_only: true,
            path: "/".to_owned(),
        }
    }
}

} // verus!
