//! The session-cookie configuration and the cookie-signing key.
//!
//! The cookie the server issues has a fixed name and carries only an opaque
//! session identifier; it is HTTP-only, sent over HTTPS only, and SameSite
//! Lax. The signing key is derived from the configured secret through the
//! cookie library, which demands at least 64 bytes of material.

use vstd::prelude::*;

use crate::settings::MIN_SECRET_BYTES;
use crate::settings::Settings;

verus! {

/// The `SameSite` attribute of a cookie.
#[derive(Clone, Copy, PartialEq, Eq, Structural, Debug)]
pub enum SameSitePolicy {
    Strict,
    Lax,
    /// The cookie is also sent on cross-site requests.
    Unrestricted,
}

/// How the session cookie is issued.
#[derive(Clone)]
pub struct SessionCookieConfig {
    /// Cookie name.
    pub name: String,
    /// Whether the cookie is only sent over HTTPS.
    pub secure: bool,
    /// Whether the cookie is hidden from client-side scripts.
    pub http_only: bool,
    /// The cookie's `SameSite` attribute.
    pub same_site: SameSitePolicy,
}

/// The configuration the server issues session cookies with: named
/// `sessionid`, Secure, HttpOnly, and SameSite Lax.
pub fn session_cookie_config() -> (c: SessionCookieConfig)
    ensures
        c.name@ == "sessionid"@,
        c.secure,
        c.http_only,
        c.same_site == SameSitePolicy::Lax,
{
    SessionCookieConfig {
        name: "sessionid".to_owned(),
        secure: true,
        http_only: true,
        same_site: SameSitePolicy::Lax,
    }
}

/// Declares the cookie library's signing key so it can stand in signatures;
/// its inside stays opaque to verification.
#[verifier::external_type_specification]
#[verifier::external_body]
pub struct ExKey(actix_web::cookie::Key);

/// The key the cookie library derives from the given secret material: a
/// function of the bytes alone.
pub uninterp spec fn key_of(bytes: Seq<u8>) -> actix_web::cookie::Key;

/// Relies on `actix_web::cookie::Key::from` (the `cookie` crate's
/// `Key::from`): given at least 64 bytes it returns the key derived from
/// them — a function of the bytes alone, here named [`key_of`]; given fewer
/// it panics, which the precondition rules out.
#[verifier::external_body]
fn key_from_secret(secret: &[u8]) -> (k: actix_web::cookie::Key)
    requires
        secret@.len() >= 64,
    ensures
        k == key_of(secret@),
{
    actix_web::cookie::Key::from(secret)
}

/// Derives the cookie-signing key from the configured secret: exactly when
/// the secret holds at least `MIN_SECRET_BYTES` bytes, the key derived from
/// the secret's UTF-8 bytes — nothing else ever signs a cookie — and
/// nothing otherwise.
pub fn session_signing_key(settings: &Settings) -> (k: Option<actix_web::cookie::Key>)
    ensures
        k is Some <==> settings.valid(),
        k matches Some(key) ==> key == key_of(
            vstd::utf8::encode_utf8(settings.secret.hmac_secret@),
        ),
{
    let bytes = settings.secret.hmac_secret.as_str().as_bytes();
    if bytes.len() >= MIN_SECRET_BYTES {
        Some(key_from_secret(bytes))
    } else {
        None
    }
}

} // verus!
