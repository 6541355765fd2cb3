//! The CORS policy the server is assembled with: a single allowed origin
//! taken from configuration, a fixed method set {GET, POST, PATCH, DELETE},
//! a fixed allowed-header set {Authorization, Accept, Content-Type}, one
//! exposed header (Content-Disposition), credentials support, and a one-hour
//! preflight cache.
//!
//! These functions decide what the CORS middleware is configured to decide;
//! the surrounding program hands the same values to the middleware.

use vstd::prelude::*;

use crate::settings::Settings;

verus! {

/// Seconds a preflight answer may be cached.
pub const PREFLIGHT_MAX_AGE_SECS: u32 = 3600;

/// An HTTP request method.
#[derive(Clone, Copy, PartialEq, Eq, Structural, Debug)]
pub enum Method {
    Get,
    Post,
    Patch,
    Delete,
    Put,
    Head,
    Options,
    Trace,
    Connect,
}

/// The CORS policy: one allowed origin, credentials allowed, and a
/// preflight cache age.
#[derive(Clone)]
pub struct CorsPolicy {
    /// The only origin that cross-origin requests may come from.
    pub allowed_origin: String,
    /// Whether credentialed requests (cookies) are admitted.
    pub allow_credentials: bool,
    /// How long a preflight answer may be cached, in seconds.
    pub max_age_secs: u32,
}

/// Whether the policy admits `m` as a cross-origin method.
pub open spec fn spec_method_allowed(m: Method) -> bool {
    m == Method::Get || m == Method::Post || m == Method::Patch || m == Method::Delete
}

/// Whether the policy admits the request header named `h` (lower-case,
/// as header names are canonically written).
pub open spec fn spec_header_allowed(h: Seq<char>) -> bool {
    h == "authorization"@ || h == "accept"@ || h == "content-type"@
}

/// The one response header exposed to cross-origin callers.
pub fn exposed_header() -> (r: &'static str)
    ensures
        r@ == "content-disposition"@,
{
    "content-disposition"
}

/// Builds the CORS policy for a configuration: the configured frontend
/// origin is the single allowed origin, credentials are supported, and
/// preflight answers may be cached for an hour.
pub fn cors_policy(settings: &Settings) -> (p: CorsPolicy)
    ensures
        p.allowed_origin@ == settings.frontend_url@,
        p.allow_credentials,
        p.max_age_secs == PREFLIGHT_MAX_AGE_SECS,
{
    CorsPolicy {
        allowed_origin: settings.frontend_url.clone(),
        allow_credentials: true,
        max_age_secs: PREFLIGHT_MAX_AGE_SECS,
    }
}

impl CorsPolicy {
    /// Whether a request from `origin` is admitted: exactly when it is the
    /// configured origin. A disallowed origin gets no
    /// `Access-Control-Allow-Origin` header at all.
    pub fn origin_allowed(&self, origin: &String) -> (r: bool)
        ensures
            r == (origin@ == self.allowed_origin@),
    {
        *origin == self.allowed_origin
    }

    /// Whether the policy admits `m` as a cross-origin method.
    pub fn method_allowed(&self, m: Method) -> (r: bool)
        ensures
            r == spec_method_allowed(m),
    {
        match m {
            Method::Get => true,
            Method::Post => true,
            Method::Patch => true,
            Method::Delete => true,
            _ => false,
        }
    }

    /// Whether the policy admits the request header named `h`
    /// (lower-case form).
    pub fn header_allowed(&self, h: &String) -> (r: bool)
        ensures
            r == spec_header_allowed(h@),
    {
        let authorization: String = "authorization".to_owned();
        let accept: String = "accept".to_owned();
        let content_type: String = "content-type".to_owned();
        *h == authorization || *h == accept || *h == content_type
    }

    /// Decides a preflight request: admitted exactly when the origin is the
    /// configured one and the method is one of the allowed four. An admitted
    /// preflight is answered with the origin echoed, credentials allowed,
    /// and the policy's cache age; a refused one gets no CORS headers.
    pub fn preflight(&self, origin: &String, m: Method) -> (r: Option<PreflightGrant>)
        ensures
            r is Some <==> origin@ == self.allowed_origin@ && spec_method_allowed(m),
            r matches Some(g) ==> g.allow_origin@ == origin@ && g.allow_credentials
                == self.allow_credentials && g.max_age_secs == self.max_age_secs,
    {
        if self.origin_allowed(origin) && self.method_allowed(m) {
            Some(PreflightGrant {
                allow_origin: origin.clone(),
                allow_credentials: self.allow_credentials,
                max_age_secs: self.max_age_secs,
            })
        } else {
            None
        }
    }
}

impl CorsPolicy {
    /// Decides the CORS headers of an ordinary (non-preflight) response,
    /// whatever the request's method: a request from the configured origin
    /// — and only from it — gets the origin echoed, the credentials flag,
    /// and the exposed header; any other origin gets no CORS headers at
    /// all.
    pub fn response_headers(&self, origin: &String) -> (r: Option<CorsHeaders>)
        ensures
            r is Some <==> origin@ == self.allowed_origin@,
            r matches Some(h) ==> h.allow_origin@ == origin@ && h.allow_credentials
                == self.allow_credentials && h.expose_headers@ == "content-disposition"@,
    {
        if self.origin_allowed(origin) {
            Some(CorsHeaders {
                allow_origin: origin.clone(),
                allow_credentials: self.allow_credentials,
                expose_headers: exposed_header().to_owned(),
            })
        } else {
            None
        }
    }
}

/// The CORS headers of an ordinary response to an admitted origin.
pub struct CorsHeaders {
    /// Echoed origin, for the `Access-Control-Allow-Origin` header.
    pub allow_origin: String,
    /// Whether `Access-Control-Allow-Credentials: true` is sent.
    pub allow_credentials: bool,
    /// Value for `Access-Control-Expose-Headers`.
    pub expose_headers: String,
}

/// What an admitted preflight is answered with.
pub struct PreflightGrant {
    /// Echoed origin, for the `Access-Control-Allow-Origin` header.
    pub allow_origin: String,
    /// Whether `Access-Control-Allow-Credentials: true` is sent.
    pub allow_credentials: bool,
    /// Value for `Access-Control-Max-Age`.
    pub max_age_secs: u32,
}

} // verus!
