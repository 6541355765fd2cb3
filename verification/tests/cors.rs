use startup::cors::Method;
use startup::cors::cors_policy;
use startup::cors::exposed_header;
use startup::settings::ApplicationSettings;
use startup::settings::SecretSettings;
use startup::settings::Settings;

fn settings() -> Settings {
    Settings {
        application: ApplicationSettings { host: "127.0.0.1".to_string(), port: 8000 },
        secret: SecretSettings {
            hmac_secret: "0123456789abcdef0123456789abcdef0123456789abcdef0123456789abcdef"
                .to_string(),
        },
        frontend_url: "https://app.example.com".to_string(),
    }
}

#[test]
fn policy_takes_origin_credentials_and_cache_age_from_configuration() {
    let p = cors_policy(&settings());
    assert_eq!(p.allowed_origin, "https://app.example.com".to_string());
    assert!(p.allow_credentials);
    assert_eq!(p.max_age_secs, 3600);
}

#[test]
fn configured_origin_is_allowed() {
    let p = cors_policy(&settings());
    assert!(p.origin_allowed(&"https://app.example.com".to_string()));
}

#[test]
fn other_origins_are_rejected() {
    let p = cors_policy(&settings());
    assert!(!p.origin_allowed(&"https://evil.example.com".to_string()));
    assert!(!p.origin_allowed(&"https://app.example.com:8443".to_string()));
    assert!(!p.origin_allowed(&"".to_string()));
}

#[test]
fn exactly_the_four_methods_are_allowed() {
    let p = cors_policy(&settings());
    assert!(p.method_allowed(Method::Get));
    assert!(p.method_allowed(Method::Post));
    assert!(p.method_allowed(Method::Patch));
    assert!(p.method_allowed(Method::Delete));
    assert!(!p.method_allowed(Method::Put));
    assert!(!p.method_allowed(Method::Head));
    assert!(!p.method_allowed(Method::Options));
    assert!(!p.method_allowed(Method::Trace));
    assert!(!p.method_allowed(Method::Connect));
}

#[test]
fn exactly_the_three_request_headers_are_allowed() {
    let p = cors_policy(&settings());
    assert!(p.header_allowed(&"authorization".to_string()));
    assert!(p.header_allowed(&"accept".to_string()));
    assert!(p.header_allowed(&"content-type".to_string()));
    assert!(!p.header_allowed(&"cookie".to_string()));
    assert!(!p.header_allowed(&"x-forwarded-for".to_string()));
}

#[test]
fn content_disposition_is_exposed() {
    assert_eq!(exposed_header(), "content-disposition");
}

#[test]
fn responses_to_the_frontend_origin_carry_cors_headers_for_any_method() {
    let p = cors_policy(&settings());
    let h = p
        .response_headers(&"https://app.example.com".to_string())
        .expect("the configured origin gets CORS headers");
    assert_eq!(h.allow_origin, "https://app.example.com".to_string());
    assert!(h.allow_credentials);
    assert_eq!(h.expose_headers, "content-disposition".to_string());
}

#[test]
fn responses_to_other_origins_carry_no_cors_headers() {
    let p = cors_policy(&settings());
    assert!(p.response_headers(&"https://evil.example.com".to_string()).is_none());
    assert!(p.response_headers(&"".to_string()).is_none());
}

#[test]
fn preflight_from_frontend_origin_is_granted_with_credentials() {
    let p = cors_policy(&settings());
    let grant = p.preflight(&"https://app.example.com".to_string(), Method::Get);
    let g = grant.expect("preflight from the configured origin must be granted");
    assert_eq!(g.allow_origin, "https://app.example.com".to_string());
    assert!(g.allow_credentials);
    assert_eq!(g.max_age_secs, 3600);
}

#[test]
fn preflight_from_disallowed_origin_gets_no_cors_headers() {
    let p = cors_policy(&settings());
    assert!(p.preflight(&"https://evil.example.com".to_string(), Method::Get).is_none());
}

#[test]
fn preflight_with_disallowed_method_is_refused() {
    let p = cors_policy(&settings());
    assert!(p.preflight(&"https://app.example.com".to_string(), Method::Put).is_none());
}
