use startup::session::SameSitePolicy;
use startup::session::session_cookie_config;
use startup::session::session_signing_key;
use startup::settings::ApplicationSettings;
use startup::settings::SecretSettings;
use startup::settings::Settings;

fn settings_with_secret(secret: &str) -> Settings {
    Settings {
        application: ApplicationSettings { host: "127.0.0.1".to_string(), port: 8000 },
        secret: SecretSettings { hmac_secret: secret.to_string() },
        frontend_url: "https://app.example.com".to_string(),
    }
}

#[test]
fn session_cookie_is_secure_http_only_and_same_site_lax() {
    let c = session_cookie_config();
    assert_eq!(c.name, "sessionid".to_string());
    assert!(c.secure);
    assert!(c.http_only);
    assert_eq!(c.same_site, SameSitePolicy::Lax);
}

#[test]
fn a_64_byte_secret_yields_a_signing_key() {
    let s = settings_with_secret(
        "0123456789abcdef0123456789abcdef0123456789abcdef0123456789abcdef",
    );
    assert!(s.validate());
    assert!(session_signing_key(&s).is_some());
}

#[test]
fn a_63_byte_secret_yields_no_signing_key() {
    let s = settings_with_secret(
        "0123456789abcdef0123456789abcdef0123456789abcdef0123456789abcde",
    );
    assert!(!s.validate());
    assert!(session_signing_key(&s).is_none());
}

#[test]
fn secret_length_counts_utf8_bytes_not_characters() {
    // 32 two-byte characters: 64 bytes, enough for a key.
    let s = settings_with_secret(&"é".repeat(32));
    assert!(s.validate());
    assert!(session_signing_key(&s).is_some());

    // 32 one-byte characters: 32 bytes, not enough.
    let s = settings_with_secret(&"e".repeat(32));
    assert!(!s.validate());
    assert!(session_signing_key(&s).is_none());
}

#[test]
fn the_key_keeps_the_first_64_bytes_of_a_longer_secret() {
    // 80 bytes of secret: the key library derives the key from the first 64
    // bytes, so the key's master material is neither the whole secret nor
    // anything else.
    let secret =
        "0123456789abcdef0123456789abcdef0123456789abcdef0123456789abcdef0123456789ABCDEF";
    let s = settings_with_secret(secret);
    let key = session_signing_key(&s).expect("valid secret");
    assert_eq!(key.master().len(), 64);
    assert_eq!(
        key.master(),
        "0123456789abcdef0123456789abcdef0123456789abcdef0123456789abcdef".as_bytes()
    );
    assert_ne!(key.master(), secret.as_bytes());
}

#[test]
fn the_key_is_derived_from_the_secret_not_random() {
    let s = settings_with_secret(
        "0123456789abcdef0123456789abcdef0123456789abcdef0123456789abcdef",
    );
    let a = session_signing_key(&s).expect("valid secret");
    let b = session_signing_key(&s).expect("valid secret");
    assert_eq!(a.master(), b.master());
    assert_eq!(
        a.master(),
        "0123456789abcdef0123456789abcdef0123456789abcdef0123456789abcdef".as_bytes()
    );
}
