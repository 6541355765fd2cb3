//! Configuration for the backend: listen address, frontend origin for CORS,
//! and the secret material that the cookie-signing key is derived from.

use vstd::prelude::*;

verus! {

/// Fewest bytes of secret material that the cookie-signing key accepts.
/// A shorter secret cannot be turned into a signing key.
pub const MIN_SECRET_BYTES: usize = 64;

/// Where the server listens.
pub struct ApplicationSettings {
    /// Host to bind, e.g. an IP address or a name.
    pub host: String,
    /// Port to bind; `0` asks the OS for an ephemeral port.
    pub port: u16,
}

/// Secret material for deriving the cookie-signing key.
pub struct SecretSettings {
    /// The raw secret; its UTF-8 bytes feed the key derivation.
    pub hmac_secret: String,
}

/// Everything startup needs: listen address, secret, and the single
/// frontend origin that the CORS policy admits.
pub struct Settings {
    pub application: ApplicationSettings,
    pub secret: SecretSettings,
    pub frontend_url: String,
}

/// Number of UTF-8 bytes of the configured secret.
pub open spec fn secret_byte_len(s: &Settings) -> nat {
    vstd::utf8::encode_utf8(s.secret.hmac_secret@).len()
}

impl Settings {
    /// A configuration is valid when its secret is long enough to derive
    /// a cookie-signing key from.
    pub open spec fn valid(&self) -> bool {
        secret_byte_len(self) >= MIN_SECRET_BYTES
    }

    /// Decides validity: true exactly when the secret holds at least
    /// `MIN_SECRET_BYTES` bytes.
    pub fn validate(&self) -> (r: bool)
        ensures
            r == self.valid(),
    {
        self.secret.hmac_secret.as_str().as_bytes().len() >= MIN_SECRET_BYTES
    }
}

} // verus!
