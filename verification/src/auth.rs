//! The request signer: timestamped HMAC-SHA256 signatures and the header
//! set every exchange request carries.
//!
//! The message signed is `timestamp || method || path || body`; the key is
//! the Base64-decoded secret; the signature is the Base64 of the HMAC tag.
//! The cryptography and the calendar arithmetic live in outside crates and
//! are named, not restated: `hmac_sha256_of`, `base64_of`,
//! `base64_decode_of` and `iso8601_utc_of` stand for what those calls
//! return, and everything around them is verified against those names.

use vstd::prelude::*;
use vstd::string::StringExecFns;
use vstd::string::StringSliceAdditionalSpecFns;
use base64::Engine as _;
use crate::errors::ExecError;

verus! {

/// The HMAC-SHA256 tag of a message under a key.
pub uninterp spec fn hmac_sha256_of(key: Seq<u8>, msg: Seq<u8>) -> Seq<u8>;

/// The standard padded Base64 encoding of a byte string.
pub uninterp spec fn base64_of(bytes: Seq<u8>) -> Seq<char>;

/// The standard padded Base64 decoding of a string; `None` where the
/// string is not valid Base64.
pub uninterp spec fn base64_decode_of(s: Seq<char>) -> Option<Seq<u8>>;

/// The ISO-8601 UTC rendering, millisecond precision with a trailing `Z`,
/// of a count of milliseconds since the epoch.
pub uninterp spec fn iso8601_utc_of(ms: u64) -> Seq<char>;

/// Relies on ring's `hmac::Key::new` and `hmac::sign` with `HMAC_SHA256`:
/// the tag is a function of key and message alone, 32 bytes long.
#[verifier::external_body]
fn hmac_sha256(key: &Vec<u8>, msg: &[u8]) -> (r: Vec<u8>)
    ensures
        r@ == hmac_sha256_of(key@, msg@),
        r@.len() == 32,
{
    let k = ring::hmac::Key::new(ring::hmac::HMAC_SHA256, key.as_slice());
    ring::hmac::sign(&k, msg).as_ref().to_vec()
}

/// Relies on base64's `Engine::encode` with the standard padded alphabet:
/// the encoding is a function of the input alone, four characters for
/// every started group of three bytes.
#[verifier::external_body]
fn base64_encode(bytes: &Vec<u8>) -> (r: String)
    requires
        bytes@.len() <= 1_000_000,
    ensures
        r@ == base64_of(bytes@),
        r@.len() == 4 * ((bytes@.len() + 2) / 3),
{
    base64::engine::general_purpose::STANDARD.encode(bytes.as_slice())
}

/// base64's decode error, carried through untouched.
#[verifier::external_type_specification]
#[verifier::external_body]
pub struct ExDecodeError(base64::DecodeError);

/// Relies on base64's `Engine::decode` with the standard padded alphabet:
/// decoding is a function of the input alone, and fails exactly where the
/// input is not well-formed Base64.
#[verifier::external_body]
fn base64_decode(s: &str) -> (r: Result<Vec<u8>, base64::DecodeError>)
    ensures
        match r {
            Ok(v) => base64_decode_of(s@) == Some(v@),
            Err(_) => base64_decode_of(s@) is None,
        },
{
    base64::engine::general_purpose::STANDARD.decode(s.as_bytes())
}

/// Milliseconds after which the calendar rendering is not attempted
/// (midnight, year 10000).
pub const MAX_ISO_MILLIS: u64 = 253_402_300_800_000;

/// Relies on chrono's `DateTime::from_timestamp_millis` and strftime-style
/// `format`: for an in-range count of UTC milliseconds the rendering is a
/// function of that count alone.
#[verifier::external_body]
fn iso8601_from_millis(ms: u64) -> (r: String)
    requires
        ms < MAX_ISO_MILLIS,
    ensures
        r@ == iso8601_utc_of(ms),
{
    let dt = chrono::DateTime::<chrono::Utc>::from_timestamp_millis(ms as i64).unwrap();
    dt.format("%Y-%m-%dT%H:%M:%S%.3fZ").to_string()
}

/// Relies on chrono's `Utc::now`: the wall clock, of which nothing is
/// promised.
#[verifier::external_body]
pub fn now_millis() -> (r: u64)
{
    chrono::Utc::now().timestamp_millis() as u64
}

/// The message whose tag the exchange checks: timestamp, method, path and
/// body, concatenated in that order.
pub open spec fn signing_message(
    ts: Seq<char>,
    method: Seq<char>,
    path: Seq<char>,
    body: Seq<char>,
) -> Seq<char> {
    ts + method + path + body
}

/// The signature of a message under a decoded secret: Base64 of the
/// HMAC-SHA256 tag over the message's UTF-8 bytes.
pub open spec fn signature_of(secret: Seq<u8>, msg: Seq<char>) -> Seq<char> {
    base64_of(hmac_sha256_of(secret, vstd::utf8::encode_utf8(msg)))
}

/// The header set of one signed request.
pub struct SignedHeaders {
    pub access_key: String,
    pub signature: String,
    pub timestamp: String,
    pub passphrase: String,
    pub content_type: String,
}

/// The signer: credentials checked and the secret decoded once, at
/// construction.
pub struct AuthManager {
    pub api_key: String,
    pub passphrase: String,
    secret_b64: String,
    secret_bytes: Vec<u8>,
}

impl AuthManager {
    /// The decoded secret every signature is computed under.
    pub closed spec fn secret(&self) -> Seq<u8> {
        self.secret_bytes@
    }

    /// The access key sent with every request.
    pub closed spec fn spec_api_key(&self) -> Seq<char> {
        self.api_key@
    }

    /// The passphrase sent with every request.
    pub closed spec fn spec_passphrase(&self) -> Seq<char> {
        self.passphrase@
    }

    /// The secret on file decodes to [`AuthManager::secret`], and no
    /// credential is empty.
    pub closed spec fn wf(&self) -> bool {
        &&& base64_decode_of(self.secret_b64@) == Some(self.secret_bytes@)
        &&& self.api_key@.len() > 0
        &&& self.secret_b64@.len() > 0
        &&& self.passphrase@.len() > 0
    }

    /// Builds a signer. Fails with `ConfigError` exactly when a credential
    /// is empty or the secret is not valid Base64.
    pub fn new(api_key: String, secret_key: String, passphrase: String) -> (r: Result<
        AuthManager,
        ExecError,
    >)
        ensures
            match r {
                Ok(am) => {
                    &&& am.wf()
                    &&& am.spec_api_key() == api_key@
                    &&& am.spec_passphrase() == passphrase@
                    &&& base64_decode_of(secret_key@) == Some(am.secret())
                },
                Err(e) => {
                    &&& e is ConfigError
                    &&& (api_key@.len() == 0 || secret_key@.len() == 0 || passphrase@.len() == 0
                        || base64_decode_of(secret_key@) is None)
                },
            },
            (api_key@.len() > 0 && secret_key@.len() > 0 && passphrase@.len() > 0
                && base64_decode_of(secret_key@) is Some) ==> r is Ok,
    {
        if api_key.as_str().is_empty() || secret_key.as_str().is_empty()
            || passphrase.as_str().is_empty() {
            return Err(ExecError::ConfigError);
        }
        let secret_bytes = match base64_decode(secret_key.as_str()) {
            Ok(v) => v,
            Err(_) => {
                return Err(ExecError::ConfigError);
            },
        };
        Ok(AuthManager { api_key, passphrase, secret_b64: secret_key, secret_bytes })
    }

    /// True exactly when the signer holds non-empty credentials — always,
    /// by construction.
    pub fn is_configured(&self) -> (r: bool)
        requires
            self.wf(),
        ensures
            r,
    {
        !self.api_key.as_str().is_empty() && !self.secret_b64.as_str().is_empty()
            && !self.passphrase.as_str().is_empty()
    }

    /// The signature for one request at one timestamp: Base64 of the
    /// HMAC-SHA256 tag of `ts || method || path || body` under the decoded
    /// secret.
    pub fn sign_at(&self, ts: &str, method: &str, path: &str, body: &str) -> (r: String)
        requires
            self.wf(),
        ensures
            r@ == signature_of(self.secret(), signing_message(ts@, method@, path@, body@)),
            r@.len() == 44,
    {
        let mut msg = ts.to_owned();
        msg.append(method);
        msg.append(path);
        msg.append(body);
        let tag = hmac_sha256(&self.secret_bytes, msg.as_str().as_bytes());
        base64_encode(&tag)
    }

    /// The full header set for one request at one timestamp: the same
    /// timestamp string stands in the header and under the signature.
    pub fn signed_headers_at(&self, ts_ms: u64, method: &str, path: &str, body: &str) -> (r:
        SignedHeaders)
        requires
            self.wf(),
            ts_ms < MAX_ISO_MILLIS,
        ensures
            r.access_key@ == self.spec_api_key(),
            r.timestamp@ == iso8601_utc_of(ts_ms),
            r.signature@ == signature_of(
                self.secret(),
                signing_message(iso8601_utc_of(ts_ms), method@, path@, body@),
            ),
            r.passphrase@ == self.spec_passphrase(),
            r.content_type@ == "application/json"@,
    {
        let ts = iso8601_from_millis(ts_ms);
        let signature = self.sign_at(ts.as_str(), method, path, body);
        SignedHeaders {
            access_key: self.api_key.clone(),
            signature,
            timestamp: ts,
            passphrase: self.passphrase.clone(),
            content_type: "application/json".to_owned(),
        }
    }

    /// Signs a request at the current wall clock; the decisions are all in
    /// [`AuthManager::signed_headers_at`].
    pub fn create_signed_headers(&self, method: &str, path: &str, body: &str) -> (r: SignedHeaders)
        requires
            self.wf(),
        ensures
            exists|ts_ms: u64|
                {
                    &&& r.timestamp@ == #[trigger] iso8601_utc_of(ts_ms)
                    &&& r.signature@ == signature_of(
                        self.secret(),
                        signing_message(iso8601_utc_of(ts_ms), method@, path@, body@),
                    )
                },
            r.access_key@ == self.spec_api_key(),
            r.passphrase@ == self.spec_passphrase(),
            r.content_type@ == "application/json"@,
    {
        let now = now_millis();
        let ts_ms = if now < MAX_ISO_MILLIS {
            now
        } else {
            MAX_ISO_MILLIS - 1
        };
        self.signed_headers_at(ts_ms, method, path, body)
    }
}

/// Signing is a function of `(timestamp, method, path, body)` and the
/// secret: equal inputs under equal secrets yield the identical signature.
pub proof fn lemma_signature_deterministic(
    secret1: Seq<u8>,
    secret2: Seq<u8>,
    ts: Seq<char>,
    method: Seq<char>,
    path: Seq<char>,
    body: Seq<char>,
)
    requires
        secret1 == secret2,
    ensures
        signature_of(secret1, signing_message(ts, method, path, body)) == signature_of(
            secret2,
            signing_message(ts, method, path, body),
        ),
{
}

} // verus!
