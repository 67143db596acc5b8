//! Credentials and tokens for the service and its remote listing API:
//! account credentials (random id, hashed passcode), short-lived login
//! tokens, and the OAuth bearer token used against the listing API. The
//! random source, the digest and the clock are the only outside calls,
//! each behind a small trusted wrapper.

use vstd::prelude::*;

use crate::util::{spec_digits, u64_to_string};
use rand::Rng;
use sha2::Digest;

verus! {

pub type Id = String;

pub type Passcode = String;

/// How long a login token stays valid, in seconds.
pub const AUTH_TOKEN_LIFETIME_SECS: u64 = 300;

/// Bearer tokens are treated as expired this many seconds early.
pub const TOKEN_EXPIRY_MARGIN_SECS: u64 = 10;

/// The hex-formatted SHA-256 digest of a string: 64 lowercase hex digits
/// determined by the input alone.
pub uninterp spec fn sha256_hex_of(s: Seq<char>) -> Seq<char>;

/// Relies on rand's thread rng with the Alphanumeric distribution: `len`
/// characters, each drawn from A-Z, a-z and 0-9.
#[verifier::external_body]
fn random_alphanumeric(len: usize) -> (r: String)
    ensures
        r@.len() == len as nat,
{
    rand::thread_rng().sample_iter(&rand::distributions::Alphanumeric).take(len).map(
        char::from,
    ).collect()
}

/// Relies on sha2's Sha256: the digest, written as 64 lowercase hex
/// digits, depends on the input characters alone.
#[verifier::external_body]
fn sha256_hex(s: &str) -> (r: String)
    ensures
        r@ == sha256_hex_of(s@),
        r@.len() == 64,
{
    let mut hasher = sha2::Sha256::new();
    hasher.update(s.as_bytes());
    format!("{:x}", hasher.finalize())
}

/// Relies on std's SystemTime: the wall clock, as whole seconds since the
/// Unix epoch (0 if the clock reads earlier than the epoch).
#[verifier::external_body]
pub(crate) fn now_epoch_secs() -> u64 {
    match std::time::SystemTime::now().duration_since(std::time::SystemTime::UNIX_EPOCH) {
        Ok(d) => d.as_secs(),
        Err(_) => 0,
    }
}

/// An account's login identity: its public id and the digest of its
/// passcode. The passcode itself is only ever handed out once, at
/// registration.
pub struct Credentials {
    pub id: Id,
    pub passcode: Passcode,
}

impl Credentials {
    /// Fresh credentials: a random 32-character id, and the digest of a
    /// random 32-character passcode. The clear passcode is returned
    /// alongside so it can be shown to the registering client once.
    pub fn new() -> (r: (Credentials, Passcode))
        ensures
            r.0.id@.len() == 32,
            r.1@.len() == 32,
            r.0.passcode@ == sha256_hex_of(r.1@),
    {
        let id: Id = random_alphanumeric(32);
        let passcode_insecure: Passcode = random_alphanumeric(32);
        let hashed_passcode = sha256_hex(passcode_insecure.as_str());
        (Credentials { id, passcode: hashed_passcode }, passcode_insecure)
    }

    /// Whether `passcode` is the one whose digest is `hashed_passcode`.
    pub fn verify_passcode(passcode: &Passcode, hashed_passcode: &Passcode) -> (r: bool)
        ensures
            r == (hashed_passcode@ == sha256_hex_of(passcode@)),
    {
        let hashed_passcode_test = sha256_hex(passcode.as_str());
        *hashed_passcode == hashed_passcode_test
    }
}

/// A short-lived token tying a login attempt to an account id.
pub struct Token {
    pub id: Id,
    pub token: String,
    /// When this token expires, in seconds since the Unix epoch.
    pub expiry: u64,
}

impl Token {
    /// A fresh random token for `id`, expiring a fixed lifetime after
    /// `now`.
    pub fn generate_token_at(id: &Id, now: u64) -> (r: Token)
        requires
            now + AUTH_TOKEN_LIFETIME_SECS <= u64::MAX,
        ensures
            r.id == *id,
            r.token@.len() == 32,
            r.expiry == now + AUTH_TOKEN_LIFETIME_SECS,
    {
        Token {
            id: id.clone(),
            token: random_alphanumeric(32),
            expiry: now + AUTH_TOKEN_LIFETIME_SECS,
        }
    }

    /// A fresh random token for `id`, expiring a fixed lifetime from now.
    pub fn generate_token(id: &Id) -> (r: Token)
        ensures
            r.id == *id,
            r.token@.len() == 32,
    {
        let now = now_epoch_secs();
        if now <= u64::MAX - AUTH_TOKEN_LIFETIME_SECS {
            Token::generate_token_at(id, now)
        } else {
            Token { id: id.clone(), token: random_alphanumeric(32), expiry: u64::MAX }
        }
    }

    /// Whether the token is expired at the given instant.
    pub fn is_expired_at(&self, now: u64) -> (r: bool)
        ensures
            r == (now > self.expiry),
    {
        now > self.expiry
    }

    /// Whether the token has expired, by the wall clock.
    pub fn is_expired(&self) -> bool {
        self.is_expired_at(now_epoch_secs())
    }
}

/// The bearer token for the remote listing API, with its expiry and the
/// refresh token that renews it.
pub struct GoogleAuth {
    /// A bearer token used to access the listing API.
    pub token: String,
    /// When the bearer token expires, in seconds since the Unix epoch.
    pub token_expiry_sec_epoch: u64,
    /// Token used to refresh the bearer token.
    pub refresh_token: String,
}

impl GoogleAuth {
    /// The credential a token exchange produced: the issuer said it lasts
    /// `expires_in_secs` from `now`, and a safety margin is taken off.
    pub fn from_exchange(token: String, refresh_token: String, now: u64, expires_in_secs: u64) -> (r:
        GoogleAuth)
        requires
            expires_in_secs >= TOKEN_EXPIRY_MARGIN_SECS,
            now + expires_in_secs <= u64::MAX,
        ensures
            r.token == token,
            r.refresh_token == refresh_token,
            r.token_expiry_sec_epoch == now + expires_in_secs - TOKEN_EXPIRY_MARGIN_SECS,
    {
        GoogleAuth {
            token,
            token_expiry_sec_epoch: now + (expires_in_secs - TOKEN_EXPIRY_MARGIN_SECS),
            refresh_token,
        }
    }

    /// Whether the bearer token is expired at the given instant.
    pub fn is_expired_at(&self, now: u64) -> (r: bool)
        ensures
            r == (now > self.token_expiry_sec_epoch),
    {
        now > self.token_expiry_sec_epoch
    }

    /// Whether the bearer token has expired, by the wall clock.
    pub fn is_expired(&self) -> bool {
        self.is_expired_at(now_epoch_secs())
    }
}

/// Why a listing scan failed.
#[derive(Debug)]
pub enum ScanningError {
    NoConnection,
    InvalidGoogleAuth,
    NetworkFailure(String),
    InternalFailure(String),
}

impl ScanningError {
    /// The error as an operator-readable message.
    pub fn message(&self) -> (r: String)
        ensures
            r@ == match self {
                ScanningError::NoConnection => "No connection to Google Photos"@,
                ScanningError::InvalidGoogleAuth => "Invalid Google Auth"@,
                ScanningError::NetworkFailure(e) => "Network failure: "@ + e@,
                ScanningError::InternalFailure(m) => "Internal failure: "@ + m@,
            },
    {
        match self {
            ScanningError::NoConnection => "No connection to Google Photos".to_owned(),
            ScanningError::InvalidGoogleAuth => "Invalid Google Auth".to_owned(),
            ScanningError::NetworkFailure(e) => "Network failure: ".to_owned().concat(e.as_str()),
            ScanningError::InternalFailure(m) => "Internal failure: ".to_owned().concat(m.as_str()),
        }
    }
}

/// The request a scan must make: its query pairs and timeout.
pub struct ScanRequest {
    pub query: Vec<(String, String)>,
    pub timeout_ms: u64,
}

/// The remote listing scanner: prepares page requests against the listing
/// API and classifies their outcomes. The transport happens outside.
pub struct PhotoScanner {
    pub timeout_ms: u64,
}

impl PhotoScanner {
    pub fn new() -> (r: Self)
        ensures
            r.timeout_ms == 20000,
    {
        Self { timeout_ms: 20000 }
    }

    /// Prepares one page request: refused outright when the bearer token
    /// is already expired; otherwise the page size and, when continuing,
    /// the page token, with this scanner's timeout.
    pub fn scan_request(&self, auth: &GoogleAuth, now: u64, max_photos: u8, token: Option<String>)
        -> (r: Result<ScanRequest, ScanningError>)
        ensures
            match r {
                Ok(req) => {
                    &&& now <= auth.token_expiry_sec_epoch
                    &&& req.timeout_ms == self.timeout_ms
                    &&& req.query@.len() == (if token is Some {
                        2int
                    } else {
                        1int
                    })
                    &&& req.query@[0].0@ == "pageSize"@
                    &&& req.query@[0].1@ == spec_digits(max_photos as nat)
                    &&& (token matches Some(t) ==> req.query@[1].0@ == "pageToken"@
                        && req.query@[1].1 == t)
                },
                Err(e) => e is InvalidGoogleAuth && now > auth.token_expiry_sec_epoch,
            },
    {
        if auth.is_expired_at(now) {
            return Err(ScanningError::InvalidGoogleAuth);
        }
        let mut query: Vec<(String, String)> = Vec::new();
        query.push(("pageSize".to_owned(), u64_to_string(max_photos as u64)));
        if let Some(page_token) = token {
            query.push(("pageToken".to_owned(), page_token));
        }
        Ok(ScanRequest { query, timeout_ms: self.timeout_ms })
    }

    /// Classifies the transport's verdict on one scan: a response outside
    /// the success range fails the scan with its status line.
    pub fn scan_status(&self, status_success: bool, status_text: String) -> (r: Result<
        (),
        ScanningError,
    >)
        ensures
            match r {
                Ok(()) => status_success,
                Err(e) => !status_success && (e matches ScanningError::InternalFailure(m) && m
                    == status_text),
            },
    {
        if status_success {
            Ok(())
        } else {
            Err(ScanningError::InternalFailure(status_text))
        }
    }
}

} // verus!
