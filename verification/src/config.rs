//! The sync client's configuration: where media is staged and stored, the
//! remote service address and credentials, the bandwidth ceiling, and
//! whether the initial scan has completed. Values are loaded from a
//! key-value table (with environment overrides applied by the caller) and
//! written back the same way.

use vstd::prelude::*;

use crate::util::{parse_u64, spec_dec_value, spec_digits, spec_is_digit, u64_to_string};

verus! {

/// Why a configuration could not be assembled from its key-value pairs.
#[derive(Debug)]
pub enum ConfigError {
    MissingStorePath,
    MissingTempPath,
    MissingWebserverAddress,
    MissingPresharedKey,
    InvalidMaxDownloadSpeed,
}

/// The client configuration.
pub struct Config {
    /// Temporary location to store media while downloading.
    pub temp_path: String,
    /// The location to store downloaded media.
    pub store_path: String,
    /// Whether we have been authenticated.
    pub authenticated: bool,
    /// Our id as provided by the remote server.
    pub local_id: Option<String>,
    /// The passcode provided by the remote server.
    pub local_passcode: Option<String>,
    /// The address of the remote server.
    pub webserver_address: String,
    /// The preshared key used to authenticate with the remote server.
    pub preshared_key: String,
    /// Whether we have completed the initial scan for this account yet.
    pub initial_scan_complete: bool,
    /// The maximum number of bytes/sec; 0 means unlimited.
    pub max_download_speed: u64,
}

/// "true" or "false".
fn bool_str(b: bool) -> (r: &'static str)
    ensures
        r@ == if b {
            "true"@
        } else {
            "false"@
        },
{
    if b {
        "true"
    } else {
        "false"
    }
}

/// Whether an optional configuration value spells "true".
fn is_true_value(v: &Option<String>) -> (r: bool)
    ensures
        r == match v {
            Some(s) => s@ == "true"@,
            None => false,
        },
{
    match v {
        Some(s) => {
            let t: String = "true".to_owned();
            *s == t
        },
        None => false,
    }
}

impl Config {
    /// Whether the initial scan over the whole listing has completed.
    pub fn initial_scan_complete(&self) -> (r: bool)
        ensures
            r == self.initial_scan_complete,
    {
        self.initial_scan_complete
    }

    /// Records that the initial scan completed; everything else is kept.
    pub fn set_initial_scan_complete(&mut self)
        ensures
            final(self).initial_scan_complete,
            *final(self) == (Config { initial_scan_complete: true, ..*old(self) }),
    {
        self.initial_scan_complete = true;
    }

    /// Whether the client still has to register with the remote service.
    pub fn needs_registration(&self) -> (r: bool)
        ensures
            r == (self.local_id is None),
    {
        match &self.local_id {
            Some(_) => false,
            None => true,
        }
    }

    /// Stores the identity the remote service issued at registration.
    pub fn apply_registration(&mut self, id: String, passcode: String)
        ensures
            *final(self) == (Config {
                local_id: Some(id),
                local_passcode: Some(passcode),
                ..*old(self)
            }),
    {
        self.local_id = Some(id);
        self.local_passcode = Some(passcode);
    }

    /// Whether the account still has to complete authentication.
    pub fn needs_authentication(&self) -> (r: bool)
        ensures
            r == !self.authenticated,
    {
        !self.authenticated
    }

    /// Records that the user completed authentication.
    pub fn mark_authenticated(&mut self)
        ensures
            *final(self) == (Config { authenticated: true, ..*old(self) }),
    {
        self.authenticated = true;
    }

    /// The registration endpoint.
    pub fn register_url(&self) -> (r: String)
        ensures
            r@ == self.webserver_address@ + "/register"@,
    {
        self.webserver_address.clone().concat("/register")
    }

    /// The endpoint that hands out the authentication address.
    pub fn auth_url_endpoint(&self) -> (r: String)
        ensures
            r@ == self.webserver_address@ + "/auth_url"@,
    {
        self.webserver_address.clone().concat("/auth_url")
    }

    /// The endpoint polled until the user finished authenticating.
    pub fn login_check_url(&self) -> (r: String)
        ensures
            r@ == self.webserver_address@ + "/is_logged_in"@,
    {
        self.webserver_address.clone().concat("/is_logged_in")
    }

    /// The listing endpoint for one page request: whether to re-fetch the
    /// previous page, and how many items to return at most.
    pub fn media_items_url(&self, reload: bool, max_count: u64) -> (r: String)
        ensures
            r@ == self.webserver_address@ + "/download?reload="@ + (if reload {
                "true"@
            } else {
                "false"@
            }) + "&max_count="@ + spec_digits(max_count as nat),
    {
        let count = u64_to_string(max_count);
        self.webserver_address.clone().concat("/download?reload=").concat(bool_str(reload)).concat(
            "&max_count=",
        ).concat(count.as_str())
    }

    /// Assembles a configuration from the stored key-value pairs, after
    /// the caller has applied any environment overrides. The paths, the
    /// service address and the preshared key must be present; the flags
    /// default to false, the speed ceiling to unlimited. A speed value
    /// that is not a decimal number is rejected.
    pub fn from_pairs(
        store_path: Option<String>,
        temp_path: Option<String>,
        authenticated: Option<String>,
        local_id: Option<String>,
        local_passcode: Option<String>,
        webserver_address: Option<String>,
        preshared_key: Option<String>,
        initial_scan_complete: Option<String>,
        max_download_speed: Option<String>,
    ) -> (r: Result<Config, ConfigError>)
        ensures
            match r {
                Ok(c) => {
                    &&& store_path matches Some(sp) && c.store_path == sp
                    &&& temp_path matches Some(tp) && c.temp_path == tp
                    &&& webserver_address matches Some(wa) && c.webserver_address == wa
                    &&& preshared_key matches Some(pk) && c.preshared_key == pk
                    &&& c.authenticated == (authenticated matches Some(a) && a@ == "true"@)
                    &&& c.initial_scan_complete == (initial_scan_complete matches Some(s) && s@
                        == "true"@)
                    &&& c.local_id == local_id
                    &&& c.local_passcode == local_passcode
                    &&& match max_download_speed {
                        Some(m) => c.max_download_speed as nat == spec_dec_value(m@),
                        None => c.max_download_speed == 0,
                    }
                },
                Err(e) => match e {
                    ConfigError::MissingStorePath => store_path is None,
                    ConfigError::MissingTempPath => temp_path is None,
                    ConfigError::MissingWebserverAddress => webserver_address is None,
                    ConfigError::MissingPresharedKey => preshared_key is None,
                    ConfigError::InvalidMaxDownloadSpeed => max_download_speed matches Some(m) && !(
                    m@.len() > 0 && forall|k: int|
                        0 <= k < m@.len() ==> spec_is_digit(#[trigger] m@[k]) && spec_dec_value(m@)
                            <= u64::MAX),
                },
            },
            r is Err <==> (store_path is None || temp_path is None || webserver_address is None
                || preshared_key is None || (max_download_speed matches Some(m) && !(m@.len() > 0
                && (forall|k: int| 0 <= k < m@.len() ==> spec_is_digit(#[trigger] m@[k]))
                && spec_dec_value(m@) <= u64::MAX))),
    {
        let store_path = match store_path {
            Some(s) => s,
            None => {
                return Err(ConfigError::MissingStorePath);
            },
        };
        let temp_path = match temp_path {
            Some(s) => s,
            None => {
                return Err(ConfigError::MissingTempPath);
            },
        };
        let webserver_address = match webserver_address {
            Some(s) => s,
            None => {
                return Err(ConfigError::MissingWebserverAddress);
            },
        };
        let preshared_key = match preshared_key {
            Some(s) => s,
            None => {
                return Err(ConfigError::MissingPresharedKey);
            },
        };
        let auth_flag = is_true_value(&authenticated);
        let scan_flag = is_true_value(&initial_scan_complete);
        let speed: u64 = match &max_download_speed {
            Some(m) => match parse_u64(m.as_str()) {
                Some(v) => v,
                None => {
                    return Err(ConfigError::InvalidMaxDownloadSpeed);
                },
            },
            None => 0,
        };
        Ok(
            Config {
                temp_path,
                store_path,
                authenticated: auth_flag,
                local_id,
                local_passcode,
                webserver_address,
                preshared_key,
                initial_scan_complete: scan_flag,
                max_download_speed: speed,
            },
        )
    }

    /// The key-value pairs written back to the configuration table: the
    /// store path, the flags and the service identity; the registration
    /// credentials only once they exist.
    pub fn to_pairs(&self) -> (r: Vec<(String, String)>)
        ensures
            r@.len() == 5 + (if self.local_id is Some {
                1int
            } else {
                0int
            }) + (if self.local_passcode is Some {
                1int
            } else {
                0int
            }),
            r@[0].0@ == "store_path"@ && r@[0].1 == self.store_path,
            r@[1].0@ == "authenticated"@ && r@[1].1@ == (if self.authenticated {
                "true"@
            } else {
                "false"@
            }),
            r@[2].0@ == "webserver_address"@ && r@[2].1 == self.webserver_address,
            r@[3].0@ == "preshared_key"@ && r@[3].1 == self.preshared_key,
            r@[4].0@ == "initial_scan_complete"@ && r@[4].1@ == (if self.initial_scan_complete {
                "true"@
            } else {
                "false"@
            }),
            self.local_id is Some ==> r@[5].0@ == "local_id"@ && Some(r@[5].1) == self.local_id,
            (self.local_id is None && self.local_passcode is Some) ==> r@[5].0@
                == "local_passcode"@ && Some(r@[5].1) == self.local_passcode,
            (self.local_id is Some && self.local_passcode is Some) ==> r@[6].0@
                == "local_passcode"@ && Some(r@[6].1) == self.local_passcode,
    {
        let mut r: Vec<(String, String)> = Vec::new();
        r.push(("store_path".to_owned(), self.store_path.clone()));
        r.push(("authenticated".to_owned(), bool_str(self.authenticated).to_owned()));
        r.push(("webserver_address".to_owned(), self.webserver_address.clone()));
        r.push(("preshared_key".to_owned(), self.preshared_key.clone()));
        r.push(("initial_scan_complete".to_owned(), bool_str(self.initial_scan_complete).to_owned()));
        if let Some(id) = &self.local_id {
            r.push(("local_id".to_owned(), id.clone()));
        }
        if let Some(pc) = &self.local_passcode {
            r.push(("local_passcode".to_owned(), pc.clone()));
        }
        r
    }
}

} // verus!
