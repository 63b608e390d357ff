//! The client's state (credentials, token, device snapshot) and the
//! decisions of each polling cycle. The caller performs the HTTP requests and
//! hands their outcome to `get_token` and `get_devices`.
use vstd::prelude::*;
use crate::expiry::{renewal_due, renewal_due_of, DataError};
use crate::model::{Device, DevicesResponse, Token};
use crate::readings::{device_lines, temperature_lines, texts};

verus! {

/// Seconds between two polling cycles unless the caller sets another value.
pub const DEFAULT_POLLING_INTERVAL: u64 = 30;

/// A credential missing at construction: a configuration error that halts
/// start-up.
#[derive(Debug, Clone, Copy, PartialEq, Eq, Structural)]
pub enum ConfigError {
    /// `DANFOSS_API_KEY` is not set.
    MissingApiKey,
    /// `DANFOSS_API_SECRET` is not set.
    MissingApiSecret,
}

/// The failure of one request within a polling cycle; the cycle goes on
/// with the state held before.
#[derive(Debug, Clone, PartialEq)]
pub enum CallError {
    /// The request could not be sent or its reply not received.
    Network(String),
    /// A status other than success, or a body that does not decode.
    Protocol(String),
    /// A token reply whose `access_token` is empty.
    EmptyAccessToken,
}

impl ConfigError {
    /// The message that names the missing credential.
    pub fn message(&self) -> (r: String)
        ensures
            r@ == match self {
                ConfigError::MissingApiKey => "No Danfoss API key provided. Please set DANFOSS_API_KEY environment variable."@,
                ConfigError::MissingApiSecret => "No Danfoss API secret provided. Please set DANFOSS_API_SECRET environment variable."@,
            },
    {
        match self {
            ConfigError::MissingApiKey => String::from_str(
                "No Danfoss API key provided. Please set DANFOSS_API_KEY environment variable.",
            ),
            ConfigError::MissingApiSecret => String::from_str(
                "No Danfoss API secret provided. Please set DANFOSS_API_SECRET environment variable.",
            ),
        }
    }
}

/// All that the client holds between requests. Times are seconds on one
/// monotonic clock of the caller's choosing.
#[derive(Debug)]
pub struct AllyApi {
    /// The device snapshot of the most recent successful fetch.
    pub devices: Vec<Device>,
    /// The token of the most recent successful renewal.
    pub token: Token,
    /// Moment of the most recent successful device fetch (or of construction).
    pub time_since_update: u64,
    /// Moment of the most recent successful token renewal (or of construction).
    pub time_since_token_renewal: u64,
    /// Seconds between two polling cycles.
    pub polling_interval: u64,
    /// The API key; set once at construction.
    pub api_key: String,
    /// The API secret; set once at construction.
    pub api_secret: String,
}

impl AllyApi {
    /// The state of a client just built at `created` from `key` and `secret`:
    /// no devices, an empty token whose lifetime reads `0`, the default
    /// polling interval.
    pub open spec fn is_fresh(&self, key: Seq<char>, secret: Seq<char>, created: u64) -> bool {
        &&& self.api_key@ == key
        &&& self.api_secret@ == secret
        &&& self.devices@.len() == 0
        &&& self.token.access_token@.len() == 0
        &&& self.token.token_type@.len() == 0
        &&& self.token.expires_in@ == seq!['0']
        &&& self.time_since_update == created
        &&& self.time_since_token_renewal == created
        &&& self.polling_interval == DEFAULT_POLLING_INTERVAL
    }

    /// Builds a client at `now` from the credentials found in the
    /// environment. A missing key is reported before a missing secret; no
    /// request is made.
    pub fn new(api_key: Option<String>, api_secret: Option<String>, now: u64) -> (r: Result<
        AllyApi,
        ConfigError,
    >)
        ensures
            api_key is None ==> r == Err::<AllyApi, ConfigError>(ConfigError::MissingApiKey),
            api_key is Some && api_secret is None ==> r == Err::<AllyApi, ConfigError>(
                ConfigError::MissingApiSecret,
            ),
            api_key is Some && api_secret is Some ==> r is Ok && r->Ok_0.is_fresh(
                api_key->Some_0@,
                api_secret->Some_0@,
                now,
            ),
    {
        let api_key = match api_key {
            Some(k) => k,
            None => return Err(ConfigError::MissingApiKey),
        };
        let api_secret = match api_secret {
            Some(s) => s,
            None => return Err(ConfigError::MissingApiSecret),
        };
        let expires_in = String::from_str("0");
        proof {
            reveal_strlit("0");
            assert(expires_in@ =~= seq!['0']);
        }
        Ok(AllyApi {
            devices: Vec::new(),
            token: Token { access_token: String::new(), token_type: String::new(), expires_in },
            time_since_update: now,
            time_since_token_renewal: now,
            polling_interval: DEFAULT_POLLING_INTERVAL,
            api_key,
            api_secret,
        })
    }

    /// The `Authorization` header of the token request.
    pub fn token_authorization(&self) -> (r: String)
        ensures
            r@ == crate::auth::basic_header_for(self.api_key@, self.api_secret@),
    {
        crate::auth::basic_credentials(self.api_key.as_str(), self.api_secret.as_str())
    }

    /// The `Authorization` header of the device request.
    pub fn devices_authorization(&self) -> (r: String)
        ensures
            r@ == crate::auth::bearer_header_of(self.token.access_token@),
    {
        crate::auth::bearer_authorization(self.token.access_token.as_str())
    }

    /// Completes a token renewal with the outcome of the token request,
    /// received at `now`. A token with a non-empty `access_token` replaces
    /// the held one whole and restarts its lifetime; any failure, and a reply
    /// with an empty `access_token`, leaves the client as it was.
    pub fn get_token(&mut self, reply: Result<Token, CallError>, now: u64) -> (r: Result<
        (),
        CallError,
    >)
        ensures
            match reply {
                Ok(t) => if t.access_token@.len() > 0 {
                    &&& r is Ok
                    &&& *final(self) == (AllyApi {
                        token: t,
                        time_since_token_renewal: now,
                        ..*old(self)
                    })
                } else {
                    &&& r == Err::<(), CallError>(CallError::EmptyAccessToken)
                    &&& *final(self) == *old(self)
                },
                Err(e) => {
                    &&& r == Err::<(), CallError>(e)
                    &&& *final(self) == *old(self)
                },
            },
    {
        match reply {
            Ok(t) => {
                if t.access_token.unicode_len() == 0 {
                    Err(CallError::EmptyAccessToken)
                } else {
                    self.token = t;
                    self.time_since_token_renewal = now;
                    Ok(())
                }
            },
            Err(e) => Err(e),
        }
    }

    /// Completes a device fetch with the outcome of the device request,
    /// received at `now`. A reply replaces the snapshot whole; a failure
    /// leaves the client as it was.
    pub fn get_devices(&mut self, reply: Result<DevicesResponse, CallError>, now: u64) -> (r:
        Result<(), CallError>)
        ensures
            match reply {
                Ok(resp) => {
                    &&& r is Ok
                    &&& *final(self) == (AllyApi {
                        devices: resp.result,
                        time_since_update: now,
                        ..*old(self)
                    })
                },
                Err(e) => {
                    &&& r == Err::<(), CallError>(e)
                    &&& *final(self) == *old(self)
                },
            },
    {
        match reply {
            Ok(resp) => {
                self.devices = resp.result;
                self.time_since_update = now;
                Ok(())
            },
            Err(e) => Err(e),
        }
    }

    /// Whether the held token is due for renewal at `now`: the seconds since
    /// its renewal have reached its `expires_in`. A lifetime that is not a
    /// number of seconds is reported as `DataError::InvalidExpiresIn`.
    pub fn is_renewal_due(&self, now: u64) -> (r: Result<bool, DataError>)
        ensures
            r == renewal_due_of(self.token.expires_in@, self.time_since_token_renewal, now),
    {
        renewal_due(self.token.expires_in.as_str(), self.time_since_token_renewal, now)
    }

    /// The current-temperature lines of the snapshot, `<name>: <value>`,
    /// one per device and status whose code names a current temperature.
    pub fn temperature_lines(&self) -> (r: Vec<String>)
        ensures
            texts(r@) == device_lines(self.devices@),
    {
        temperature_lines(&self.devices)
    }

    /// The polling cycle's choice: renew when the token is due, and also
    /// when its lifetime cannot be read, since a fresh token replaces it.
    pub fn needs_renewal(&self, now: u64) -> (r: bool)
        ensures
            r == match renewal_due_of(self.token.expires_in@, self.time_since_token_renewal, now) {
                Ok(due) => due,
                Err(_) => true,
            },
    {
        match self.is_renewal_due(now) {
            Ok(due) => due,
            Err(_) => true,
        }
    }
}

/// A client just built is due for renewal at its first check, whenever that
/// comes: its token's lifetime reads `0`.
pub proof fn fresh_client_due_for_renewal(
    api: AllyApi,
    key: Seq<char>,
    secret: Seq<char>,
    created: u64,
    now: u64,
)
    requires
        api.is_fresh(key, secret, created),
    ensures
        renewal_due_of(api.token.expires_in@, api.time_since_token_renewal, now) == Ok::<
            bool,
            DataError,
        >(true),
{
    let s = api.token.expires_in@;
    assert(s.drop_last() =~= Seq::<char>::empty());
    reveal_with_fuel(crate::expiry::decimal_value, 2);
    assert(crate::expiry::decimal_value(s) == 0);
}

} // verus!
