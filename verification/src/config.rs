//! Configuration of the panel, and how it is read from the environment.

use crate::clock::CLOCK_SPAN;
use crate::text::{i64_of_text, parse_i64, parse_u16, u16_of_text};
use vstd::prelude::*;
use vstd::string::*;

verus! {

/// Settings that every service entry point is handed.
#[derive(Debug, Clone, PartialEq, Eq)]
pub struct Config {
    pub host: String,
    pub port: u16,
    pub database_url: String,
    pub jwt_secret: String,
    /// Lifetime of a token, in seconds.
    pub jwt_expiration: i64,
    pub session_secret: String,
    pub cors_origin: String,
    /// Credential for the provider's API, where one is configured.
    pub hetzner_api_token: Option<String>,
}

/// The variables that the configuration is read from, each as found in the
/// environment: `None` where the variable is unset or no valid text.
#[derive(Debug, Clone, PartialEq, Eq)]
pub struct Environment {
    /// `HOST`
    pub host: Option<String>,
    /// `PORT`
    pub port: Option<String>,
    /// `DATABASE_URL`
    pub database_url: Option<String>,
    /// `JWT_SECRET`
    pub jwt_secret: Option<String>,
    /// `JWT_EXPIRATION`
    pub jwt_expiration: Option<String>,
    /// `SESSION_SECRET`
    pub session_secret: Option<String>,
    /// `CORS_ORIGIN`
    pub cors_origin: Option<String>,
    /// `HETZNER_API_TOKEN`
    pub hetzner_api_token: Option<String>,
}

/// Why the environment gives no configuration.
#[derive(Debug, Clone, Copy, PartialEq, Eq)]
pub enum ConfigError {
    /// `PORT` is no number from 0 to 65535.
    InvalidPort,
    /// `JWT_EXPIRATION` is no 64-bit number.
    InvalidJwtExpiration,
}

/// The text of a variable, or its default where it is unset.
pub open spec fn or_default(value: Option<String>, default: Seq<char>) -> Seq<char> {
    match value {
        Some(text) => text@,
        None => default,
    }
}

impl Environment {
    /// The port that the environment asks for: `PORT` read as a number, 3000
    /// where it is unset, `None` where it is set to anything else.
    pub open spec fn port_value(self) -> Option<u16> {
        u16_of_text(or_default(self.port, "3000"@))
    }

    /// The token lifetime that the environment asks for: `JWT_EXPIRATION`
    /// read as a number, 86400 where it is unset, `None` where it is set to
    /// anything else.
    pub open spec fn jwt_expiration_value(self) -> Option<i64> {
        i64_of_text(or_default(self.jwt_expiration, "86400"@))
    }

    /// Whether every variable is set that has no default and is read before
    /// the first invalid one. Reading stops at an invalid `PORT` or
    /// `JWT_EXPIRATION`; `DATABASE_URL` and `JWT_SECRET` are read after the
    /// port, `SESSION_SECRET` after the lifetime.
    pub open spec fn complete(self) -> bool {
        &&& self.port_value() is Some ==> self.database_url is Some && self.jwt_secret is Some
        &&& self.port_value() is Some && self.jwt_expiration_value() is Some
            ==> self.session_secret is Some
    }
}

impl Environment {
    /// Whether [`Environment::complete`] holds.
    pub fn is_complete(&self) -> (complete: bool)
        ensures
            complete == self.complete(),
    {
        let port = match &self.port {
            Some(text) => parse_u16(text.as_str()),
            None => parse_u16("3000"),
        };
        let jwt_expiration = match &self.jwt_expiration {
            Some(text) => parse_i64(text.as_str()),
            None => parse_i64("86400"),
        };
        if port.is_none() {
            true
        } else if self.database_url.is_none() || self.jwt_secret.is_none() {
            false
        } else if jwt_expiration.is_none() {
            true
        } else {
            self.session_secret.is_some()
        }
    }
}

impl Config {
    /// Whether issuing a token at any instant that the clock can report
    /// yields an expiry within the 64-bit range.
    pub open spec fn lifetime_fits(&self) -> bool {
        i64::MIN + CLOCK_SPAN <= self.jwt_expiration <= i64::MAX - CLOCK_SPAN
    }

    /// Whether [`Config::lifetime_fits`] holds.
    pub fn check_lifetime(&self) -> (fits: bool)
        ensures
            fits == self.lifetime_fits(),
    {
        i64::MIN + CLOCK_SPAN <= self.jwt_expiration && self.jwt_expiration <= i64::MAX
            - CLOCK_SPAN
    }

    /// Builds the configuration from the environment's variables.
    ///
    /// Unset variables take their defaults: host `0.0.0.0`, port 3000, token
    /// lifetime 86400 seconds, allowed origin `http://localhost:3000`. A port
    /// or a lifetime that is set to something that is no number of its type
    /// is an error, the port's first. The variables without a default must be
    /// set, as far as reading gets to them.
    pub fn from_env(env: Environment) -> (config: Result<Config, ConfigError>)
        requires
            env.complete(),
        ensures
            match (env.port_value(), env.jwt_expiration_value()) {
                (None, _) => config == Err::<Config, ConfigError>(ConfigError::InvalidPort),
                (Some(_), None) => config == Err::<Config, ConfigError>(
                    ConfigError::InvalidJwtExpiration,
                ),
                (Some(port), Some(jwt_expiration)) => {
                    &&& config matches Ok(c)
                    &&& c.host@ == or_default(env.host, "0.0.0.0"@)
                    &&& c.port == port
                    &&& c.database_url == env.database_url->0
                    &&& c.jwt_secret == env.jwt_secret->0
                    &&& c.jwt_expiration == jwt_expiration
                    &&& c.session_secret == env.session_secret->0
                    &&& c.cors_origin@ == or_default(env.cors_origin, "http://localhost:3000"@)
                    &&& c.hetzner_api_token == env.hetzner_api_token
                },
            },
    {
        let host = match env.host {
            Some(host) => host,
            None => "0.0.0.0".to_owned(),
        };
        let port = match env.port {
            Some(text) => parse_u16(text.as_str()),
            None => parse_u16("3000"),
        };
        let port = match port {
            Some(port) => port,
            None => {
                return Err(ConfigError::InvalidPort);
            },
        };
        let database_url = env.database_url.unwrap();
        let jwt_secret = env.jwt_secret.unwrap();
        let jwt_expiration = match env.jwt_expiration {
            Some(text) => parse_i64(text.as_str()),
            None => parse_i64("86400"),
        };
        let jwt_expiration = match jwt_expiration {
            Some(jwt_expiration) => jwt_expiration,
            None => {
                return Err(ConfigError::InvalidJwtExpiration);
            },
        };
        let session_secret = env.session_secret.unwrap();
        let cors_origin = match env.cors_origin {
            Some(origin) => origin,
            None => "http://localhost:3000".to_owned(),
        };
        Ok(
            Config {
                host,
                port,
                database_url,
                jwt_secret,
                jwt_expiration,
                session_secret,
                cors_origin,
                hetzner_api_token: env.hetzner_api_token,
            },
        )
    }
}

} // verus!
