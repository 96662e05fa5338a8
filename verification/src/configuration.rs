//! Configuration consumed by the service: database connection parameters,
//! email-provider settings, and this application's own address. Loading
//! them from files and environment variables is the surrounding program's
//! job; the core only carries the values.

use vstd::prelude::*;
use vstd::string::StringExecFns;

verus! {

#[derive(Clone, Debug)]
pub struct ApplicationSettings {
    pub port: u16,
    pub host: String,
}

#[derive(Clone, Debug)]
pub struct EmailClientSettings {
    pub base_url: String,
    pub sender: String,
    pub authorization_token: String,
    pub timeout_milliseconds: u64,
}

#[derive(Clone, Debug)]
pub struct DatabaseSettings {
    pub username: String,
    pub password: String,
    pub port: u16,
    pub host: String,
    pub database_name: String,
    pub require_ssl: bool,
}

#[derive(Clone, Debug)]
pub struct Settings {
    pub database: DatabaseSettings,
    pub application: ApplicationSettings,
    pub email_client: EmailClientSettings,
}

/// Relies on `core::time::Duration::from_millis`; the value is opaque here.
pub assume_specification [ core::time::Duration::from_millis ](millis: u64)
    -> core::time::Duration;

impl EmailClientSettings {
    /// The email-send timeout as a duration.
    pub fn timeout(&self) -> std::time::Duration {
        std::time::Duration::from_millis(self.timeout_milliseconds)
    }
}

/// The lowercase form of a string, as `str::to_lowercase` defines it: a
/// function of the characters alone.
pub uninterp spec fn lower_of(s: Seq<char>) -> Seq<char>;

/// Relies on `str::to_lowercase`: the Unicode-lowercased string.
#[verifier::external_body]
fn to_lowercase(s: &str) -> (r: String)
    ensures
        r@ == lower_of(s@),
{
    s.to_lowercase()
}

/// The runtime environment the application runs in.
#[derive(Clone, Copy, Debug, PartialEq, Eq, Structural)]
pub enum Environment {
    Local,
    Production,
}

/// The canonical name of each environment.
pub open spec fn environment_name(e: Environment) -> Seq<char> {
    match e {
        Environment::Local => "local"@,
        Environment::Production => "production"@,
    }
}

impl Environment {
    pub fn as_str(&self) -> (r: &'static str)
        ensures
            r@ == environment_name(*self),
    {
        match self {
            Environment::Local => "local",
            Environment::Production => "production",
        }
    }

    /// Parses an environment name, case-insensitively; anything but
    /// `local` or `production` is rejected with a message naming the value.
    pub fn parse(s: &str) -> (r: Result<Environment, String>)
        ensures
            lower_of(s@) == "local"@ ==> r == Ok::<Environment, String>(Environment::Local),
            lower_of(s@) == "production"@ ==> r == Ok::<Environment, String>(
                Environment::Production,
            ),
            r matches Ok(e) ==> lower_of(s@) == environment_name(e),
            r matches Err(m) ==> m@ == lower_of(s@)
                + " is not a supported environment. Use either `local` or `production`."@,
    {
        proof {
            reveal_strlit("local");
            reveal_strlit("production");
            assert("local"@.len() != "production"@.len());
        }
        let lowered = to_lowercase(s);
        if crate::text::str_eq(lowered.as_str(), "local") {
            Ok(Environment::Local)
        } else if crate::text::str_eq(lowered.as_str(), "production") {
            Ok(Environment::Production)
        } else {
            Err(lowered.concat(" is not a supported environment. Use either `local` or `production`."))
        }
    }
}

} // verus!
